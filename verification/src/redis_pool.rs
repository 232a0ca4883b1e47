//! The pool: a stack of idle connections to one endpoint, filled once and
//! then lent out and taken back, most recently returned first.
//!
//! The pool opens nothing itself. Its driver opens the streams and runs the
//! exchanges; the pool decides which connection serves a command and what
//! becomes of it afterwards.

use crate::redis_connection::RedisConnection;
use crate::redis_error::{RedisError, RedisErrorView};
use vstd::prelude::*;
use vstd::string::*;

verus! {

/// The size of a pool that was not configured.
pub const DEFAULT_MAX_SIZE: u32 = 10;

/// A resolved network address of the server, as plain numbers.
#[derive(Debug, Clone, Copy, PartialEq, Eq)]
pub enum Endpoint {
    /// An IPv4 address and a port.
    V4 { octets: [u8; 4], port: u16 },
    /// An IPv6 address, in eight segments, with its port, flow information
    /// and scope.
    V6 { segments: [u16; 8], port: u16, flowinfo: u32, scope_id: u32 },
}

/// A bounded set of warm connections to one endpoint.
#[derive(Debug)]
pub struct RedisPool {
    max_size: u32,
    addr: Endpoint,
    established: bool,
    connections: Vec<RedisConnection>,
}

/// The mathematical value of a [`RedisPool`].
pub ghost struct PoolView {
    /// How many connections establishment tries to open.
    pub max_size: u32,
    /// The one address that the pool is bound to.
    pub addr: Endpoint,
    /// Whether establishment has happened.
    pub established: bool,
    /// The idle connections, the most recently returned last.
    pub connections: Seq<RedisConnection>,
}

impl View for RedisPool {
    type V = PoolView;

    closed spec fn view(&self) -> PoolView {
        PoolView {
            max_size: self.max_size,
            addr: self.addr,
            established: self.established,
            connections: self.connections@,
        }
    }
}

/// The connections that a run of attempts opened, in the order of the
/// attempts. An attempt is the token of the stream it opened, or nothing.
pub open spec fn opened(attempts: Seq<Option<u64>>) -> Seq<RedisConnection>
    decreases attempts.len(),
{
    if attempts.len() == 0 {
        Seq::empty()
    } else {
        let before = opened(attempts.drop_last());
        match attempts.last() {
            Some(token) => before.push(RedisConnection { stream: token }),
            None => before,
        }
    }
}

/// How many attempts of a run failed.
pub open spec fn failures(attempts: Seq<Option<u64>>) -> nat
    decreases attempts.len(),
{
    if attempts.len() == 0 {
        0
    } else {
        failures(attempts.drop_last()) + if attempts.last() is None {
            1nat
        } else {
            0nat
        }
    }
}

/// The attempts that establishment looks at: the first `max_size` of them.
pub open spec fn considered(attempts: Seq<Option<u64>>, max_size: u32) -> Seq<Option<u64>> {
    if attempts.len() <= max_size {
        attempts
    } else {
        attempts.take(max_size as int)
    }
}

/// Lending: the connection that serves the next command, if the pool has
/// one, and the connections that stay behind. It is the last of the stack.
pub open spec fn lend(connections: Seq<RedisConnection>) -> (Option<RedisConnection>, Seq<
    RedisConnection,
>) {
    if connections.len() > 0 {
        (Some(connections.last()), connections.drop_last())
    } else {
        (None, connections)
    }
}

/// Settling: the idle connections after a command. A connection that came
/// from the pool goes back on top when its command succeeded, and is lost to
/// the pool when it failed. One that was opened for the command never enters.
pub open spec fn settle(
    connections: Seq<RedisConnection>,
    connection: RedisConnection,
    pooled: bool,
    success: bool,
) -> Seq<RedisConnection> {
    if pooled && success {
        connections.push(connection)
    } else {
        connections
    }
}

impl RedisPool {
    /// Validity: a pool that was never established holds no connection.
    pub open spec fn wf(&self) -> bool {
        !self@.established ==> self@.connections.len() == 0
    }

    /// A pool for one endpoint: of the default size, not yet established,
    /// without connections.
    pub fn from(addr: Endpoint) -> (pool: RedisPool)
        ensures
            pool.wf(),
            pool@ == (PoolView {
                max_size: DEFAULT_MAX_SIZE,
                addr: addr,
                established: false,
                connections: Seq::empty(),
            }),
    {
        RedisPool { max_size: DEFAULT_MAX_SIZE, addr, established: false, connections: Vec::new() }
    }

    /// A pool for the first address that resolving an endpoint text gave.
    /// Where resolving failed, or gave no address, this is a setup error.
    pub fn from_resolved(resolved: Option<Vec<Endpoint>>) -> (r: Result<RedisPool, RedisError>)
        ensures
            match resolved {
                Some(found) if found@.len() > 0 => r matches Ok(pool) && pool.wf() && pool@ == (
                PoolView {
                    max_size: DEFAULT_MAX_SIZE,
                    addr: found@[0],
                    established: false,
                    connections: Seq::empty(),
                }),
                _ => r matches Err(e) && e@ == RedisErrorView::SetupError(
                    "Failed to parse connection string"@,
                ),
            },
    {
        match resolved {
            Some(found) => {
                if found.len() > 0 {
                    return Ok(RedisPool::from(found[0]));
                }
            },
            None => {},
        }
        Err(RedisError::SetupError(String::from_str("Failed to parse connection string")))
    }

    /// Sets how many connections establishment will try to open. The idle
    /// connections are left as they are.
    pub fn max_connections(&mut self, size: u32) -> (pool: &mut Self)
        requires
            old(self).wf(),
        ensures
            pool@ == (PoolView { max_size: size, ..old(self)@ }),
            pool.wf(),
            *final(self) == *final(pool),
    {
        self.max_size = size;
        self
    }

    /// The configured size.
    pub fn max_size(&self) -> (size: u32)
        ensures
            size == self@.max_size,
    {
        self.max_size
    }

    /// The endpoint that the pool is bound to.
    pub fn addr(&self) -> (addr: Endpoint)
        ensures
            addr == self@.addr,
    {
        self.addr
    }

    /// Whether the pool has been established.
    pub fn is_established(&self) -> (established: bool)
        ensures
            established == self@.established,
    {
        self.established
    }

    /// The number of idle connections.
    pub fn len(&self) -> (n: usize)
        ensures
            n == self@.connections.len(),
    {
        self.connections.len()
    }

    /// Establishes the pool from the outcomes of the driver's attempts to
    /// open a stream, one attempt after the other. The first `max_size`
    /// attempts count: each stream that was opened becomes an idle
    /// connection, in order, and a failed attempt is passed over. The pool is
    /// established afterwards whatever the attempts gave, and this never
    /// fails.
    ///
    /// A pool is established once: a second call is a caller's error, which
    /// the precondition rules out.
    pub fn establish_pool(&mut self, attempts: Vec<Option<u64>>) -> (r: Result<(), RedisError>)
        requires
            old(self).wf(),
            !old(self)@.established,
        ensures
            r is Ok,
            final(self).wf(),
            final(self)@ == (PoolView {
                established: true,
                connections: opened(considered(attempts@, old(self)@.max_size)),
                ..old(self)@
            }),
            final(self)@.connections.len() + failures(considered(attempts@, old(self)@.max_size))
                == considered(attempts@, old(self)@.max_size).len(),
            final(self)@.connections.len() <= old(self)@.max_size,
            attempts@.len() == old(self)@.max_size ==> final(self)@.connections.len()
                == old(self)@.max_size - failures(attempts@),
    {
        let ghost run = considered(attempts@, self.max_size);
        self.established = true;
        let mut i: u32 = 0;
        assert(run.take(0) =~= Seq::<Option<u64>>::empty());
        assert(self.connections@ =~= opened(run.take(0)));
        while i < self.max_size && (i as usize) < attempts.len()
            invariant
                i <= self.max_size,
                i <= attempts@.len(),
                run == considered(attempts@, self.max_size),
                self.connections@ == opened(run.take(i as int)),
                self.established,
                self.max_size == old(self).max_size,
                self.addr == old(self).addr,
            decreases self.max_size - i,
        {
            assert(run.take(i + 1).drop_last() =~= run.take(i as int));
            assert(run.take(i + 1).last() == attempts@[i as int]);
            match RedisConnection::new(attempts[i as usize]) {
                Ok(connection) => {
                    self.connections.push(connection);
                },
                Err(_) => {},
            }
            i += 1;
        }
        proof {
            assert(run.take(i as int) =~= run);
            lemma_opened_or_failed(run);
        }
        Ok(())
    }

    /// Lends the connection for the next command: the most recently returned
    /// idle connection, which leaves the pool. An empty pool lends nothing
    /// and stays as it is: the driver then opens a connection for this
    /// command alone.
    pub fn checkout(&mut self) -> (lent: Option<RedisConnection>)
        requires
            old(self).wf(),
        ensures
            final(self).wf(),
            lent == lend(old(self)@.connections).0,
            final(self)@ == (PoolView {
                connections: lend(old(self)@.connections).1,
                ..old(self)@
            }),
            lent is Some ==> old(self)@.established,
    {
        self.connections.pop()
    }

    /// Settles a command that ran on `connection`, given where the
    /// connection came from and how the exchange ended. After success the
    /// caller gets the connection's handle, and a pooled connection is back
    /// on top of the pool, under the same handle. After failure the caller
    /// gets the error, and the connection is not returned to the pool. A
    /// connection that did not come from the pool never enters it.
    ///
    /// Only an established pool lends connections, so `pooled` asks for one.
    pub fn send_command(
        &mut self,
        connection: RedisConnection,
        pooled: bool,
        outcome: Result<(), RedisError>,
    ) -> (r: Result<RedisConnection, RedisError>)
        requires
            old(self).wf(),
            pooled ==> old(self)@.established,
        ensures
            final(self).wf(),
            match outcome {
                Ok(_) => r == Ok::<RedisConnection, RedisError>(connection),
                Err(e) => r == Err::<RedisConnection, RedisError>(e),
            },
            final(self)@ == (PoolView {
                connections: settle(old(self)@.connections, connection, pooled, outcome is Ok),
                ..old(self)@
            }),
    {
        match outcome {
            Ok(_) => {
                if pooled {
                    self.connections.push(connection);
                }
                Ok(connection)
            },
            Err(e) => Err(e),
        }
    }
}

/// Every attempt either opens a connection or fails: the two counts add up
/// to the length of the run, so a run of `n` attempts with `k` failures
/// leaves exactly `n - k` connections, and never more than `n`.
pub proof fn lemma_opened_or_failed(attempts: Seq<Option<u64>>)
    ensures
        opened(attempts).len() + failures(attempts) == attempts.len(),
        opened(attempts).len() <= attempts.len(),
    decreases attempts.len(),
{
    if attempts.len() > 0 {
        lemma_opened_or_failed(attempts.drop_last());
    }
}

/// Reuse is last-in, first-out. The pool lends its top connection; once the
/// command on it succeeded the same connection is on top again and serves
/// the next command, and the pool is as it was before. Once the command
/// failed the connection is gone, and the next command gets the one below.
pub proof fn lemma_reuse_is_lifo(connections: Seq<RedisConnection>)
    requires
        connections.len() > 0,
    ensures
        lend(connections).0 == Some(connections.last()),
        settle(lend(connections).1, connections.last(), true, true) == connections,
        lend(settle(lend(connections).1, connections.last(), true, true)) == lend(connections),
        settle(lend(connections).1, connections.last(), true, false) == connections.drop_last(),
        connections.len() > 1 ==> lend(
            settle(lend(connections).1, connections.last(), true, false),
        ).0 == Some(connections[connections.len() - 2]),
{
    assert(connections.drop_last().push(connections.last()) =~= connections);
}

/// A connection handed back after success is the next one lent, whatever lay
/// in the pool before.
pub proof fn lemma_returned_is_next(connections: Seq<RedisConnection>, connection: RedisConnection)
    ensures
        lend(settle(connections, connection, true, true)) == (Some(connection), connections),
{
    assert(connections.push(connection).drop_last() =~= connections);
}

/// A connection opened for one command on an empty pool stays outside: the
/// pool is still empty afterwards, however the command ended, so no later
/// command is served from the pool, by this connection or any other.
pub proof fn lemma_fresh_stays_outside(
    connections: Seq<RedisConnection>,
    connection: RedisConnection,
    success: bool,
)
    requires
        connections.len() == 0,
    ensures
        lend(connections) == (None::<RedisConnection>, connections),
        settle(lend(connections).1, connection, false, success) == connections,
        lend(settle(lend(connections).1, connection, false, success)).0 is None,
{
}

/// Whatever the pool holds, a connection that did not come from it is not
/// added by settling its command.
pub proof fn lemma_unpooled_never_enters(
    connections: Seq<RedisConnection>,
    connection: RedisConnection,
    success: bool,
)
    ensures
        settle(connections, connection, false, success) == connections,
{
}

} // verus!
