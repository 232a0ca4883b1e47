use redi_rs::{Endpoint, RedisConnection, RedisError, RedisPool, DEFAULT_MAX_SIZE};

fn local() -> Endpoint {
    Endpoint::V4 { octets: [127, 0, 0, 1], port: 6379 }
}

fn conn(token: u64) -> RedisConnection {
    RedisConnection { stream: token }
}

fn established(tokens: &[u64]) -> RedisPool {
    let mut pool = RedisPool::from(local());
    pool.max_connections(tokens.len() as u32);
    let attempts: Vec<Option<u64>> = tokens.iter().map(|t| Some(*t)).collect();
    assert_eq!(pool.establish_pool(attempts), Ok(()));
    pool
}

fn drain(pool: &mut RedisPool) -> Vec<u64> {
    let mut tokens = Vec::new();
    while let Some(c) = pool.checkout() {
        tokens.push(c.stream);
    }
    tokens
}

#[test]
fn new_pool_has_the_defaults() {
    let pool = RedisPool::from(local());
    assert_eq!(DEFAULT_MAX_SIZE, 10);
    assert_eq!(pool.max_size(), 10);
    assert_eq!(pool.addr(), local());
    assert!(!pool.is_established());
    assert_eq!(pool.len(), 0);
}

#[test]
fn first_resolved_address_wins() {
    let other = Endpoint::V6 { segments: [0, 0, 0, 0, 0, 0, 0, 1], port: 6380, flowinfo: 0, scope_id: 0 };
    let pool = RedisPool::from_resolved(Some(vec![other, local()])).unwrap();
    assert_eq!(pool.addr(), other);
    assert_eq!(pool.max_size(), 10);
    assert!(!pool.is_established());
    assert_eq!(pool.len(), 0);
}

#[test]
fn failed_resolution_is_a_setup_error() {
    let expected = RedisError::SetupError("Failed to parse connection string".to_string());
    assert_eq!(RedisPool::from_resolved(None).err(), Some(expected.clone()));
    assert_eq!(RedisPool::from_resolved(Some(Vec::new())).err(), Some(expected));
}

#[test]
fn max_connections_chains_and_keeps_the_rest() {
    let mut pool = RedisPool::from(local());
    assert_eq!(pool.max_connections(3).max_size(), 3);
    assert_eq!(pool.max_connections(4).max_connections(5).max_size(), 5);
    assert_eq!(pool.addr(), local());
    assert!(!pool.is_established());
}

#[test]
fn establish_keeps_what_was_opened() {
    let mut pool = RedisPool::from(local());
    pool.max_connections(5);
    let attempts = vec![Some(1), None, Some(3), None, Some(5)];
    assert_eq!(pool.establish_pool(attempts), Ok(()));
    assert!(pool.is_established());
    assert_eq!(pool.len(), 3);
    assert_eq!(drain(&mut pool), vec![5, 3, 1]);
}

#[test]
fn establish_with_every_attempt_failed_is_still_established() {
    let mut pool = RedisPool::from(local());
    pool.max_connections(4);
    assert_eq!(pool.establish_pool(vec![None, None, None, None]), Ok(()));
    assert!(pool.is_established());
    assert_eq!(pool.len(), 0);
}

#[test]
fn establish_of_size_zero_opens_nothing() {
    let mut pool = RedisPool::from(local());
    pool.max_connections(0);
    assert_eq!(pool.establish_pool(vec![Some(1), Some(2)]), Ok(()));
    assert!(pool.is_established());
    assert_eq!(pool.len(), 0);
}

#[test]
fn establish_passes_over_attempts_beyond_the_size() {
    let mut pool = RedisPool::from(local());
    pool.max_connections(2);
    assert_eq!(pool.establish_pool(vec![Some(1), None, Some(3), Some(4)]), Ok(()));
    assert_eq!(pool.len(), 1);
    assert_eq!(drain(&mut pool), vec![1]);
}

#[test]
fn establish_size_is_attempts_less_failures() {
    for n in 0..6u32 {
        for failed in 0..=n {
            let mut pool = RedisPool::from(local());
            pool.max_connections(n);
            let attempts: Vec<Option<u64>> =
                (0..n).map(|i| if i < failed { None } else { Some(i as u64) }).collect();
            assert_eq!(pool.establish_pool(attempts), Ok(()));
            assert_eq!(pool.len() as u32, n - failed);
            assert!(pool.len() as u32 <= n);
        }
    }
}

#[test]
fn size_set_after_establishment_changes_no_connection() {
    let mut pool = established(&[1, 2, 3]);
    pool.max_connections(1);
    assert_eq!(pool.max_size(), 1);
    assert!(pool.is_established());
    assert_eq!(pool.len(), 3);
}

#[test]
fn three_commands_reuse_the_last_returned_connection() {
    let mut pool = established(&[1, 2, 3]);
    let mut served = Vec::new();
    for _ in 0..3 {
        let lent = pool.checkout().unwrap();
        served.push(lent.stream);
        assert_eq!(pool.send_command(lent, true, Ok(())), Ok(lent));
    }
    assert_eq!(served, vec![3, 3, 3]);
    assert_eq!(pool.len(), 3);
    assert_eq!(drain(&mut pool), vec![3, 2, 1]);
}

#[test]
fn connections_return_in_stack_order() {
    let mut pool = established(&[1, 2, 3]);
    let a = pool.checkout().unwrap();
    let b = pool.checkout().unwrap();
    assert_eq!((a.stream, b.stream), (3, 2));
    assert_eq!(pool.send_command(a, true, Ok(())), Ok(a));
    assert_eq!(pool.send_command(b, true, Ok(())), Ok(b));
    assert_eq!(drain(&mut pool), vec![2, 3, 1]);
}

#[test]
fn failed_command_loses_its_connection() {
    let mut pool = established(&[1, 2, 3]);
    let lent = pool.checkout().unwrap();
    let error = RedisError::CommandError("ERR unknown command".to_string());
    assert_eq!(pool.send_command(lent, true, Err(error.clone())), Err(error));
    assert_eq!(pool.len(), 2);
    assert_eq!(pool.checkout(), Some(conn(2)));
}

#[test]
fn empty_pool_lends_nothing_and_keeps_no_fresh_connection() {
    let mut pool = established(&[]);
    assert_eq!(pool.checkout(), None);
    let fresh = RedisConnection::new(Some(77)).unwrap();
    assert_eq!(pool.send_command(fresh, false, Ok(())), Ok(fresh));
    assert_eq!(pool.len(), 0);
    assert_eq!(pool.checkout(), None);
}

#[test]
fn unestablished_pool_serves_with_fresh_connections() {
    let mut pool = RedisPool::from(local());
    assert_eq!(pool.checkout(), None);
    let fresh = conn(5);
    assert_eq!(pool.send_command(fresh, false, Ok(())), Ok(fresh));
    assert_eq!(pool.len(), 0);
    assert!(!pool.is_established());
}

#[test]
fn failed_command_on_a_fresh_connection_changes_nothing() {
    let mut pool = established(&[1]);
    let error = RedisError::CommandError("timeout".to_string());
    assert_eq!(pool.send_command(conn(9), false, Err(error.clone())), Err(error));
    assert_eq!(pool.len(), 1);
    assert_eq!(pool.checkout(), Some(conn(1)));
}
