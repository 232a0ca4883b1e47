//! A small client core for a line-oriented key-value protocol: the framing of
//! one command and its reply, and the bookkeeping of a bounded pool of
//! connections that are reused last-in, first-out.
//!
//! Nothing here touches a socket. A driver owns the transport streams, names
//! each by a token, performs the reads and writes that the functions of this
//! crate ask for, and hands the outcomes back.

pub mod redis_connection;
pub mod redis_error;
pub mod redis_pool;

pub use crate::redis_connection::{
    decode_error_message, encode_command, Action, RedisConnection, ERROR_BUFFER_SIZE, ERROR_SIGIL,
};
pub use crate::redis_error::{RedisError, RedisErrorView};
pub use crate::redis_pool::{Endpoint, PoolView, RedisPool, DEFAULT_MAX_SIZE};
