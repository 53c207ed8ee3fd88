//! The raw extended-query interface of a PostgreSQL client.
//!
//! Commands are encoded as frames into the client's pending buffer; a Sync
//! takes the buffer out as one batch; the bodies that come back are read as
//! rows and columns. Nothing here touches a socket: a command hands out the
//! bytes to send, and a response stream is asked, for each message that
//! arrived, what its next item is.
//!
//! The commands of `query` are buffered: none is answered before the next
//! Sync. Those of `eager` are sent at once, each in a batch of its own, and
//! hand out their handle only when the server has confirmed it. Statements
//! and portals are released by a Close frame, which `release` writes when the
//! last holder of a handle lets go of it.

pub mod buffer;
pub mod client;
pub mod describe;
pub mod eager;
pub mod error;
pub mod frames;
pub mod laws;
pub mod portal;
pub mod query;
pub mod replies;
pub mod simple_query;
pub mod statement;
pub mod types;
pub mod wire;

pub use client::Client;
pub use describe::{describe, DescribeTarget};
pub use error::{Error, ErrorKind};
pub use portal::Portal;
pub use query::{bind, encode_bind, execute, internal_prepare, prepare, sync, QueryStream, Row};
pub use replies::MessageKind;
pub use simple_query::{
    simple_query, SimpleColumn, SimpleQueryRow, SimpleQueryStream,
};
pub use statement::{Oid, Statement};
