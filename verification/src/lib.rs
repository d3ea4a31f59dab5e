//! Verified core of a TCP text-broadcast relay.
//!
//! A server accepts multiple client connections; any text a client sends is
//! forwarded to every other currently connected client. This crate holds the
//! parts of that server that can be reasoned about: the connection registry,
//! the broadcast fan-out with its failure handling, and the per-connection
//! read/dispatch state machine. Socket I/O and task spawning live outside,
//! in the binary that embeds this library.

pub mod identity;
pub mod outbound;
pub mod text;
pub mod registry;
pub mod broadcaster;
pub mod worker;
