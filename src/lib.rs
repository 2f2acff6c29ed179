//! A broadcast relay core: a registry of live connections, each with its own
//! outbound queue, and a dispatcher that copies every inbound text frame onto
//! the queue of every registered connection, the sender's own included.
//!
//! Locking, sockets and task spawning belong to the embedding program; the
//! types here are plain values that it guards and drives.

pub mod frame;
pub mod outbound;
pub mod registry;
pub mod dispatch;
pub mod issuer;
pub mod session;
