//! Shared state for per-user characters and the wire protocol that carries it.
//!
//! The library holds the message types, the length-prefixed framing, the
//! request dispatcher, an in-memory stat store, the server's connection
//! registry and the client's frame demultiplexer. Sockets, tasks and the
//! binary encoding of messages live with the programs that use it.
pub mod protocol;
pub mod record;
pub mod dispatch;
pub mod store;
pub mod frame;
pub mod registry;
pub mod client;
pub mod server;
pub mod config;
