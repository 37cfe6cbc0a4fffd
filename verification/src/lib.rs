//! The connection lifecycle and HTTP/2 streaming state machine of a small
//! HTTP serving runtime, written without I/O: every poll of the transport,
//! the protocol engine or the application is an event handed in, and every
//! frame to emit is an action handed back.

pub mod buf;
pub mod client;
pub mod connection;
pub mod error;
pub mod events;
pub mod head;
pub mod server;
pub mod service;
pub mod stream;
pub mod upgrade;
