//! The core of a small in-memory key-value service: the store, the session
//! that serves one connection, and the multiplexer that lets many callers
//! share one client connection.

pub mod command;
pub mod frame;
pub mod history;
pub mod mux;
pub mod session;
pub mod shared;
pub mod store;
