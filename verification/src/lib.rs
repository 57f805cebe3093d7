//! A tool-invocation protocol layer: a registry of named tools, a store of
//! per-connection sessions, a transport-independent message model and the
//! lifecycle rules that let a server drain in-flight work before it stops.
//!
//! Everything here works on plain values. Transports, clocks and random
//! sources live with the caller and hand their results in as arguments.

pub mod error;
pub mod schema;
pub mod example_mcp;
pub mod session;
pub mod message;
pub mod registry;
pub mod lifecycle;
pub mod server;
pub mod transport;
