//! Control-plane client for a remote network fault-injection service.
//!
//! The library decides what to send and how to read what comes back; the
//! caller owns the connection and performs each request.
pub mod error;
pub mod toxic;
pub mod json;
pub mod endpoint;
pub mod proxy;
pub mod command;
pub mod server;
pub mod reply;
pub mod cleanup;
pub mod lookup;
pub mod toxiproxy;
