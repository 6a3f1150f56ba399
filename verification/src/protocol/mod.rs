//! The management protocol: its value model, the wire codec and the
//! per-connection state machine.

pub mod codec;
pub mod connection;
pub mod server;
