//! Core of a runtime host for IEC 61499-style function blocks: the wire codec
//! of the management protocol, the per-connection state machine, and the
//! hierarchy of named function blocks that management requests act on.

pub mod blocks;
pub mod protocol;
pub mod runtime;
pub mod text;
