//! Wire decoding and per-connection message assembly for a log-collection
//! agent's binary protocol.

pub mod wire;
pub mod text;
pub mod packet;
pub mod assembler;
pub mod render;
