//! Host-side core of a serial task loader: resolving a symbol's load
//! address out of an executable image, encoding the wire frames that
//! drive the remote task supervisor, and a byte-level model of the
//! shared duplex serial channel.

pub mod bytesutil;
pub mod command;
pub mod frames;
pub mod symbols;
pub mod taskid;
pub mod transport;
