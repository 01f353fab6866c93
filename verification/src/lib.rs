//! Virtual point-to-point network interfaces: configuration, the platform
//! control protocol, packet framing and the readiness-driven I/O decisions,
//! each with a machine-checked contract.
//!
//! The library decides and encodes; it performs no system call itself. A
//! caller opens descriptors and issues control calls as the library's
//! actions ask, and hands the outcomes back.

pub mod adapter;
pub mod address;
pub mod buffer;
pub mod codec;
pub mod configuration;
pub mod error;
pub mod interface;
pub mod platform;

pub use codec::{TunPacket, TunPacketCodec};
pub use error::Error;
