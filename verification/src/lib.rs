//! Message envelope layer of a Bitcoin-style peer-to-peer binary protocol.
//!
//! A wire frame couples a 4-byte network magic, a 12-byte command tag, and a
//! length- and checksum-framed payload. This crate encodes typed messages into
//! such frames and decodes arbitrary bytes back into typed messages, routing
//! each frame to the payload decoder named by its command tag.

pub mod command;
pub mod error;
pub mod frame;
pub mod message;
