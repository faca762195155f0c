//! Errors returned when a wire frame cannot be decoded into an envelope.

use vstd::prelude::*;

verus! {

/// Why decoding a byte sequence into a message envelope failed.
///
/// Malformed network input is an expected outcome, never a panic: every
/// failure mode of the decoder is one of these variants.
#[derive(Debug)]
pub enum DecodeError {
    /// Not enough bytes remained for a fixed-size field or for the payload
    /// length announced by the frame header.
    Truncated,
    /// The frame's checksum field does not match the first four bytes of the
    /// double-SHA-256 digest of the payload.
    BadChecksum,
    /// The command tag decoded to a name that no known message kind uses;
    /// carries that name so the caller can decide what to do with the frame.
    UnrecognizedCommand(String),
    /// The command tag named a known message kind, but its payload failed to
    /// decode; carries the command name and the underlying failure.
    PayloadDecode { command: String, cause: Box<DecodeError> },
}

} // verus!
