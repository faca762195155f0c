//! The length+checksum framing primitive.
//!
//! A framed payload is: a 4-byte little-endian length, then a 4-byte
//! integrity checksum (the first four bytes of the double-SHA-256 digest of
//! the payload), then the payload bytes themselves. Unframing validates both
//! the length and the checksum against untrusted input.

use vstd::prelude::*;
use vstd::bytes::{spec_u32_to_le_bytes, spec_u32_from_le_bytes, u32_to_le_bytes, u32_from_le_bytes};
use vstd::slice::{slice_subrange, slice_to_vec};
use crate::error::DecodeError;

verus! {

/// The SHA-256 digest of a byte sequence.
pub uninterp spec fn sha256_of(data: Seq<u8>) -> Seq<u8>;

/// Computes the SHA-256 digest of `data`.
///
/// Relies on `sha2::Sha256` (SHA-256 as in FIPS 180-4, via the `Digest`
/// trait): the digest is a function of the input bytes alone and is exactly
/// 32 bytes long.
#[verifier::external_body]
fn sha256(data: &Vec<u8>) -> (r: Vec<u8>)
    ensures
        r@ == sha256_of(data@),
        r@.len() == 32,
{
    let digest = <sha2::Sha256 as sha2::Digest>::digest(data.as_slice());
    digest.to_vec()
}

/// The 4-byte integrity checksum of a payload: the first four bytes of the
/// double-SHA-256 digest.
pub open spec fn spec_checksum(data: Seq<u8>) -> Seq<u8> {
    Seq::new(4, |i: int| sha256_of(sha256_of(data))[i])
}

/// Computes the 4-byte double-SHA-256 checksum of `data`.
pub fn checksum(data: &Vec<u8>) -> (r: Vec<u8>)
    ensures
        r@ == spec_checksum(data@),
        r@.len() == 4,
{
    let first = sha256(data);
    let second = sha256(&first);
    let r = slice_to_vec(slice_subrange(second.as_slice(), 0, 4));
    proof {
        assert(r@ =~= spec_checksum(data@));
    }
    r
}

/// The framed form of a payload: little-endian length, checksum, payload.
pub open spec fn spec_frame(payload: Seq<u8>) -> Seq<u8> {
    spec_u32_to_le_bytes(payload.len() as u32) + spec_checksum(payload) + payload
}

/// The payload length a frame starting at `start` in `d` announces.
pub open spec fn spec_frame_len(d: Seq<u8>, start: int) -> int {
    spec_u32_from_le_bytes(d.subrange(start, start + 4)) as int
}

/// Whether `d` holds a complete frame at `start`: an 8-byte header and as
/// many payload bytes as the length field announces.
pub open spec fn spec_frame_fits(d: Seq<u8>, start: int) -> bool {
    &&& d.len() >= start + 8
    &&& d.len() >= start + 8 + spec_frame_len(d, start)
}

/// The payload bytes of the frame at `start` in `d`.
pub open spec fn spec_frame_payload(d: Seq<u8>, start: int) -> Seq<u8> {
    d.subrange(start + 8, start + 8 + spec_frame_len(d, start))
}

/// Whether the checksum field of the frame at `start` matches its payload.
pub open spec fn spec_frame_checksum_ok(d: Seq<u8>, start: int) -> bool {
    d.subrange(start + 4, start + 8) == spec_checksum(spec_frame_payload(d, start))
}

/// Wraps a payload with its length and checksum. The length must fit the
/// 4-byte wire field.
pub fn frame_payload(payload: &Vec<u8>) -> (r: Vec<u8>)
    requires
        payload@.len() <= u32::MAX,
    ensures
        r@ == spec_frame(payload@),
{
    let mut r = u32_to_le_bytes(payload.len() as u32);
    let mut check = checksum(payload);
    r.append(&mut check);
    let mut body = copy_bytes(payload);
    r.append(&mut body);
    proof {
        assert(r@ =~= spec_frame(payload@));
    }
    r
}

/// Reads the frame that starts at `start` in `data`, validates its length
/// and checksum, and returns the raw payload bytes. Fails with `Truncated`
/// exactly when the frame runs past the end of `data`, and with
/// `BadChecksum` exactly when the frame is complete but its checksum field
/// does not match its payload.
pub fn unframe_payload(data: &Vec<u8>, start: usize) -> (r: Result<Vec<u8>, DecodeError>)
    ensures
        match r {
            Ok(p) => {
                &&& spec_frame_fits(data@, start as int)
                &&& spec_frame_checksum_ok(data@, start as int)
                &&& p@ == spec_frame_payload(data@, start as int)
            },
            Err(e) => match e {
                DecodeError::Truncated => !spec_frame_fits(data@, start as int),
                DecodeError::BadChecksum => spec_frame_fits(data@, start as int)
                    && !spec_frame_checksum_ok(data@, start as int),
                _ => false,
            },
        },
{
    if data.len() < start || data.len() - start < 8 {
        return Err(DecodeError::Truncated);
    }
    let len = u32_from_le_bytes(slice_subrange(data.as_slice(), start, start + 4));
    let len_usize = len as usize;
    if data.len() - start - 8 < len_usize {
        return Err(DecodeError::Truncated);
    }
    let payload = slice_to_vec(slice_subrange(data.as_slice(), start + 8, start + 8 + len_usize));
    let expected = checksum(&payload);
    let received = slice_to_vec(slice_subrange(data.as_slice(), start + 4, start + 8));
    proof {
        assert(payload@ == spec_frame_payload(data@, start as int));
        assert(received@ == data@.subrange(start as int + 4, start as int + 8));
    }
    if bytes_eq(&expected, &received) {
        Ok(payload)
    } else {
        Err(DecodeError::BadChecksum)
    }
}

/// Copies a byte vector.
pub(crate) fn copy_bytes(src: &Vec<u8>) -> (r: Vec<u8>)
    ensures
        r@ == src@,
{
    let mut r: Vec<u8> = Vec::new();
    let mut i: usize = 0;
    while i < src.len()
        invariant
            i <= src@.len(),
            r@ =~= src@.take(i as int),
        decreases src@.len() - i,
    {
        r.push(src[i]);
        i += 1;
    }
    proof {
        assert(r@ =~= src@);
    }
    r
}

/// Whether two byte vectors hold the same bytes.
fn bytes_eq(a: &Vec<u8>, b: &Vec<u8>) -> (r: bool)
    ensures
        r == (a@ == b@),
{
    if a.len() != b.len() {
        proof {
            assert(a@ != b@);
        }
        return false;
    }
    let mut i: usize = 0;
    while i < a.len()
        invariant
            i <= a@.len(),
            a@.len() == b@.len(),
            forall|j: int| 0 <= j < i ==> a@[j] == b@[j],
        decreases a@.len() - i,
    {
        if a[i] != b[i] {
            return false;
        }
        i += 1;
    }
    proof {
        assert(a@ =~= b@);
    }
    true
}

} // verus!
