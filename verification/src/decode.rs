//! Bounds-checked fixed-width decode helpers for raw instruction payloads.
//!
//! Every helper checks the requested range against the buffer length and
//! returns `None` (insufficient data) instead of reading out of bounds.

use vstd::prelude::*;
use vstd::bytes::{spec_u64_from_le_bytes, u64_from_le_bytes};
use vstd::slice::{slice_index_get, slice_subrange};

verus! {

/// Little-endian `u64` decode of 8 bytes of `buffer` starting at `offset`,
/// or `None` when the buffer is too short.
pub open spec fn spec_parse_u64(buffer: Seq<u8>, offset: int) -> Option<u64> {
    if 0 <= offset && offset + 8 <= buffer.len() {
        Some(spec_u64_from_le_bytes(buffer.subrange(offset, offset + 8)))
    } else {
        None
    }
}

/// Single-byte decode of `buffer` at `offset`, or `None` when out of range.
pub open spec fn spec_parse_u8(buffer: Seq<u8>, offset: int) -> Option<u8> {
    if 0 <= offset && offset < buffer.len() {
        Some(buffer[offset])
    } else {
        None
    }
}

/// Reads a fixed-width little-endian 64-bit unsigned integer from a raw
/// payload, checking bounds first.
pub fn parse_u64(buffer: &[u8], offset: usize) -> (r: Option<u64>)
    ensures
        r == spec_parse_u64(buffer@, offset as int),
        r is Some <==> offset + 8 <= buffer@.len(),
{
    if offset < buffer.len() && buffer.len() - offset >= 8 {
        let word = slice_subrange(buffer, offset, offset + 8);
        Some(u64_from_le_bytes(word))
    } else {
        None
    }
}

/// Reads a single byte from a raw payload, checking bounds first.
pub fn parse_u8(buffer: &[u8], offset: usize) -> (r: Option<u8>)
    ensures
        r == spec_parse_u8(buffer@, offset as int),
        r is Some <==> offset < buffer@.len(),
{
    if offset < buffer.len() {
        Some(*slice_index_get(buffer, offset))
    } else {
        None
    }
}

/// Base58 rendering of a byte string, as `bs58::encode` produces it.
pub uninterp spec fn base58_of(bytes: Seq<u8>) -> Seq<char>;

/// Relies on `bs58::encode(..).into_string()` (Bitcoin alphabet, no checksum):
/// the encoding is a function of the input bytes alone.
#[verifier::external_body]
fn base58_encode(bytes: &[u8]) -> (r: String)
    ensures
        r@ == base58_of(bytes@),
{
    bs58::encode(bytes).into_string()
}

/// Reads a 32-byte public key from a raw payload, checking bounds first, and
/// returns it in base58 form.
pub fn parse_public_key(buffer: &[u8], offset: usize) -> (r: Option<String>)
    ensures
        r is Some <==> offset + 32 <= buffer@.len(),
        r matches Some(s) ==> s@ == base58_of(buffer@.subrange(offset as int, offset as int + 32)),
{
    if offset < buffer.len() && buffer.len() - offset >= 32 {
        let key = slice_subrange(buffer, offset, offset + 32);
        Some(base58_encode(key))
    } else {
        None
    }
}

} // verus!
