//! Decoding an opaque byte sequence into one operand pair.
//!
//! The byte order is fixed so that failing inputs replay identically
//! across runs and platforms: the first eight bytes give `a` and the
//! next eight give `b`, both little-endian. Any bytes past the
//! sixteenth are ignored; fewer than sixteen bytes is a decode error.

use vstd::prelude::*;

verus! {

/// One structured fuzz input: the two operands handed to the probe.
/// Every bit pattern of the sixteen decoded bytes is a legal pair; no
/// value is excluded.
#[derive(Clone, Copy, Debug, PartialEq, Eq, Structural)]
pub struct OperandPair {
    pub a: u64,
    pub b: u64,
}

/// The input held fewer than the sixteen bytes an operand pair needs.
#[derive(Clone, Copy, Debug, PartialEq, Eq, Structural)]
pub struct DecodeError;

/// The number of bytes one operand pair occupies.
pub const PAIR_BYTES: usize = 16;

/// The unsigned value of the eight little-endian bytes of `s` starting
/// at `off`.
pub open spec fn le64_at(s: Seq<u8>, off: int) -> int
    recommends
        0 <= off,
        off + 8 <= s.len(),
{
    s[off] + s[off + 1] * 0x100 + s[off + 2] * 0x1_0000 + s[off + 3] * 0x100_0000 + s[off + 4]
        * 0x1_0000_0000 + s[off + 5] * 0x100_0000_0000 + s[off + 6] * 0x1_0000_0000_0000 + s[off
        + 7] * 0x100_0000_0000_0000
}

/// The pair decoding owes on every byte sequence: `a` from the first
/// eight bytes, `b` from the next eight, both little-endian; an error
/// on fewer than sixteen bytes.
pub open spec fn spec_decode(s: Seq<u8>) -> Result<OperandPair, DecodeError> {
    if s.len() >= 16 {
        Ok(OperandPair { a: le64_at(s, 0) as u64, b: le64_at(s, 8) as u64 })
    } else {
        Err(DecodeError)
    }
}

/// Decoding is total over any sequence of sufficient length: the value
/// of eight little-endian bytes always fits in a `u64`, so the cast in
/// `spec_decode` loses nothing and every sixteen-byte window maps to
/// some pair.
pub proof fn lemma_le64_in_range(s: Seq<u8>, off: int)
    requires
        0 <= off,
        off + 8 <= s.len(),
    ensures
        0 <= le64_at(s, off) <= u64::MAX,
{
}

/// Reads one little-endian 64-bit value from `bytes` at `off`.
fn read_le64(bytes: &[u8], off: usize) -> (r: u64)
    requires
        off + 8 <= bytes@.len(),
    ensures
        r == le64_at(bytes@, off as int),
{
    (bytes[off] as u64) + (bytes[off + 1] as u64) * 0x100 + (bytes[off + 2] as u64) * 0x1_0000 + (
    bytes[off + 3] as u64) * 0x100_0000 + (bytes[off + 4] as u64) * 0x1_0000_0000 + (bytes[off + 5]
        as u64) * 0x100_0000_0000 + (bytes[off + 6] as u64) * 0x1_0000_0000_0000 + (bytes[off + 7]
        as u64) * 0x100_0000_0000_0000
}

/// Decodes a byte sequence into one operand pair, or reports that the
/// sequence is too short. Decoding is a pure function of the bytes, so
/// the same sequence always yields the same pair.
pub fn decode(bytes: &[u8]) -> (r: Result<OperandPair, DecodeError>)
    ensures
        r == spec_decode(bytes@),
{
    if bytes.len() < PAIR_BYTES {
        Err(DecodeError)
    } else {
        let a = read_le64(bytes, 0);
        let b = read_le64(bytes, 8);
        Ok(OperandPair { a, b })
    }
}

/// Idempotence of decoding: equal byte sequences decode to identical
/// operand pairs, so a persisted failing input replays exactly.
pub proof fn lemma_decode_deterministic(s1: Seq<u8>, s2: Seq<u8>)
    requires
        s1 == s2,
    ensures
        spec_decode(s1) == spec_decode(s2),
{
}

} // verus!
