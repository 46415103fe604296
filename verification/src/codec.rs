//! Fixed-width big-endian integer codecs over byte buffers.
//!
//! These are the leaf codecs every composite codec is built on. Encoding
//! appends to a `Vec<u8>` sink; decoding reads from a byte source at a
//! cursor position and advances the cursor by exactly the bytes consumed.
//! A primitive decode never rejects a bit pattern: it fails only when the
//! source has too few bytes left.

use vstd::prelude::*;

verus! {

/// Why a decode failed.
#[derive(Clone, Copy, Debug, PartialEq, Eq, Structural)]
pub enum DecodeError {
    /// The byte source ran out before the value's full width was read.
    StreamFailure,
    /// The bytes were read, but the decoded integer names no variant of the
    /// target enumerated type.
    InvalidDiscriminant,
}

/// The two big-endian bytes of an unsigned 16-bit value.
pub open spec fn u16_be_bytes(v: u16) -> Seq<u8> {
    seq![(v >> 8) as u8, v as u8]
}

/// The two big-endian bytes of a signed 16-bit value (two's complement).
pub open spec fn i16_be_bytes(v: i16) -> Seq<u8> {
    u16_be_bytes(v as u16)
}

/// The unsigned 16-bit value read big-endian from two bytes.
pub open spec fn u16_from_be(hi: u8, lo: u8) -> u16 {
    (((hi as u16) << 8) | (lo as u16)) as u16
}

/// The signed 16-bit value read big-endian from two bytes.
pub open spec fn i16_from_be(hi: u8, lo: u8) -> i16 {
    u16_from_be(hi, lo) as i16
}

/// Writing a signed 16-bit value and reading it back yields the same value.
pub proof fn lemma_i16_round_trip(v: i16)
    ensures
        i16_from_be(i16_be_bytes(v)[0], i16_be_bytes(v)[1]) == v,
{
    assert((((((v as u16) >> 8) as u8 as u16) << 8) | ((v as u16) as u8 as u16)) as i16 == v)
        by (bit_vector);
}

/// Writing an unsigned 16-bit value and reading it back yields the same value.
pub proof fn lemma_u16_round_trip(v: u16)
    ensures
        u16_from_be(u16_be_bytes(v)[0], u16_be_bytes(v)[1]) == v,
{
    assert((((((v >> 8) as u8) as u16) << 8) | ((v as u8) as u16)) as u16 == v) by (bit_vector);
}

/// The signed reading of two bytes is -1 exactly when both bytes are 0xFF.
pub proof fn lemma_i16_minus_one(hi: u8, lo: u8)
    ensures
        (i16_from_be(hi, lo) == -1) <==> (hi == 0xff && lo == 0xff),
{
    assert(((((hi as u16) << 8) | (lo as u16)) as i16 == -1) <==> (hi == 0xff && lo == 0xff))
        by (bit_vector);
}

/// Appends the single byte of an unsigned 8-bit value to the sink.
pub fn encode_u8(value: u8, dst: &mut Vec<u8>)
    ensures
        final(dst)@ == old(dst)@.push(value),
{
    dst.push(value);
}

/// Reads one byte from the source, advancing the cursor by exactly one;
/// fails only when the source is exhausted, leaving the cursor unmoved.
pub fn decode_u8(src: &Vec<u8>, pos: &mut usize) -> (r: Result<u8, DecodeError>)
    requires
        *old(pos) <= src@.len(),
    ensures
        match r {
            Ok(b) => *old(pos) < src@.len() && b == src@[*old(pos) as int] && *final(pos) == *old(
                pos,
            ) + 1,
            Err(e) => e == DecodeError::StreamFailure && *old(pos) == src@.len() && *final(pos)
                == *old(pos),
        },
{
    if *pos < src.len() {
        let b = src[*pos];
        *pos = *pos + 1;
        Ok(b)
    } else {
        Err(DecodeError::StreamFailure)
    }
}

/// Appends the single byte of a signed 8-bit value (two's complement).
pub fn encode_i8(value: i8, dst: &mut Vec<u8>)
    ensures
        final(dst)@ == old(dst)@.push(value as u8),
{
    dst.push(value as u8);
}

/// Reads one byte as a signed 8-bit value; fails only on an exhausted
/// source, leaving the cursor unmoved.
pub fn decode_i8(src: &Vec<u8>, pos: &mut usize) -> (r: Result<i8, DecodeError>)
    requires
        *old(pos) <= src@.len(),
    ensures
        match r {
            Ok(b) => *old(pos) < src@.len() && b == src@[*old(pos) as int] as i8 && *final(pos)
                == *old(pos) + 1,
            Err(e) => e == DecodeError::StreamFailure && *old(pos) == src@.len() && *final(pos)
                == *old(pos),
        },
{
    match decode_u8(src, pos) {
        Ok(b) => Ok(b as i8),
        Err(e) => Err(e),
    }
}

/// Appends the two big-endian bytes of a signed 16-bit value to the sink.
pub fn encode_i16(value: i16, dst: &mut Vec<u8>)
    ensures
        final(dst)@ == old(dst)@ + i16_be_bytes(value),
{
    let w = value as u16;
    dst.push((w >> 8) as u8);
    dst.push(w as u8);
    assert(final(dst)@ =~= old(dst)@ + i16_be_bytes(value));
}

/// Reads two bytes as a big-endian signed 16-bit value, advancing the
/// cursor by exactly two; fails only when fewer than two bytes remain,
/// leaving the cursor unmoved.
pub fn decode_i16(src: &Vec<u8>, pos: &mut usize) -> (r: Result<i16, DecodeError>)
    requires
        *old(pos) <= src@.len(),
    ensures
        match r {
            Ok(v) => *old(pos) + 2 <= src@.len() && v == i16_from_be(
                src@[*old(pos) as int],
                src@[*old(pos) + 1],
            ) && *final(pos) == *old(pos) + 2,
            Err(e) => e == DecodeError::StreamFailure && src@.len() < *old(pos) + 2 && *final(pos)
                == *old(pos),
        },
{
    if src.len() - *pos >= 2 {
        let hi = src[*pos];
        let lo = src[*pos + 1];
        *pos = *pos + 2;
        Ok((((hi as u16) << 8) | (lo as u16)) as i16)
    } else {
        Err(DecodeError::StreamFailure)
    }
}

} // verus!
