//! Generic codec adapter for closed enumerated types.
//!
//! A protocol enum is wire-coded as a single discriminant byte. Instead of
//! repeating the codec for every such type, each type supplies its
//! variant/discriminant table once, as an implementation of [`WireEnum`],
//! and the adapter lifts the one-byte primitive codec into a codec for the
//! type. Decoding validates: a byte with no matching variant is rejected
//! with [`DecodeError::InvalidDiscriminant`], never mapped to an arbitrary
//! variant.

use vstd::prelude::*;
use crate::codec::{decode_u8, encode_u8, DecodeError};

verus! {

/// The variant/discriminant table of a closed enumerated type whose wire
/// form is one discriminant byte. A signed discriminant is represented by
/// its two's-complement byte.
///
/// The two spec functions must be exact inverses: the bijection is owed by
/// every implementation through [`WireEnum::lemma_round_trip`] and
/// [`WireEnum::lemma_from_inverse`], and is what makes every byte that
/// `proto_encode` writes acceptable to `proto_decode`.
pub trait WireEnum: Sized + Copy {
    /// The discriminant byte of this variant.
    spec fn wire_byte(self) -> u8;

    /// The variant a discriminant byte names, if any.
    spec fn from_wire_byte(b: u8) -> Option<Self>;

    /// Every variant's discriminant maps back to that variant.
    proof fn lemma_round_trip(self)
        ensures
            Self::from_wire_byte(self.wire_byte()) == Some(self),
    ;

    /// Every byte that names a variant is that variant's discriminant.
    proof fn lemma_from_inverse(b: u8)
        ensures
            match Self::from_wire_byte(b) {
                Some(v) => v.wire_byte() == b,
                None => true,
            },
    ;

    /// Computes the discriminant byte.
    fn to_wire_byte(self) -> (b: u8)
        ensures
            b == self.wire_byte(),
    ;

    /// Looks a discriminant byte up in the table.
    fn of_wire_byte(b: u8) -> (r: Option<Self>)
        ensures
            r == Self::from_wire_byte(b),
    ;
}

/// The wire length of an enumerated value: that of the underlying
/// primitive, one byte, whichever the variant.
pub fn proto_len<T: WireEnum>(value: &T) -> (n: usize)
    ensures
        n == 1,
{
    1
}

/// Appends the variant's discriminant byte to the sink.
pub fn proto_encode<T: WireEnum>(value: &T, dst: &mut Vec<u8>)
    ensures
        final(dst)@ == old(dst)@.push((*value).wire_byte()),
{
    let b = (*value).to_wire_byte();
    encode_u8(b, dst);
}

/// Reads one discriminant byte and looks it up in the type's table.
///
/// Exactly one of three outcomes holds: the source was exhausted
/// (`StreamFailure`, cursor unmoved); the byte names no variant
/// (`InvalidDiscriminant`, cursor advanced by exactly the one-byte width);
/// or the byte's variant is returned, with the cursor advanced by one.
pub fn proto_decode<T: WireEnum>(src: &Vec<u8>, pos: &mut usize) -> (r: Result<T, DecodeError>)
    requires
        *old(pos) <= src@.len(),
    ensures
        match r {
            Ok(v) => *old(pos) < src@.len() && T::from_wire_byte(src@[*old(pos) as int]) == Some(v)
                && *final(pos) == *old(pos) + 1,
            Err(e) => match e {
                DecodeError::StreamFailure => *old(pos) == src@.len() && *final(pos) == *old(pos),
                DecodeError::InvalidDiscriminant => *old(pos) < src@.len() && T::from_wire_byte(
                    src@[*old(pos) as int],
                ) is None && *final(pos) == *old(pos) + 1,
            },
        },
{
    let b = match decode_u8(src, pos) {
        Ok(b) => b,
        Err(e) => {
            return Err(e);
        },
    };
    match T::of_wire_byte(b) {
        Some(v) => Ok(v),
        None => Err(DecodeError::InvalidDiscriminant),
    }
}

/// Round-trip law: for every variant of an enumerated wire type, decoding
/// the discriminant byte that `proto_encode` writes yields that same
/// variant back.
pub proof fn lemma_enum_round_trip<T: WireEnum>(v: T)
    ensures
        T::from_wire_byte(v.wire_byte()) == Some(v),
{
    v.lemma_round_trip();
}

/// The discriminant table is injective: two variants with the same
/// discriminant byte are the same variant, so no decode is ambiguous.
pub proof fn lemma_enum_wire_injective<T: WireEnum>(v1: T, v2: T)
    ensures
        v1.wire_byte() == v2.wire_byte() ==> v1 == v2,
{
    v1.lemma_round_trip();
    v2.lemma_round_trip();
}

/// The other direction of the bijection: re-encoding any variant that
/// `proto_decode` accepted reproduces the very byte it was decoded from.
pub proof fn lemma_enum_decode_inverse<T: WireEnum>(b: u8)
    ensures
        match T::from_wire_byte(b) {
            Some(v) => v.wire_byte() == b,
            None => true,
        },
{
    T::lemma_from_inverse(b);
}

} // verus!
