//! The optional inventory-slot record and its codec.
//!
//! A slot is optional as a whole. On the wire the whole record is
//! self-describing through its leading signed 16-bit field alone: the
//! sentinel -1 (bytes `FF FF`) means the slot is absent and nothing
//! follows; any other value is the item id of a present slot, followed by
//! count, damage, and either an externally encoded tagged binary blob or
//! the blob format's one-byte absence sentinel, a single zero byte.
//!
//! Decoding is deliberately lenient about the tag: trailing bytes that do
//! not parse as a valid blob make the tag absent instead of failing the
//! whole slot. The id, count and damage fields are still returned exactly.

use vstd::prelude::*;
use vstd::slice::slice_subrange;
use crate::codec::{
    decode_i16,
    decode_u8,
    encode_i16,
    encode_u8,
    i16_be_bytes,
    i16_from_be,
    u16_be_bytes,
    DecodeError,
};

verus! {

/// An inventory item stack. The `id` domain is 0 through 0xFFFE: the wire
/// codes it as a signed 16-bit value whose -1 (that is 0xFFFF) is reserved
/// as the whole record's absence sentinel.
#[derive(Debug, PartialEq)]
pub struct Slot {
    /// The item identifier, wire-coded as a signed 16-bit value.
    pub id: u16,
    /// The stack size.
    pub count: u8,
    /// The item damage value.
    pub damage: i16,
    /// Extra item metadata, an externally encoded tagged binary blob.
    pub tag: Option<nbt::Blob>,
}

#[verifier::external_type_specification]
#[verifier::external_body]
pub struct ExBlob(nbt::Blob);

/// The size in bytes that the blob's own accounting reports for its
/// uncompressed serialized form.
pub uninterp spec fn blob_len_bytes(b: nbt::Blob) -> nat;

/// The number of bytes the blob's writer emits for its uncompressed
/// serialized form. The count is a function of the blob value alone; the
/// bytes themselves are not, since the blob serializes its entries in an
/// unspecified order.
pub uninterp spec fn blob_wire_len(b: nbt::Blob) -> nat;

/// Relies on `nbt::Blob::len_bytes`: the reported uncompressed serialized
/// size, a sum over the blob's entries that no entry order affects.
#[verifier::external_body]
fn blob_len(b: &nbt::Blob) -> (n: usize)
    ensures
        n as nat == blob_len_bytes(*b),
{
    b.len_bytes()
}

/// Relies on `nbt::Blob::to_writer`: it appends the blob's serialized form
/// to the sink and touches nothing before it; into a `Vec` sink its writes
/// cannot fail. How many bytes it appends depends on the blob alone.
#[verifier::external_body]
fn blob_encode(b: &nbt::Blob, dst: &mut Vec<u8>)
    ensures
        final(dst)@.len() == old(dst)@.len() + blob_wire_len(*b),
        final(dst)@.subrange(0, old(dst)@.len() as int) == old(dst)@,
{
    let _ = b.to_writer(dst);
}

/// Relies on `nbt::Blob::from_reader`, read through an in-memory cursor:
/// it consumes bytes from the front of the source only, never past its
/// end, and either parses one blob or fails. The consumed count is
/// returned whichever way the parse went.
#[verifier::external_body]
fn blob_decode(s: &[u8]) -> (r: (Option<nbt::Blob>, usize))
    ensures
        r.1 <= s@.len(),
{
    let mut cur = std::io::Cursor::new(s);
    let parsed = nbt::Blob::from_reader(&mut cur);
    let consumed = cur.position() as usize;
    match parsed {
        Ok(b) => (Some(b), consumed),
        Err(_) => (None, consumed),
    }
}

impl Slot {
    /// A well-formed slot keeps its id inside the codable domain: 0xFFFF
    /// would wire-code as the absence sentinel -1 and could never decode
    /// back as an id.
    pub open spec fn wf(self) -> bool {
        self.id != 0xffff
    }
}

/// The five leading wire bytes of a present slot: id, count, damage, in
/// that fixed order.
pub open spec fn slot_head_bytes(s: Slot) -> Seq<u8> {
    u16_be_bytes(s.id) + seq![s.count] + i16_be_bytes(s.damage)
}

/// The size that `proto_len` reports: 2 for an absent slot; id, count,
/// damage and the tag's reported size, or its one-byte absence sentinel,
/// for a present one.
pub open spec fn slot_len_spec(v: Option<Slot>) -> nat {
    match v {
        None => 2,
        Some(s) => match s.tag {
            None => 6,
            Some(t) => 5 + blob_len_bytes(t),
        },
    }
}

/// The number of bytes `proto_encode` appends for a slot value.
pub open spec fn slot_wire_len(v: Option<Slot>) -> nat {
    match v {
        None => 2,
        Some(s) => match s.tag {
            None => 6,
            Some(t) => 5 + blob_wire_len(t),
        },
    }
}

/// Widens an item id to its signed wire form; never the absence sentinel,
/// because well-formed ids exclude 0xFFFF.
pub fn slot_id_to_wire(id: u16) -> (r: i16)
    requires
        id != 0xffff,
    ensures
        r == id as i16,
        r != -1,
{
    proof {
        assert(id != 0xffff ==> id as i16 != -1) by (bit_vector);
    }
    id as i16
}

/// Narrows a decoded signed wire value to the unsigned id domain; the
/// absence sentinel -1 is not an id.
pub fn slot_id_from_wire(raw: i16) -> (r: Option<u16>)
    ensures
        match r {
            Some(id) => raw != -1 && id == raw as u16 && id != 0xffff,
            None => raw == -1,
        },
{
    proof {
        assert(raw != -1 ==> raw as u16 != 0xffff) by (bit_vector);
    }
    if raw == -1 {
        None
    } else {
        Some(raw as u16)
    }
}

/// The wire size of a slot value, without encoding it.
pub fn proto_len(value: &Option<Slot>) -> (n: usize)
    requires
        *value matches Some(s) && s.tag matches Some(t) ==> blob_len_bytes(t) + 5 <= usize::MAX,
    ensures
        n as nat == slot_len_spec(*value),
{
    match value {
        None => 2,
        Some(slot) => match &slot.tag {
            None => 6,
            Some(t) => {
                let n = blob_len(t);
                5 + n
            },
        },
    }
}

/// The wire size of a slot value, guarded: measures the tag first and
/// reports nothing instead of overflowing when the total cannot be held,
/// so it has no precondition to establish about the tag's size.
pub fn try_proto_len(value: &Option<Slot>) -> (r: Option<usize>)
    ensures
        match r {
            Some(n) => n as nat == slot_len_spec(*value),
            None => slot_len_spec(*value) > usize::MAX,
        },
{
    match value {
        None => Some(2),
        Some(slot) => match &slot.tag {
            None => Some(6),
            Some(t) => {
                let n = blob_len(t);
                if n <= usize::MAX - 5 {
                    Some(5 + n)
                } else {
                    None
                }
            },
        },
    }
}

/// Appends a slot value's wire form to the sink: the two-byte sentinel
/// `FF FF` for an absent slot; id, count, damage and then the tag's blob,
/// or a single zero byte in its place, for a present one.
pub fn proto_encode(value: &Option<Slot>, dst: &mut Vec<u8>)
    requires
        *value matches Some(s) ==> s.wf(),
    ensures
        final(dst)@.len() == old(dst)@.len() + slot_wire_len(*value),
        final(dst)@.subrange(0, old(dst)@.len() as int) == old(dst)@,
        *value is None ==> final(dst)@ == old(dst)@ + seq![0xffu8, 0xffu8],
        *value matches Some(s) ==> final(dst)@.subrange(
            old(dst)@.len() as int,
            old(dst)@.len() as int + 5,
        ) == slot_head_bytes(s),
        *value matches Some(s) ==> (s.tag is None ==> final(dst)@ == old(dst)@ + slot_head_bytes(s)
            + seq![0u8]),
{
    match value {
        None => {
            encode_i16(-1, dst);
            proof {
                assert((-1i16 as u16) >> 8 == 0xffu16 && (-1i16 as u16) as u8 == 0xffu8)
                    by (bit_vector);
                assert(dst@ =~= old(dst)@ + seq![0xffu8, 0xffu8]);
            }
        },
        Some(slot) => {
            let ghost dst0 = dst@;
            let wire_id = slot_id_to_wire(slot.id);
            encode_i16(wire_id, dst);
            proof {
                let sid: u16 = slot.id;
                assert(sid as i16 as u16 == sid) by (bit_vector);
                assert(i16_be_bytes(wire_id) =~= u16_be_bytes(slot.id));
            }
            encode_u8(slot.count, dst);
            encode_i16(slot.damage, dst);
            proof {
                assert(dst@ =~= dst0 + slot_head_bytes(*slot));
            }
            let ghost head = dst@;
            match &slot.tag {
                None => {
                    encode_u8(0, dst);
                    proof {
                        assert(dst@ =~= dst0 + slot_head_bytes(*slot) + seq![0u8]);
                    }
                },
                Some(t) => {
                    blob_encode(t, dst);
                },
            }
            proof {
                let hl = head.len() as int;
                assert(dst@.subrange(0, hl) =~= head);
                assert forall|i: int| 0 <= i < 5 implies dst@[dst0.len() + i] == slot_head_bytes(
                    *slot,
                )[i] by {
                    assert(dst@[dst0.len() + i] == dst@.subrange(0, hl)[dst0.len() + i]);
                    assert(head[dst0.len() + i] == slot_head_bytes(*slot)[i]);
                }
                assert(dst@.subrange(dst0.len() as int, dst0.len() as int + 5) =~= slot_head_bytes(
                    *slot,
                ));
                assert forall|i: int| 0 <= i < dst0.len() implies dst@[i] == dst0[i] by {
                    assert(dst@[i] == dst@.subrange(0, hl)[i]);
                    assert(head[i] == dst0[i]);
                }
                assert(dst@.subrange(0, dst0.len() as int) =~= dst0);
            }
        },
    }
}

/// Reads one slot value from the source. The leading signed 16-bit field
/// decides everything: -1 is the absent slot and decoding stops after its
/// two bytes; any other value is the id of a present slot, whose count and
/// damage follow. The trailing tag is parsed leniently: bytes that do not
/// form a valid blob leave the tag absent instead of failing the slot, so
/// the only error is an exhausted source, and it can strike only before
/// the tag region.
pub fn proto_decode(src: &Vec<u8>, pos: &mut usize) -> (r: Result<Option<Slot>, DecodeError>)
    requires
        *old(pos) <= src@.len(),
    ensures
        match r {
            Ok(ov) => match ov {
                None => *old(pos) + 2 <= src@.len() && i16_from_be(
                    src@[*old(pos) as int],
                    src@[*old(pos) + 1],
                ) == -1 && *final(pos) == *old(pos) + 2,
                Some(slot) => {
                    let raw = i16_from_be(src@[*old(pos) as int], src@[*old(pos) + 1]);
                    *old(pos) + 5 <= src@.len() && raw != -1 && slot.id == raw as u16 && slot.wf()
                        && slot.count == src@[*old(pos) + 2] && slot.damage == i16_from_be(
                        src@[*old(pos) + 3],
                        src@[*old(pos) + 4],
                    ) && *old(pos) + 5 <= *final(pos) <= src@.len()
                },
            },
            Err(e) => e == DecodeError::StreamFailure && (if src@.len() < *old(pos) + 2 {
                *final(pos) == *old(pos)
            } else {
                i16_from_be(src@[*old(pos) as int], src@[*old(pos) + 1]) != -1 && src@.len()
                    < *old(pos) + 5 && (if src@.len() < *old(pos) + 3 {
                    *final(pos) == *old(pos) + 2
                } else {
                    *final(pos) == *old(pos) + 3
                })
            }),
        },
{
    let raw = match decode_i16(src, pos) {
        Ok(v) => v,
        Err(e) => {
            return Err(e);
        },
    };
    let id = match slot_id_from_wire(raw) {
        None => {
            return Ok(None);
        },
        Some(id) => id,
    };
    let count = match decode_u8(src, pos) {
        Ok(v) => v,
        Err(e) => {
            return Err(e);
        },
    };
    let damage = match decode_i16(src, pos) {
        Ok(v) => v,
        Err(e) => {
            return Err(e);
        },
    };
    let rest = slice_subrange(src.as_slice(), *pos, src.len());
    let (tag, consumed) = blob_decode(rest);
    *pos = *pos + consumed;
    Ok(Some(Slot { id, count, damage, tag }))
}

/// Presence round-trip: the five head bytes that `proto_encode` writes for
/// a well-formed present slot read back, under `proto_decode`'s contract,
/// as the same id, count and damage — never as the absence sentinel.
pub proof fn lemma_slot_head_round_trip(s: Slot)
    requires
        s.wf(),
    ensures
        ({
            let bytes = slot_head_bytes(s);
            &&& i16_from_be(bytes[0], bytes[1]) != -1
            &&& i16_from_be(bytes[0], bytes[1]) as u16 == s.id
            &&& bytes[2] == s.count
            &&& i16_from_be(bytes[3], bytes[4]) == s.damage
        }),
{
    let bytes = slot_head_bytes(s);
    assert(bytes[0] == u16_be_bytes(s.id)[0] && bytes[1] == u16_be_bytes(s.id)[1]);
    assert(bytes[3] == i16_be_bytes(s.damage)[0] && bytes[4] == i16_be_bytes(s.damage)[1]);
    crate::codec::lemma_u16_round_trip(s.id);
    crate::codec::lemma_i16_round_trip(s.damage);
    let sid: u16 = s.id;
    assert(sid != 0xffff ==> sid as i16 != -1) by (bit_vector);
    assert(sid as i16 as u16 == sid) by (bit_vector);
}

/// Length consistency: the size that `proto_len` reports equals the number
/// of bytes `proto_encode` appends. For a slot carrying a tag this needs
/// the tag's reported serialized size to match what its writer emits; the
/// blob's accounting counts its strings in their in-memory form, so the
/// two can drift apart on a tag holding text outside the basic plane.
pub proof fn lemma_slot_length_consistency(v: Option<Slot>)
    requires
        v matches Some(s) && s.tag matches Some(t) ==> blob_len_bytes(t) == blob_wire_len(t),
    ensures
        slot_len_spec(v) == slot_wire_len(v),
{
}

} // verus!
