//! Bit layout of an identifier.
//!
//! | bits    | width | content                         |
//! |---------|-------|---------------------------------|
//! | 63 - 24 | 40    | low 40 bits of the timestamp    |
//! | 23 - 12 | 12    | low 12 bits of the call counter |
//! | 11 - 0  | 12    | low 12 bits of the random draw  |

use vstd::prelude::*;

verus! {

/// Number of bits below the timestamp field.
pub const TIMESTAMP_SHIFT: u64 = 24;

/// Number of bits below the sequence field.
pub const SEQUENCE_SHIFT: u64 = 12;

/// Mask that keeps the twelve bits of a sequence or random field.
pub const FIELD_MASK: u16 = 0x0FFF;

/// Number of distinct values of the timestamp field, `2^40`.
pub open spec fn timestamp_span() -> nat {
    0x100_0000_0000
}

/// Number of distinct values of the sequence field and of the random field,
/// `2^12`.
pub open spec fn field_span() -> nat {
    0x1000
}

/// Weight of the timestamp field within an identifier, `2^24`.
pub open spec fn timestamp_unit() -> nat {
    0x100_0000
}

/// The identifier made of a timestamp, a counter value and a random draw:
/// each part reduced to the width of its field, the fields laid side by side.
pub open spec fn id_value(timestamp: nat, sequence: nat, random: nat) -> nat {
    (timestamp % timestamp_span()) * timestamp_unit()
        + (sequence % field_span()) * field_span()
        + random % field_span()
}

/// The timestamp field of an identifier.
pub open spec fn timestamp_of(id: nat) -> nat {
    id / timestamp_unit()
}

/// The sequence field of an identifier.
pub open spec fn sequence_of(id: nat) -> nat {
    (id / field_span()) % field_span()
}

/// The random field of an identifier.
pub open spec fn random_of(id: nat) -> nat {
    id % field_span()
}

/// Packs the three parts into one identifier.
pub fn pack(timestamp: u64, sequence: u16, random: u16) -> (id: u64)
    ensures
        id == (timestamp << 24) | (((sequence & 0x0FFF) as u64) << 12) | ((random & 0x0FFF) as u64),
        id == id_value(timestamp as nat, sequence as nat, random as nat),
{
    let id = timestamp << TIMESTAMP_SHIFT
        | (((sequence & FIELD_MASK) as u64) << SEQUENCE_SHIFT)
        | ((random & FIELD_MASK) as u64);
    assert(id == (timestamp % 0x100_0000_0000) * 0x100_0000
        + ((sequence % 0x1000) as u64) * 0x1000
        + ((random % 0x1000) as u64)) by (bit_vector)
        requires
            id == (timestamp << 24) | (((sequence & 0x0FFF) as u64) << 12) | ((random & 0x0FFF) as u64),
    ;
    id
}

/// Reads the timestamp field of an identifier.
pub fn timestamp_bits(id: u64) -> (timestamp: u64)
    ensures
        timestamp == id >> 24,
        timestamp == timestamp_of(id as nat),
{
    let timestamp = id >> TIMESTAMP_SHIFT;
    assert(timestamp == id / 0x100_0000) by (bit_vector)
        requires
            timestamp == id >> 24,
    ;
    timestamp
}

/// Reads the sequence field of an identifier.
pub fn sequence_bits(id: u64) -> (sequence: u16)
    ensures
        sequence == (id >> 12) & 0x0FFF,
        sequence == sequence_of(id as nat),
{
    let field = (id >> SEQUENCE_SHIFT) & 0x0FFF;
    assert(field == (id / 0x1000) % 0x1000 && field < 0x1000) by (bit_vector)
        requires
            field == (id >> 12) & 0x0FFF,
    ;
    field as u16
}

/// Reads the random field of an identifier.
pub fn random_bits(id: u64) -> (random: u16)
    ensures
        random == id & 0x0FFF,
        random == random_of(id as nat),
{
    let field = id & 0x0FFF;
    assert(field == id % 0x1000 && field < 0x1000) by (bit_vector)
        requires
            field == id & 0x0FFF,
    ;
    field as u16
}

/// An identifier fits in 64 bits, whatever it is made of.
pub proof fn lemma_id_value_fits(timestamp: nat, sequence: nat, random: nat)
    ensures
        id_value(timestamp, sequence, random) <= u64::MAX,
{
}

/// Each field of an identifier holds the part it was made of, reduced to the
/// field's width.
pub proof fn lemma_fields_of_id_value(timestamp: nat, sequence: nat, random: nat)
    ensures
        timestamp_of(id_value(timestamp, sequence, random)) == timestamp % timestamp_span(),
        sequence_of(id_value(timestamp, sequence, random)) == sequence % field_span(),
        random_of(id_value(timestamp, sequence, random)) == random % field_span(),
{
}

/// Packing the three fields of an identifier gives the identifier back.
pub proof fn lemma_id_value_of_fields(id: nat)
    requires
        id <= u64::MAX,
    ensures
        id_value(timestamp_of(id), sequence_of(id), random_of(id)) == id,
{
}

} // verus!
