//! Helpers on the bits of a byte and on little-endian words.

use vstd::prelude::*;

verus! {

/// Whether bit `index` of `value` is set. Bit 0 is the least significant.
pub open spec fn bit_of(value: u8, index: u8) -> bool {
    (value >> index) & 1 == 1
}

/// `value` with bit `index` forced to `bit` and every other bit kept.
pub open spec fn with_bit(value: u8, index: u8, bit: bool) -> u8 {
    if bit {
        value | (1u8 << index)
    } else {
        value & !(1u8 << index)
    }
}

/// `value` with bit `index` inverted and every other bit kept.
pub open spec fn with_bit_flipped(value: u8, index: u8) -> u8 {
    value ^ (1u8 << index)
}

/// The signed number that a byte stands for in two's complement.
pub open spec fn signed_of(value: u8) -> int {
    if value < 128 {
        value as int
    } else {
        value as int - 256
    }
}

/// The 16-bit word whose low byte is `low` and whose high byte is `high`.
pub open spec fn word_of(low: u8, high: u8) -> u16 {
    (low as int + 256 * (high as int)) as u16
}

/// The low byte of a word.
pub open spec fn low_byte_of(word: u16) -> u8 {
    (word as int % 256) as u8
}

/// The high byte of a word.
pub open spec fn high_byte_of(word: u16) -> u8 {
    (word as int / 256) as u8
}

/// Reading a bit back after forcing a bit: the forced bit reads as it was
/// set, every other bit reads as before.
pub proof fn lemma_with_bit(value: u8, index: u8, bit: bool, other: u8)
    requires
        index < 8,
        other < 8,
    ensures
        bit_of(with_bit(value, index, bit), other) == (if other == index {
            bit
        } else {
            bit_of(value, other)
        }),
{
    let set = value | (1u8 << index);
    let cleared = value & !(1u8 << index);
    assert(((set >> other) & 1 == 1) == (other == index || (value >> other) & 1 == 1))
        by (bit_vector)
        requires
            index < 8,
            other < 8,
            set == value | (1u8 << index),
    ;
    assert(((cleared >> other) & 1 == 1) == (other != index && (value >> other) & 1 == 1))
        by (bit_vector)
        requires
            index < 8,
            other < 8,
            cleared == value & !(1u8 << index),
    ;
}

/// Forcing a bit to the value it already has changes nothing.
pub proof fn lemma_with_bit_same(value: u8, index: u8)
    requires
        index < 8,
    ensures
        with_bit(value, index, bit_of(value, index)) == value,
{
    assert(((value >> index) & 1 == 1) ==> (value | (1u8 << index)) == value) by (bit_vector)
        requires
            index < 8,
    ;
    assert(!((value >> index) & 1 == 1) ==> (value & !(1u8 << index)) == value) by (bit_vector)
        requires
            index < 8,
    ;
}

/// Flipping a bit inverts that bit and keeps every other.
pub proof fn lemma_with_bit_flipped(value: u8, index: u8, other: u8)
    requires
        index < 8,
        other < 8,
    ensures
        bit_of(with_bit_flipped(value, index), other) == (if other == index {
            !bit_of(value, other)
        } else {
            bit_of(value, other)
        }),
{
    let flipped = value ^ (1u8 << index);
    assert(((flipped >> other) & 1 == 1) == (if other == index {
        !((value >> other) & 1 == 1)
    } else {
        (value >> other) & 1 == 1
    })) by (bit_vector)
        requires
            index < 8,
            other < 8,
            flipped == value ^ (1u8 << index),
    ;
}

/// A word is made of its two bytes, and the bytes of a word made of two
/// bytes are those bytes.
pub proof fn lemma_word_bytes(low: u8, high: u8, word: u16)
    ensures
        low_byte_of(word_of(low, high)) == low,
        high_byte_of(word_of(low, high)) == high,
        word_of(low_byte_of(word), high_byte_of(word)) == word,
{
}

/// Reads bit `index` of `value`.
pub fn get_bit(value: u8, index: u8) -> (set: bool)
    requires
        index < 8,
    ensures
        set == bit_of(value, index),
{
    let mask: u8 = 1u8 << index;
    assert(((value & (1u8 << index)) == (1u8 << index)) == ((value >> index) & 1 == 1))
        by (bit_vector)
        requires
            index < 8,
    ;
    value & mask == mask
}

/// Inverts bit `index` of `value`.
pub fn toggle_bit(value: u8, index: u8) -> (toggled: u8)
    requires
        index < 8,
    ensures
        toggled == with_bit_flipped(value, index),
        forall|other: u8|
            other < 8 ==> #[trigger] bit_of(toggled, other) == (if other == index {
                !bit_of(value, other)
            } else {
                bit_of(value, other)
            }),
{
    let toggled: u8 = value ^ (1u8 << index);
    assert forall|other: u8| other < 8 implies #[trigger] bit_of(toggled, other) == (if other
        == index {
        !bit_of(value, other)
    } else {
        bit_of(value, other)
    }) by {
        lemma_with_bit_flipped(value, index, other);
    }
    toggled
}

/// Forces bit `index` of `value` to `value_at_index`. A bit that already has
/// the wanted value leaves the byte as it is.
pub fn set_bit(value: u8, index: u8, value_at_index: bool) -> (updated: u8)
    requires
        index < 8,
    ensures
        updated == with_bit(value, index, value_at_index),
        bit_of(updated, index) == value_at_index,
        forall|other: u8|
            other < 8 && other != index ==> #[trigger] bit_of(updated, other) == bit_of(
                value,
                other,
            ),
        bit_of(value, index) == value_at_index ==> updated == value,
{
    let current: bool = get_bit(value, index);
    proof {
        lemma_with_bit_same(value, index);
        assert(bit_of(value, index) != value_at_index ==> with_bit_flipped(value, index)
            == with_bit(value, index, value_at_index)) by {
            assert(((value >> index) & 1 == 1) ==> (value ^ (1u8 << index)) == (value & !(1u8
                << index))) by (bit_vector)
                requires
                    index < 8,
            ;
            assert(!((value >> index) & 1 == 1) ==> (value ^ (1u8 << index)) == (value | (1u8
                << index))) by (bit_vector)
                requires
                    index < 8,
            ;
        }
        assert forall|other: u8| other < 8 implies #[trigger] bit_of(
            with_bit(value, index, value_at_index),
            other,
        ) == (if other == index {
            value_at_index
        } else {
            bit_of(value, other)
        }) by {
            lemma_with_bit(value, index, value_at_index, other);
        }
    }
    if current != value_at_index {
        toggle_bit(value, index)
    } else {
        value
    }
}

/// Reads a byte as a signed 8-bit offset in two's complement.
pub fn from_twos_complement_bits(value: u8) -> (offset: i8)
    ensures
        offset as int == signed_of(value),
{
    if value < 128 {
        value as i8
    } else {
        let shifted: i16 = value as i16 - 256;
        shifted as i8
    }
}

/// Joins two bytes into a little-endian word.
pub fn make_word(low: u8, high: u8) -> (word: u16)
    ensures
        word == word_of(low, high),
{
    low as u16 + 256 * (high as u16)
}

/// The low byte of a word.
pub fn low_byte(word: u16) -> (byte: u8)
    ensures
        byte == low_byte_of(word),
{
    (word % 256) as u8
}

/// The high byte of a word.
pub fn high_byte(word: u16) -> (byte: u8)
    ensures
        byte == high_byte_of(word),
{
    (word / 256) as u8
}

} // verus!
