//! The register file: A, X, Y, PC, SP and the packed status byte.

use vstd::prelude::*;
use crate::util::{bit_of, get_bit, lemma_with_bit, lemma_with_bit_flipped, set_bit, toggle_bit,
    with_bit, with_bit_flipped};

verus! {

/// One of the seven status flags. Bit 5 of the status byte is reserved and
/// has no flag.
#[derive(Debug, Clone, Copy, PartialEq, Eq, Structural)]
pub enum Flag {
    Negative,
    Overflow,
    Break,
    Decimal,
    InterruptDisable,
    Zero,
    Carry,
}

/// Why a bit position names no flag.
#[derive(Debug, Clone, Copy, PartialEq, Eq, Structural)]
pub enum FlagIndexError {
    /// Bit 5 is reserved.
    Unused,
    /// The status byte has eight bits only; the variant holds the position
    /// that was asked for.
    OutOfRange(u8),
}

impl Flag {
    /// The position of the flag in the status byte.
    pub open spec fn bit(self) -> u8 {
        match self {
            Flag::Negative => 7,
            Flag::Overflow => 6,
            Flag::Break => 4,
            Flag::Decimal => 3,
            Flag::InterruptDisable => 2,
            Flag::Zero => 1,
            Flag::Carry => 0,
        }
    }

    /// The position of the flag in the status byte.
    pub fn index(self) -> (index: u8)
        ensures
            index == self.bit(),
            index < 8,
            index != 5,
    {
        match self {
            Flag::Negative => 7,
            Flag::Overflow => 6,
            Flag::Break => 4,
            Flag::Decimal => 3,
            Flag::InterruptDisable => 2,
            Flag::Zero => 1,
            Flag::Carry => 0,
        }
    }

    /// The flag at a bit position of the status byte, if there is one.
    pub fn try_from(value: u8) -> (found: Result<Flag, FlagIndexError>)
        ensures
            value < 8 && value != 5 <==> found is Ok,
            found matches Ok(flag) ==> flag.bit() == value,
            value == 5 <==> found == Err::<Flag, FlagIndexError>(FlagIndexError::Unused),
            value >= 8 <==> found == Err::<Flag, FlagIndexError>(
                FlagIndexError::OutOfRange(value),
            ),
    {
        match value {
            0 => Ok(Flag::Carry),
            1 => Ok(Flag::Zero),
            2 => Ok(Flag::InterruptDisable),
            3 => Ok(Flag::Decimal),
            4 => Ok(Flag::Break),
            5 => Err(FlagIndexError::Unused),
            6 => Ok(Flag::Overflow),
            7 => Ok(Flag::Negative),
            _ => Err(FlagIndexError::OutOfRange(value)),
        }
    }

    /// The name of the flag.
    pub fn name(self) -> (name: &'static str)
        ensures
            name@ == self.name_text(),
    {
        match self {
            Flag::Negative => "Negative",
            Flag::Overflow => "Overflow",
            Flag::Break => "Break",
            Flag::Decimal => "Decimal",
            Flag::InterruptDisable => "InterruptDisable",
            Flag::Zero => "Zero",
            Flag::Carry => "Carry",
        }
    }

    /// The name of the flag, as text.
    pub open spec fn name_text(self) -> Seq<char> {
        match self {
            Flag::Negative => "Negative"@,
            Flag::Overflow => "Overflow"@,
            Flag::Break => "Break"@,
            Flag::Decimal => "Decimal"@,
            Flag::InterruptDisable => "InterruptDisable"@,
            Flag::Zero => "Zero"@,
            Flag::Carry => "Carry"@,
        }
    }
}

/// The packed status byte P: N V - B D I Z C, from bit 7 down to bit 0.
#[derive(Debug, Clone, Copy, PartialEq, Eq, Structural)]
pub struct Flags(pub u8);

impl Flags {
    /// Whether `flag` is set.
    pub open spec fn is_set(self, flag: Flag) -> bool {
        bit_of(self.0, flag.bit())
    }

    /// The status byte with `flag` forced to `value`.
    pub open spec fn with(self, flag: Flag, value: bool) -> Flags {
        Flags(with_bit(self.0, flag.bit(), value))
    }

    /// The status byte with `flag` inverted.
    pub open spec fn flipped(self, flag: Flag) -> Flags {
        Flags(with_bit_flipped(self.0, flag.bit()))
    }

    /// The status byte after an operation whose result is `value`: Zero says
    /// that the result is 0, Negative is bit 7 of the result.
    pub open spec fn with_nz(self, value: u8) -> Flags {
        self.with(Flag::Zero, value == 0).with(Flag::Negative, value >= 0x80)
    }

    /// The status byte of a fresh register file: InterruptDisable and the
    /// reserved bit are set.
    pub open spec fn initial() -> Flags {
        Flags(0b0010_0100)
    }

    /// Reading any flag after forcing one: the forced flag reads as it was
    /// set, every other flag and the reserved bit read as before.
    pub proof fn lemma_with(self, flag: Flag, value: bool)
        ensures
            self.with(flag, value).is_set(flag) == value,
            forall|other: Flag| other != flag ==> #[trigger] self.with(flag, value).is_set(other)
                == self.is_set(other),
            bit_of(self.with(flag, value).0, 5) == bit_of(self.0, 5),
            self.is_set(flag) == value ==> self.with(flag, value) == self,
    {
        lemma_with_bit(self.0, flag.bit(), value, flag.bit());
        lemma_with_bit(self.0, flag.bit(), value, 5);
        crate::util::lemma_with_bit_same(self.0, flag.bit());
        assert forall|other: Flag| other != flag implies #[trigger] self.with(
            flag,
            value,
        ).is_set(other) == self.is_set(other) by {
            lemma_with_bit(self.0, flag.bit(), value, other.bit());
        }
    }

    /// Reading any flag after inverting one.
    pub proof fn lemma_flipped(self, flag: Flag)
        ensures
            self.flipped(flag).is_set(flag) == !self.is_set(flag),
            forall|other: Flag| other != flag ==> #[trigger] self.flipped(flag).is_set(other)
                == self.is_set(other),
            bit_of(self.flipped(flag).0, 5) == bit_of(self.0, 5),
    {
        lemma_with_bit_flipped(self.0, flag.bit(), flag.bit());
        lemma_with_bit_flipped(self.0, flag.bit(), 5);
        assert forall|other: Flag| other != flag implies #[trigger] self.flipped(flag).is_set(
            other,
        ) == self.is_set(other) by {
            lemma_with_bit_flipped(self.0, flag.bit(), other.bit());
        }
    }

    /// A status byte with InterruptDisable and the reserved bit set.
    pub fn new() -> (flags: Flags)
        ensures
            flags == Flags::initial(),
    {
        Flags(0b0010_0100)
    }

    /// Whether `flag` is set.
    pub fn get(&self, flag: Flag) -> (set: bool)
        ensures
            set == self.is_set(flag),
    {
        get_bit(self.0, flag.index())
    }

    /// Forces `flag` to `value`. Every other bit of the byte is kept, and
    /// setting a flag to the value it has leaves the whole byte unchanged.
    pub fn set(&mut self, flag: Flag, value: bool)
        ensures
            *final(self) == old(self).with(flag, value),
            final(self).is_set(flag) == value,
            forall|other: Flag|
                other != flag ==> #[trigger] final(self).is_set(other) == old(self).is_set(other),
            bit_of(final(self).0, 5) == bit_of(old(self).0, 5),
            old(self).is_set(flag) == value ==> *final(self) == *old(self),
    {
        proof {
            self.lemma_with(flag, value);
        }
        self.0 = set_bit(self.0, flag.index(), value);
    }

    /// Inverts `flag`. Every other bit of the byte is kept.
    pub fn toggle(&mut self, flag: Flag)
        ensures
            *final(self) == old(self).flipped(flag),
            final(self).is_set(flag) == !old(self).is_set(flag),
            forall|other: Flag|
                other != flag ==> #[trigger] final(self).is_set(other) == old(self).is_set(other),
            bit_of(final(self).0, 5) == bit_of(old(self).0, 5),
    {
        proof {
            self.lemma_flipped(flag);
        }
        self.0 = toggle_bit(self.0, flag.index());
    }
}

impl Default for Flags {
    fn default() -> (flags: Flags)
        ensures
            flags == Flags::initial(),
    {
        Flags(0b0010_0100)
    }
}

/// The register file.
#[derive(Debug, Clone, Copy, PartialEq, Eq, Structural)]
pub struct Registers {
    /// X index register.
    pub x: u8,
    /// Y index register.
    pub y: u8,
    /// Program counter: the address of the next byte to fetch.
    pub pc: u16,
    /// Stack pointer: the low byte of an address in page one.
    pub sp: u8,
    /// Accumulator.
    pub a: u8,
    /// Status byte.
    pub flags: Flags,
}

impl Registers {
    /// The register file of a fresh processor: A, X, Y and PC are 0, SP is
    /// 0xFF, and the status byte has InterruptDisable and the reserved bit set.
    pub open spec fn initial() -> Registers {
        Registers { x: 0, y: 0, pc: 0, sp: 0xFF, a: 0, flags: Flags::initial() }
    }

    /// A fresh register file.
    pub fn new() -> (registers: Registers)
        ensures
            registers == Registers::initial(),
    {
        Registers { x: 0, y: 0, pc: 0, sp: 0xFF, a: 0, flags: Flags::new() }
    }
}

impl Default for Registers {
    fn default() -> (registers: Registers)
        ensures
            registers == Registers::initial(),
    {
        Registers::new()
    }
}

} // verus!
