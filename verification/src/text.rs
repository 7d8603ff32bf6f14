//! Renders flags, registers and the processor as text.

use vstd::prelude::*;
use crate::cpu::Cpu;
use crate::memory::Memory;
use crate::registers::{Flag, FlagIndexError, Flags, Registers};

verus! {

/// The digit `digit` of a number in base 16, with capital letters.
pub open spec fn digit_text(digit: int) -> Seq<char> {
    if digit == 0 {
        "0"@
    } else if digit == 1 {
        "1"@
    } else if digit == 2 {
        "2"@
    } else if digit == 3 {
        "3"@
    } else if digit == 4 {
        "4"@
    } else if digit == 5 {
        "5"@
    } else if digit == 6 {
        "6"@
    } else if digit == 7 {
        "7"@
    } else if digit == 8 {
        "8"@
    } else if digit == 9 {
        "9"@
    } else if digit == 10 {
        "A"@
    } else if digit == 11 {
        "B"@
    } else if digit == 12 {
        "C"@
    } else if digit == 13 {
        "D"@
    } else if digit == 14 {
        "E"@
    } else {
        "F"@
    }
}

/// A byte as two hexadecimal digits.
pub open spec fn hex_byte_text(value: u8) -> Seq<char> {
    digit_text(value as int / 16) + digit_text(value as int % 16)
}

/// A word as four hexadecimal digits.
pub open spec fn hex_word_text(value: u16) -> Seq<char> {
    hex_byte_text((value / 256) as u8) + hex_byte_text((value % 256) as u8)
}

/// A number in decimal, without leading zeros.
pub open spec fn decimal_text(value: nat) -> Seq<char>
    decreases value,
{
    if value < 10 {
        digit_text(value as int)
    } else {
        decimal_text(value / 10) + digit_text(value as int % 10)
    }
}

/// `true` or `false`.
pub open spec fn bool_text(value: bool) -> Seq<char> {
    if value {
        "true"@
    } else {
        "false"@
    }
}

/// `text` followed by as many spaces as it lacks to `width` characters.
pub open spec fn padded_text(text: Seq<char>, width: nat) -> Seq<char> {
    if text.len() >= width {
        text
    } else {
        text + Seq::new((width - text.len()) as nat, |at: int| ' ')
    }
}

/// What `indent::indent_all_by` returns for `number_of_spaces` and `input`:
/// `input` with every line that is not empty moved right by that many
/// spaces.
pub uninterp spec fn indented_all_by(number_of_spaces: int, input: Seq<char>) -> Seq<char>;

/// The line that shows one flag: its name in a column of 16 characters and
/// whether it is set.
pub open spec fn flag_line_text(flags: Flags, flag: Flag) -> Seq<char> {
    padded_text(flag.name_text(), 16) + " = "@ + bool_text(flags.is_set(flag)) + "\n"@
}

/// The seven flags, one on each line, from Negative down to Carry.
pub open spec fn flags_text(flags: Flags) -> Seq<char> {
    flag_line_text(flags, Flag::Negative) + flag_line_text(flags, Flag::Overflow) + flag_line_text(
        flags,
        Flag::Break,
    ) + flag_line_text(flags, Flag::Decimal) + flag_line_text(flags, Flag::InterruptDisable)
        + flag_line_text(flags, Flag::Zero) + flag_line_text(flags, Flag::Carry)
}

/// The line that shows one 8-bit register in hexadecimal and in decimal.
pub open spec fn byte_line_text(label: Seq<char>, value: u8, middle: Seq<char>, end: Seq<char>)
    -> Seq<char> {
    label + hex_byte_text(value) + middle + decimal_text(value as nat) + end
}

/// The registers, one on each line, and below them the flags, moved right
/// by four spaces.
pub open spec fn registers_text(registers: Registers) -> Seq<char> {
    "Registers:\n"@ + byte_line_text("    X   = 0x"@, registers.x, "   = "@, " \n"@)
        + byte_line_text("    Y   = 0x"@, registers.y, "   = "@, "\n"@) + ("    PC  = 0x"@
        + hex_word_text(registers.pc) + " = "@ + decimal_text(registers.pc as nat) + "\n"@)
        + byte_line_text("    SP  = 0x"@, registers.sp, " = "@, "\n"@) + byte_line_text(
        "    ACC = 0x"@,
        registers.a,
        "   = "@,
        "\n\n"@,
    ) + "Flags:\n"@ + indented_all_by(4, flags_text(registers.flags))
}

/// The cycle counter, and below it the registers, moved right by four
/// spaces.
pub open spec fn cpu_text(cycles: u32, registers: Registers) -> Seq<char> {
    "Cpu:\n"@ + "    cycles = "@ + decimal_text(cycles as nat) + "\n\n"@ + indented_all_by(
        4,
        registers_text(registers),
    )
}

/// Why a bit position names no flag, in words.
pub open spec fn flag_index_error_text(error: FlagIndexError) -> Seq<char> {
    match error {
        FlagIndexError::Unused => "Flagbit 6 is always unused"@,
        FlagIndexError::OutOfRange(value) => decimal_text(value as nat)
            + " is not a valid flagbit index"@,
    }
}

/// A digit is one character.
pub proof fn lemma_digit_length(digit: int)
    ensures
        digit_text(digit).len() == 1,
{
    reveal_strlit("0");
    reveal_strlit("1");
    reveal_strlit("2");
    reveal_strlit("3");
    reveal_strlit("4");
    reveal_strlit("5");
    reveal_strlit("6");
    reveal_strlit("7");
    reveal_strlit("8");
    reveal_strlit("9");
    reveal_strlit("A");
    reveal_strlit("B");
    reveal_strlit("C");
    reveal_strlit("D");
    reveal_strlit("E");
    reveal_strlit("F");
}

/// Ten to the power of `exponent`.
pub open spec fn power_of_ten(exponent: nat) -> nat
    decreases exponent,
{
    if exponent == 0 {
        1
    } else {
        10 * power_of_ten((exponent - 1) as nat)
    }
}

/// A number below ten to the power of `digits` has at most `digits` decimal
/// digits, and at least one.
pub proof fn lemma_decimal_length(value: nat, digits: nat)
    requires
        digits >= 1,
        value < power_of_ten(digits),
    ensures
        1 <= decimal_text(value).len() <= digits,
    decreases value,
{
    lemma_digit_length(value as int);
    lemma_digit_length(value as int % 10);
    reveal_with_fuel(power_of_ten, 2);
    if value >= 10 {
        lemma_decimal_length(value / 10, (digits - 1) as nat);
    }
}

/// A byte has at most three decimal digits, a 16-bit word at most five, a
/// 32-bit word at most ten.
pub proof fn lemma_decimal_length_of_words(value: nat)
    ensures
        1 <= decimal_text(value).len(),
        value < 0x100 ==> decimal_text(value).len() <= 3,
        value < 0x1_0000 ==> decimal_text(value).len() <= 5,
        value < 0x1_0000_0000 ==> decimal_text(value).len() <= 10,
    decreases value,
{
    reveal_with_fuel(power_of_ten, 11);
    if value < 0x100 {
        lemma_decimal_length(value, 3);
    } else if value < 0x1_0000 {
        lemma_decimal_length(value, 5);
    } else if value < 0x1_0000_0000 {
        lemma_decimal_length(value, 10);
    } else {
        lemma_digit_length(value as int);
        lemma_digit_length(value as int % 10);
        if value >= 10 {
            lemma_decimal_length_of_words(value / 10);
        }
    }
}

/// The flags take seven lines of 24 or 25 characters.
pub proof fn lemma_flags_text_length(flags: Flags)
    ensures
        168 <= flags_text(flags).len() <= 175,
{
    reveal_strlit("Negative");
    reveal_strlit("Overflow");
    reveal_strlit("Break");
    reveal_strlit("Decimal");
    reveal_strlit("InterruptDisable");
    reveal_strlit("Zero");
    reveal_strlit("Carry");
    reveal_strlit(" = ");
    reveal_strlit("true");
    reveal_strlit("false");
    reveal_strlit("\n");
    assert forall|flag: Flag| 24 <= #[trigger] flag_line_text(flags, flag).len() <= 25 by {
        assert(padded_text(flag.name_text(), 16).len() == 16);
    }
}

/// The registers take at most 1024 characters when the indented flags take
/// no more than five times what the flags take.
proof fn lemma_registers_text_length(registers: Registers)
    requires
        indented_all_by(4, flags_text(registers.flags)).len() <= 5 * 175 + 4,
    ensures
        registers_text(registers).len() <= 1024,
{
    reveal_strlit("Registers:\n");
    reveal_strlit("    X   = 0x");
    reveal_strlit("    Y   = 0x");
    reveal_strlit("    PC  = 0x");
    reveal_strlit("    SP  = 0x");
    reveal_strlit("    ACC = 0x");
    reveal_strlit("   = ");
    reveal_strlit(" = ");
    reveal_strlit(" \n");
    reveal_strlit("\n");
    reveal_strlit("\n\n");
    reveal_strlit("Flags:\n");
    lemma_decimal_length_of_words(registers.x as nat);
    lemma_decimal_length_of_words(registers.y as nat);
    lemma_decimal_length_of_words(registers.pc as nat);
    lemma_decimal_length_of_words(registers.sp as nat);
    lemma_decimal_length_of_words(registers.a as nat);
    lemma_hex_length(registers.x);
    lemma_hex_length(registers.y);
    lemma_hex_length(registers.sp);
    lemma_hex_length(registers.a);
    lemma_hex_length((registers.pc / 256) as u8);
    lemma_hex_length((registers.pc % 256) as u8);
}

/// A byte takes two hexadecimal digits.
pub proof fn lemma_hex_length(value: u8)
    ensures
        hex_byte_text(value).len() == 2,
{
    lemma_digit_length(value as int / 16);
    lemma_digit_length(value as int % 16);
}

/// The digit `value` of a number in base 16.
pub fn digit(value: u8) -> (text: &'static str)
    requires
        value < 16,
    ensures
        text@ == digit_text(value as int),
{
    match value {
        0 => "0",
        1 => "1",
        2 => "2",
        3 => "3",
        4 => "4",
        5 => "5",
        6 => "6",
        7 => "7",
        8 => "8",
        9 => "9",
        10 => "A",
        11 => "B",
        12 => "C",
        13 => "D",
        14 => "E",
        _ => "F",
    }
}

/// Writes a byte as two hexadecimal digits.
pub fn hex_byte(value: u8) -> (text: String)
    ensures
        text@ == hex_byte_text(value),
{
    let mut text: String = String::from_str(digit(value / 16));
    text.append(digit(value % 16));
    text
}

/// Writes a word as four hexadecimal digits.
pub fn hex_word(value: u16) -> (text: String)
    ensures
        text@ == hex_word_text(value),
{
    let mut text: String = hex_byte((value / 256) as u8);
    let low: String = hex_byte((value % 256) as u8);
    text.append(low.as_str());
    text
}

/// Writes a number in decimal, without leading zeros.
pub fn decimal(value: u32) -> (text: String)
    ensures
        text@ == decimal_text(value as nat),
    decreases value,
{
    if value < 10 {
        String::from_str(digit(value as u8))
    } else {
        let mut text: String = decimal(value / 10);
        text.append(digit((value % 10) as u8));
        text
    }
}

/// Writes `text` and fills it with spaces up to `width` characters.
pub fn pad_right(text: &str, width: usize) -> (padded: String)
    ensures
        padded@ == padded_text(text@, width as nat),
{
    let mut padded: String = String::from_str(text);
    let length: usize = text.unicode_len();
    if length >= width {
        return padded;
    }
    let mut filled: usize = length;
    while filled < width
        invariant
            length <= filled <= width,
            length == text@.len(),
            padded@ == text@ + Seq::new((filled - length) as nat, |at: int| ' '),
        decreases width - filled,
    {
        padded.append(" ");
        proof {
            reveal_strlit(" ");
        }
        assert(padded@ =~= text@ + Seq::new((filled + 1 - length) as nat, |at: int| ' '));
        filled = filled + 1;
    }
    padded
}

/// Calls `indent::indent_all_by`, which puts `number_of_spaces` spaces in
/// front of every line of `input` that is not empty. The contract names the
/// result and bounds its length: the function writes each character of the
/// input at most once and the spaces at most once for each line, and the
/// input has at most one line more than it has characters.
#[verifier::external_body]
fn indent_all_by(number_of_spaces: usize, input: &str) -> (output: String)
    requires
        number_of_spaces <= 64,
        input@.len() <= 0x10000,
    ensures
        output@ == indented_all_by(number_of_spaces as int, input@),
        output@.len() <= input@.len() + number_of_spaces * (input@.len() + 1),
{
    indent::indent_all_by(number_of_spaces, input)
}

impl FlagIndexError {
    /// Says in words why the bit position names no flag.
    pub fn message(&self) -> (text: String)
        ensures
            text@ == flag_index_error_text(*self),
    {
        match self {
            FlagIndexError::Unused => String::from_str("Flagbit 6 is always unused"),
            FlagIndexError::OutOfRange(value) => {
                let mut text: String = decimal(*value as u32);
                text.append(" is not a valid flagbit index");
                text
            },
        }
    }
}

impl Flags {
    /// Writes the line that shows `flag`.
    pub fn flag_line(&self, flag: Flag) -> (text: String)
        ensures
            text@ == flag_line_text(*self, flag),
    {
        let mut text: String = pad_right(flag.name(), 16);
        text.append(" = ");
        text.append(if self.get(flag) {
            "true"
        } else {
            "false"
        });
        text.append("\n");
        text
    }

    /// Writes the seven flags, one on each line, from Negative down to
    /// Carry.
    pub fn to_text(&self) -> (text: String)
        ensures
            text@ == flags_text(*self),
    {
        let mut text: String = self.flag_line(Flag::Negative);
        text.append(self.flag_line(Flag::Overflow).as_str());
        text.append(self.flag_line(Flag::Break).as_str());
        text.append(self.flag_line(Flag::Decimal).as_str());
        text.append(self.flag_line(Flag::InterruptDisable).as_str());
        text.append(self.flag_line(Flag::Zero).as_str());
        text.append(self.flag_line(Flag::Carry).as_str());
        text
    }
}

/// Writes the line that shows one 8-bit register.
pub fn byte_line(label: &str, value: u8, middle: &str, end: &str) -> (text: String)
    ensures
        text@ == byte_line_text(label@, value, middle@, end@),
{
    let mut text: String = String::from_str(label);
    text.append(hex_byte(value).as_str());
    text.append(middle);
    text.append(decimal(value as u32).as_str());
    text.append(end);
    text
}

impl Registers {
    /// Writes the registers, one on each line, and below them the flags,
    /// moved right by four spaces.
    pub fn to_text(&self) -> (text: String)
        ensures
            text@ == registers_text(*self),
            text@.len() <= 1024,
    {
        let mut text: String = String::from_str("Registers:\n");
        text.append(byte_line("    X   = 0x", self.x, "   = ", " \n").as_str());
        text.append(byte_line("    Y   = 0x", self.y, "   = ", "\n").as_str());
        let mut counter: String = String::from_str("    PC  = 0x");
        counter.append(hex_word(self.pc).as_str());
        counter.append(" = ");
        counter.append(decimal(self.pc as u32).as_str());
        counter.append("\n");
        text.append(counter.as_str());
        text.append(byte_line("    SP  = 0x", self.sp, " = ", "\n").as_str());
        text.append(byte_line("    ACC = 0x", self.a, "   = ", "\n\n").as_str());
        text.append("Flags:\n");
        let flags: String = self.flags.to_text();
        proof {
            lemma_flags_text_length(self.flags);
        }
        let indented: String = indent_all_by(4, flags.as_str());
        text.append(indented.as_str());
        proof {
            lemma_registers_text_length(*self);
        }
        text
    }
}

impl<M: Memory> Cpu<M> {
    /// Writes the cycle counter, and below it the registers, moved right
    /// by four spaces.
    pub fn to_text(&self) -> (text: String)
        ensures
            text@ == cpu_text(self.cycles, self.registers),
    {
        let mut text: String = String::from_str("Cpu:\n");
        text.append("    cycles = ");
        text.append(decimal(self.cycles).as_str());
        text.append("\n\n");
        let registers: String = self.registers.to_text();
        let indented: String = indent_all_by(4, registers.as_str());
        text.append(indented.as_str());
        text
    }
}

} // verus!
