//! The arithmetic of the processor on plain bytes: addition and subtraction
//! in binary and in decimal mode, shifts, rotations and comparison.

use vstd::prelude::*;

verus! {

/// What an addition or a subtraction leaves: the new accumulator, the carry
/// flag and the overflow flag.
#[derive(Debug, Clone, Copy, PartialEq, Eq, Structural)]
pub struct Sum {
    pub value: u8,
    pub carry: bool,
    pub overflow: bool,
}

/// What a shift or a rotation leaves: the new byte and the carry flag.
#[derive(Debug, Clone, Copy, PartialEq, Eq, Structural)]
pub struct Shifted {
    pub value: u8,
    pub carry: bool,
}

/// What a comparison leaves in the carry, zero and negative flags.
#[derive(Debug, Clone, Copy, PartialEq, Eq, Structural)]
pub struct Comparison {
    pub carry: bool,
    pub zero: bool,
    pub negative: bool,
}

/// 1 for a set carry, 0 for a clear one.
pub open spec fn carry_value(carry: bool) -> int {
    if carry {
        1
    } else {
        0
    }
}

/// The overflow predicate: both operands have the sign that the result does
/// not have.
pub open spec fn sign_overflow(left: u8, right: u8, result: u8) -> bool {
    ((left ^ result) & (right ^ result) & 0x80) != 0
}

/// Binary addition with carry: the sum modulo 256, a carry when the sum
/// exceeds 255, and the overflow predicate on the operands and the result.
pub open spec fn add_binary_result(left: u8, right: u8, carry: bool) -> Sum {
    let sum = left + right + carry_value(carry);
    let value = (sum % 256) as u8;
    Sum { value, carry: sum > 255, overflow: sign_overflow(left, right, value) }
}

/// Binary subtraction with borrow: the addition of the complement of
/// `right`. A clear carry borrows one.
pub open spec fn subtract_binary_result(left: u8, right: u8, carry: bool) -> Sum {
    add_binary_result(left, (255 - right) as u8, carry)
}

/// Whether both digits of a byte are decimal digits.
pub open spec fn is_bcd(value: u8) -> bool {
    value % 16 < 10 && value / 16 < 10
}

/// The number from 0 to 99 that a byte with two decimal digits stands for.
pub open spec fn bcd_value(value: u8) -> int {
    10 * (value / 16) + value % 16
}

/// A digit sum brought back into one digit: ten or more gives the digit of
/// the sum less ten, in four bits.
pub open spec fn add_adjusted(digit_sum: int) -> int {
    if digit_sum >= 10 {
        (digit_sum + 6) % 16
    } else {
        digit_sum
    }
}

/// A digit difference brought back into one digit: a negative one gives
/// the digit of the difference plus ten, in four bits.
pub open spec fn subtract_adjusted(digit_difference: int) -> int {
    if digit_difference < 0 {
        (digit_difference - 6) % 16
    } else {
        digit_difference
    }
}

/// Decimal addition with carry, digit by digit. The low digits are added
/// with the carry; a sum of ten or more is corrected by six and carries into
/// the high digits, which are treated alike. The overflow flag is that of
/// the binary addition of the same operands.
pub open spec fn add_decimal_result(left: u8, right: u8, carry: bool) -> Sum {
    let low = left % 16 + right % 16 + carry_value(carry);
    let high = left / 16 + right / 16 + (if low >= 10 {
        1int
    } else {
        0int
    });
    Sum {
        value: (16 * add_adjusted(high) + add_adjusted(low)) as u8,
        carry: high >= 10,
        overflow: add_binary_result(left, right, carry).overflow,
    }
}

/// Decimal subtraction with borrow, digit by digit. A clear carry borrows
/// one from the low digits; a negative difference is corrected by six and
/// borrows from the high digits, which are treated alike. The carry is
/// clear when the high digits borrow. The overflow flag is that of the
/// binary subtraction of the same operands.
pub open spec fn subtract_decimal_result(left: u8, right: u8, carry: bool) -> Sum {
    let low = left % 16 - right % 16 - (1 - carry_value(carry));
    let high = left / 16 - right / 16 - (if low < 0 {
        1int
    } else {
        0int
    });
    Sum {
        value: (16 * subtract_adjusted(high) + subtract_adjusted(low)) as u8,
        carry: high >= 0,
        overflow: subtract_binary_result(left, right, carry).overflow,
    }
}

/// Shift left: bit 7 goes to the carry, bit 0 becomes 0.
pub open spec fn shift_left_result(value: u8) -> Shifted {
    Shifted { value: ((2 * value) % 256) as u8, carry: value >= 128 }
}

/// Shift right: bit 0 goes to the carry, bit 7 becomes 0.
pub open spec fn shift_right_result(value: u8) -> Shifted {
    Shifted { value: (value / 2) as u8, carry: value % 2 == 1 }
}

/// Rotate left: bit 7 goes to the carry, the old carry becomes bit 0.
pub open spec fn rotate_left_result(value: u8, carry: bool) -> Shifted {
    Shifted { value: ((2 * value) % 256 + carry_value(carry)) as u8, carry: value >= 128 }
}

/// Rotate right: bit 0 goes to the carry, the old carry becomes bit 7.
pub open spec fn rotate_right_result(value: u8, carry: bool) -> Shifted {
    Shifted { value: (value / 2 + 128 * carry_value(carry)) as u8, carry: value % 2 == 1 }
}

/// Comparison of a register with an operand: carry when the register is not
/// below the operand, zero when they are equal, negative from bit 7 of the
/// difference modulo 256.
pub open spec fn compare_result(register: u8, operand: u8) -> Comparison {
    Comparison {
        carry: register >= operand,
        zero: register == operand,
        negative: (register - operand) % 256 >= 128,
    }
}

/// The overflow flag of a binary addition says that the sum of the operands
/// read as signed numbers does not fit in a signed byte.
pub proof fn lemma_overflow_is_signed_overflow(left: u8, right: u8, carry: bool)
    ensures
        add_binary_result(left, right, carry).overflow <==> {
            let signed_sum = crate::util::signed_of(left) + crate::util::signed_of(right)
                + carry_value(carry);
            signed_sum < -128 || signed_sum > 127
        },
{
    let value = add_binary_result(left, right, carry).value;
    assert((((left ^ value) & (right ^ value) & 0x80) != 0) <==> ((left >= 128) == (right >= 128)
        && (value >= 128) != (left >= 128))) by (bit_vector);
}

/// On operands with decimal digits, decimal addition is addition of the
/// numbers they stand for: the result stands for the sum modulo 100, and the
/// carry says that the sum reached 100.
pub proof fn lemma_add_decimal(left: u8, right: u8, carry: bool)
    requires
        is_bcd(left),
        is_bcd(right),
    ensures
        is_bcd(add_decimal_result(left, right, carry).value),
        bcd_value(add_decimal_result(left, right, carry).value) == (bcd_value(left) + bcd_value(
            right,
        ) + carry_value(carry)) % 100,
        add_decimal_result(left, right, carry).carry <==> bcd_value(left) + bcd_value(right)
            + carry_value(carry) >= 100,
{
    let low = left % 16 + right % 16 + carry_value(carry);
    let carried: int = if low >= 10 {
        1
    } else {
        0
    };
    let high = left / 16 + right / 16 + carried;
    let low_digit = add_adjusted(low);
    let high_digit = add_adjusted(high);
    assert(low_digit == low - 10 * carried);
    assert(high >= 10 ==> high_digit == high - 10);
    assert(0 <= low_digit < 10 && 0 <= high_digit < 10);
    let value = add_decimal_result(left, right, carry).value;
    assert(value == 16 * high_digit + low_digit);
    assert(value % 16 == low_digit && value / 16 == high_digit);
}

/// On operands with decimal digits, decimal subtraction is subtraction of
/// the numbers they stand for: the result stands for the difference modulo
/// 100, and the carry is clear when the difference is negative.
pub proof fn lemma_subtract_decimal(left: u8, right: u8, carry: bool)
    requires
        is_bcd(left),
        is_bcd(right),
    ensures
        is_bcd(subtract_decimal_result(left, right, carry).value),
        bcd_value(subtract_decimal_result(left, right, carry).value) == (bcd_value(left)
            - bcd_value(right) - (1 - carry_value(carry))) % 100,
        subtract_decimal_result(left, right, carry).carry <==> bcd_value(left) - bcd_value(right)
            - (1 - carry_value(carry)) >= 0,
{
    let low = left % 16 - right % 16 - (1 - carry_value(carry));
    let borrowed: int = if low < 0 {
        1
    } else {
        0
    };
    let high = left / 16 - right / 16 - borrowed;
    let low_digit = subtract_adjusted(low);
    let high_digit = subtract_adjusted(high);
    assert(low_digit == low + 10 * borrowed);
    assert(high < 0 ==> high_digit == high + 10);
    assert(0 <= low_digit < 10 && 0 <= high_digit < 10);
    let value = subtract_decimal_result(left, right, carry).value;
    assert(value == 16 * high_digit + low_digit);
    assert(value % 16 == low_digit && value / 16 == high_digit);
}

/// Adds in binary mode.
pub fn add_binary_bytes(left: u8, right: u8, carry: bool) -> (sum: Sum)
    ensures
        sum == add_binary_result(left, right, carry),
{
    let carry_in: u16 = if carry {
        1
    } else {
        0
    };
    let total: u16 = left as u16 + right as u16 + carry_in;
    let value: u8 = (total % 256) as u8;
    let overflow: bool = ((left ^ value) & (right ^ value) & 0x80) != 0;
    Sum { value, carry: total > 255, overflow }
}

/// Subtracts in binary mode.
pub fn subtract_binary_bytes(left: u8, right: u8, carry: bool) -> (sum: Sum)
    ensures
        sum == subtract_binary_result(left, right, carry),
{
    assert(!right == (255 - right) as u8) by (bit_vector);
    add_binary_bytes(left, !right, carry)
}

/// Adds in decimal mode.
pub fn add_decimal_bytes(left: u8, right: u8, carry: bool) -> (sum: Sum)
    ensures
        sum == add_decimal_result(left, right, carry),
{
    let carry_in: u8 = if carry {
        1
    } else {
        0
    };
    let mut low: u8 = left % 16 + right % 16 + carry_in;
    let mut high: u8 = left / 16 + right / 16;
    let mut carry_out: bool = false;
    if low >= 10 {
        low = (low + 6) % 16;
        high = high + 1;
    }
    if high >= 10 {
        high = (high + 6) % 16;
        carry_out = true;
    }
    let binary: Sum = add_binary_bytes(left, right, carry);
    Sum { value: 16 * high + low, carry: carry_out, overflow: binary.overflow }
}

/// Subtracts in decimal mode.
pub fn subtract_decimal_bytes(left: u8, right: u8, carry: bool) -> (sum: Sum)
    ensures
        sum == subtract_decimal_result(left, right, carry),
{
    let borrow: i16 = if carry {
        0
    } else {
        1
    };
    let mut low: i16 = (left % 16) as i16 - (right % 16) as i16 - borrow;
    let mut high: i16 = (left / 16) as i16 - (right / 16) as i16;
    let mut carry_out: bool = true;
    if low < 0 {
        assert((low + 26) % 16 == (low - 6) % 16);
        low = (low + 26) % 16;
        high = high - 1;
    }
    if high < 0 {
        assert((high + 26) % 16 == (high - 6) % 16);
        high = (high + 26) % 16;
        carry_out = false;
    }
    let binary: Sum = subtract_binary_bytes(left, right, carry);
    let value: i16 = 16 * high + low;
    Sum { value: value as u8, carry: carry_out, overflow: binary.overflow }
}

/// Shifts left by one bit.
pub fn shift_left(value: u8) -> (shifted: Shifted)
    ensures
        shifted == shift_left_result(value),
{
    assert(value << 1 == ((2 * value) % 256) as u8) by (bit_vector);
    assert((value & 0x80 != 0) == (value >= 128)) by (bit_vector);
    Shifted { value: value << 1, carry: value & 0x80 != 0 }
}

/// Shifts right by one bit.
pub fn shift_right(value: u8) -> (shifted: Shifted)
    ensures
        shifted == shift_right_result(value),
{
    assert(value >> 1 == (value / 2) as u8) by (bit_vector);
    assert((value & 1 == 1) == (value % 2 == 1)) by (bit_vector);
    Shifted { value: value >> 1, carry: value & 1 == 1 }
}

/// Rotates left by one bit through the carry.
pub fn rotate_left(value: u8, carry: bool) -> (shifted: Shifted)
    ensures
        shifted == rotate_left_result(value, carry),
{
    let low: Shifted = shift_left(value);
    let doubled: u8 = low.value;
    assert(doubled | 1 == (doubled + 1) as u8) by (bit_vector)
        requires
            doubled % 2 == 0,
    ;
    if carry {
        Shifted { value: doubled | 1, carry: low.carry }
    } else {
        low
    }
}

/// Rotates right by one bit through the carry.
pub fn rotate_right(value: u8, carry: bool) -> (shifted: Shifted)
    ensures
        shifted == rotate_right_result(value, carry),
{
    let high: Shifted = shift_right(value);
    let halved: u8 = high.value;
    assert(halved | 0x80 == (halved + 128) as u8) by (bit_vector)
        requires
            halved < 128,
    ;
    if carry {
        Shifted { value: halved | 0x80, carry: high.carry }
    } else {
        high
    }
}

/// Compares a register with an operand.
pub fn compare_bytes(register: u8, operand: u8) -> (comparison: Comparison)
    ensures
        comparison == compare_result(register, operand),
{
    let difference: u8 = register.wrapping_sub(operand);
    Comparison {
        carry: register >= operand,
        zero: register == operand,
        negative: difference >= 128,
    }
}

} // verus!
