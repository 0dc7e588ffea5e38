use vstd::prelude::*;
use crate::bits::flag_set;

verus! {

pub const FLAG_CARRY: u8 = 0x01;

pub const FLAG_ZERO: u8 = 0x02;

pub const FLAG_INTERRUPT: u8 = 0x04;

/// The decimal flag can be set and cleared, and changes nothing: this CPU
/// has no decimal mode.
pub const FLAG_DECIMAL: u8 = 0x08;

/// Set in the copy of the status that `BRK` and `PHP` push, clear in the
/// copy that an interrupt pushes.
pub const FLAG_BREAK: u8 = 0x10;

/// Bit 5 of the status has no meaning and reads as 1.
pub const FLAG_UNUSED: u8 = 0x20;

pub const FLAG_OVERFLOW: u8 = 0x40;

pub const FLAG_SIGN: u8 = 0x80;

/// A byte read as a number in two's complement: -128 to 127.
pub open spec fn signed(value: u8) -> int {
    if value < 128 {
        value as int
    } else {
        value - 256
    }
}

/// The status with the flags of `mask` set or cleared.
pub open spec fn with_flag(status: u8, mask: u8, on: bool) -> u8 {
    if on {
        status | mask
    } else {
        status & !mask
    }
}

/// The status with the zero and sign flags as `value` gives them: zero
/// where it is 0, sign where its bit 7 is set.
pub open spec fn with_zero_sign(status: u8, value: u8) -> u8 {
    with_flag(with_flag(status, FLAG_ZERO, value == 0), FLAG_SIGN, value >= 128)
}

/// What an addition, a subtraction or a comparison yields beside its flags
/// for zero and sign.
#[derive(Clone, Copy, Debug, PartialEq, Eq, Structural)]
pub struct Sum {
    pub value: u8,
    pub carry: bool,
    pub overflow: bool,
}

/// What a shift or a rotation yields.
#[derive(Clone, Copy, Debug, PartialEq, Eq, Structural)]
pub struct Shifted {
    pub value: u8,
    pub carry: bool,
}

/// 1 for a set carry, 0 for a clear one.
pub open spec fn carry_in(carry: bool) -> int {
    if carry {
        1
    } else {
        0
    }
}

/// `ADC`: the sum of two bytes and the carry. The carry comes out where
/// the sum does not fit in a byte, and the overflow where the sum of the
/// two bytes as signed numbers does not fit in a signed byte.
pub open spec fn sum_with_carry(a: u8, m: u8, carry: bool) -> Sum {
    let total = a + m + carry_in(carry);
    let signed_total = signed(a) + signed(m) + carry_in(carry);
    Sum {
        value: (total % 256) as u8,
        carry: total >= 256,
        overflow: signed_total < -128 || signed_total > 127,
    }
}

/// `SBC`: the difference of two bytes, less one where the carry is clear.
/// The carry comes out where nothing had to be borrowed, and the overflow
/// where the difference of the two bytes as signed numbers does not fit in
/// a signed byte.
pub open spec fn difference_with_borrow(a: u8, m: u8, carry: bool) -> Sum {
    let total = a - m - (1 - carry_in(carry));
    let signed_total = signed(a) - signed(m) - (1 - carry_in(carry));
    Sum {
        value: (total % 256) as u8,
        carry: total >= 0,
        overflow: signed_total < -128 || signed_total > 127,
    }
}

/// `CMP`, `CPX`, `CPY`: the difference of a register and a byte, with the
/// carry where the register is not the smaller. There is no overflow.
pub open spec fn comparison(register: u8, m: u8) -> Sum {
    Sum { value: ((register - m) % 256) as u8, carry: register >= m, overflow: false }
}

/// `ASL`: bit 7 goes to the carry and a 0 comes in at bit 0.
pub open spec fn shifted_left(m: u8) -> Shifted {
    Shifted { value: ((m * 2) % 256) as u8, carry: m >= 128 }
}

/// `LSR`: bit 0 goes to the carry and a 0 comes in at bit 7.
pub open spec fn shifted_right(m: u8) -> Shifted {
    Shifted { value: m / 2, carry: m % 2 == 1 }
}

/// `ROL`: bit 7 goes to the carry and the old carry comes in at bit 0.
pub open spec fn rotated_left(m: u8, carry: bool) -> Shifted {
    Shifted { value: ((m * 2 + carry_in(carry)) % 256) as u8, carry: m >= 128 }
}

/// `ROR`: bit 0 goes to the carry and the old carry comes in at bit 7.
pub open spec fn rotated_right(m: u8, carry: bool) -> Shifted {
    Shifted { value: (m / 2 + 128 * carry_in(carry)) as u8, carry: m % 2 == 1 }
}

/// Sets or clears the flags of `mask` in the status.
pub fn set_flag(status: u8, mask: u8, on: bool) -> (new_status: u8)
    ensures
        new_status == with_flag(status, mask, on),
{
    if on {
        status | mask
    } else {
        status & !mask
    }
}

/// Sets the zero and sign flags as `value` gives them.
pub fn set_zero_sign(status: u8, value: u8) -> (new_status: u8)
    ensures
        new_status == with_zero_sign(status, value),
{
    set_flag(set_flag(status, FLAG_ZERO, value == 0), FLAG_SIGN, value >= 128)
}

/// `ADC`: adds two bytes and the carry.
pub fn add_with_carry(a: u8, m: u8, carry: bool) -> (sum: Sum)
    ensures
        sum == sum_with_carry(a, m, carry),
{
    let carry_bit: u16 = if carry {
        1
    } else {
        0
    };
    let total: u16 = a as u16 + m as u16 + carry_bit;
    let value: u8 = (total % 256) as u8;
    proof {
        lemma_overflow_bits(a, m, value);
    }
    Sum { value, carry: total > 0xff, overflow: (a ^ value) & (m ^ value) & 0x80 != 0 }
}

/// Subtracts by adding the complement, as the CPU does.
pub fn subtract_with_borrow(a: u8, m: u8, carry: bool) -> (sum: Sum)
    ensures
        sum == difference_with_borrow(a, m, carry),
{
    proof {
        lemma_complement_bits(m);
    }
    add_with_carry(a, !m, carry)
}

/// `CMP`, `CPX`, `CPY`: compares a register with a byte.
pub fn compare(register: u8, m: u8) -> (sum: Sum)
    ensures
        sum == comparison(register, m),
{
    Sum { value: register.wrapping_sub(m), carry: register >= m, overflow: false }
}

/// `ASL`: shifts a byte to the left.
pub fn shift_left(m: u8) -> (shifted: Shifted)
    ensures
        shifted == shifted_left(m),
{
    proof {
        lemma_shift_bits(m);
    }
    Shifted { value: m << 1, carry: m & 0x80 != 0 }
}

/// `LSR`: shifts a byte to the right.
pub fn shift_right(m: u8) -> (shifted: Shifted)
    ensures
        shifted == shifted_right(m),
{
    proof {
        lemma_shift_bits(m);
    }
    Shifted { value: m >> 1, carry: m & 1 != 0 }
}

/// `ROL`: rotates a byte to the left through the carry.
pub fn rotate_left(m: u8, carry: bool) -> (shifted: Shifted)
    ensures
        shifted == rotated_left(m, carry),
{
    proof {
        lemma_shift_bits(m);
    }
    let low: u8 = if carry {
        1
    } else {
        0
    };
    Shifted { value: (m << 1) | low, carry: m & 0x80 != 0 }
}

/// `ROR`: rotates a byte to the right through the carry.
pub fn rotate_right(m: u8, carry: bool) -> (shifted: Shifted)
    ensures
        shifted == rotated_right(m, carry),
{
    proof {
        lemma_shift_bits(m);
    }
    let high: u8 = if carry {
        0x80
    } else {
        0
    };
    Shifted { value: (m >> 1) | high, carry: m & 1 != 0 }
}

/// Whether `mask` names one flag of the status.
pub open spec fn is_flag(mask: u8) -> bool {
    mask == 0x01 || mask == 0x02 || mask == 0x04 || mask == 0x08 || mask == 0x10 || mask == 0x20
        || mask == 0x40 || mask == 0x80
}

/// Setting or clearing a flag makes that flag what was asked for and
/// leaves every other flag as it was.
pub proof fn law_flag(status: u8, mask: u8, on: bool, other: u8)
    requires
        is_flag(mask),
        is_flag(other),
    ensures
        flag_set(with_flag(status, mask, on), mask) == on,
        other != mask ==> flag_set(with_flag(status, mask, on), other) == flag_set(status, other),
{
    lemma_flag_bits(status, mask, other);
}

/// The zero flag says that the value is 0 and the sign flag that its bit 7
/// is set; the other flags stay.
pub proof fn law_zero_sign(status: u8, value: u8, other: u8)
    requires
        is_flag(other),
    ensures
        flag_set(with_zero_sign(status, value), FLAG_ZERO) == (value == 0),
        flag_set(with_zero_sign(status, value), FLAG_SIGN) == (value >= 128),
        other != FLAG_ZERO && other != FLAG_SIGN ==> flag_set(
            with_zero_sign(status, value),
            other,
        ) == flag_set(status, other),
{
    let zeroed = with_flag(status, FLAG_ZERO, value == 0);
    law_flag(status, FLAG_ZERO, value == 0, FLAG_ZERO);
    law_flag(status, FLAG_ZERO, value == 0, other);
    law_flag(zeroed, FLAG_SIGN, value >= 128, FLAG_SIGN);
    law_flag(zeroed, FLAG_SIGN, value >= 128, FLAG_ZERO);
    law_flag(zeroed, FLAG_SIGN, value >= 128, other);
}

/// Subtracting is adding the complement: what `SBC` yields for a byte is
/// what `ADC` yields for the byte with every bit turned.
pub proof fn law_subtraction_is_addition(a: u8, m: u8, carry: bool)
    ensures
        difference_with_borrow(a, m, carry) == sum_with_carry(a, (255 - m) as u8, carry),
{
}

/// One flag's bit, set or cleared, does not touch another flag's bit.
pub proof fn lemma_flag_bits(status: u8, mask: u8, other: u8)
    by (bit_vector)
    requires
        mask == 0x01 || mask == 0x02 || mask == 0x04 || mask == 0x08 || mask == 0x10 || mask
            == 0x20 || mask == 0x40 || mask == 0x80,
        other == 0x01 || other == 0x02 || other == 0x04 || other == 0x08 || other == 0x10 || other
            == 0x20 || other == 0x40 || other == 0x80,
    ensures
        ({
            &&& (status | mask) & mask != 0
            &&& (status & !mask) & mask == 0
            &&& (other != mask ==> ((status | mask) & other != 0 <==> status & other != 0))
            &&& (other != mask ==> ((status & !mask) & other != 0 <==> status & other != 0))
        }),
{
}

/// The sign of the sum differs from the signs of both summands exactly
/// where the signed sum does not fit.
pub proof fn lemma_overflow_bits(a: u8, m: u8, value: u8)
    by (bit_vector)
    ensures
        ({
            let a_signed = if a < 128 {
                a as int
            } else {
                a - 256
            };
            let m_signed = if m < 128 {
                m as int
            } else {
                m - 256
            };
            &&& (value == (a + m) % 256 ==> ((a ^ value) & (m ^ value) & 0x80 != 0 <==> (a_signed
                + m_signed < -128 || a_signed + m_signed > 127)))
            &&& (value == (a + m + 1) % 256 ==> ((a ^ value) & (m ^ value) & 0x80 != 0 <==> (
            a_signed + m_signed + 1 < -128 || a_signed + m_signed + 1 > 127)))
        }),
{
}

/// The complement of a byte is what it lacks to 255.
pub proof fn lemma_complement_bits(m: u8)
    by (bit_vector)
    ensures
        !m == 255 - m,
{
}

/// Shifts are doublings and halvings, and the bits at the ends are the
/// sign and the parity.
pub proof fn lemma_shift_bits(m: u8)
    by (bit_vector)
    ensures
        ({
            &&& m << 1 == (m * 2) % 256
            &&& (m << 1) | 1 == (m * 2 + 1) % 256
            &&& (m << 1) | 0 == (m * 2) % 256
            &&& m >> 1 == m / 2
            &&& (m >> 1) | 0x80 == m / 2 + 128
            &&& (m >> 1) | 0 == m / 2
            &&& (m & 0x80 != 0 <==> m >= 128)
            &&& (m & 1 != 0 <==> m % 2 == 1)
        }),
{
}

} // verus!
