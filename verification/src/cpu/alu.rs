//! The arithmetic and logic of the engine, on plain values.
//!
//! Every operation comes twice. The `spec_` function says in integer
//! arithmetic what the operation yields: the stored result and the flags.
//! The executable function computes the same with machine operations, and
//! its contract equates the two.

use vstd::prelude::*;
use crate::cpu::instructions::BitPosition;
use crate::cpu::registers::FlagsRegister;

verus! {

/// A flag as a number: 1 when set, 0 when clear.
pub open spec fn bit_value(flag: bool) -> int {
    if flag {
        1
    } else {
        0
    }
}

/// Masking a byte with `0xF` keeps its remainder by 16.
proof fn lemma_low_nibble(value: u8)
    ensures
        value & 0xF == value % 16,
        value & 0xF <= 15,
{
    assert(value & 0xF == value % 16) by (bit_vector);
}

/// Masking a 16-bit value with `0xFFF` keeps its remainder by 4096.
proof fn lemma_low_twelve_bits(value: u16)
    ensures
        value & 0xFFF == value % 4096,
        value & 0xFFF <= 4095,
{
    assert(value & 0xFFF == value % 4096) by (bit_vector);
}

/// Addition of an operand and a carry-in to the accumulator.
///
/// The result is the sum modulo 256. Carry tells that the sum exceeded 255,
/// half-carry that the sum of the low nibbles and the carry-in exceeded 15.
pub open spec fn spec_add8(a: u8, operand: u8, carry_in: bool) -> (u8, FlagsRegister) {
    let sum = a + operand + bit_value(carry_in);
    let result = (sum % 256) as u8;
    (
        result,
        FlagsRegister {
            zero: result == 0,
            subtract: false,
            half_carry: a % 16 + operand % 16 + bit_value(carry_in) > 15,
            carry: sum > 255,
        },
    )
}

/// Adds an operand and a carry-in to the accumulator.
pub fn add8(a: u8, operand: u8, carry_in: bool) -> (out: (u8, FlagsRegister))
    ensures
        out == spec_add8(a, operand, carry_in),
{
    let extra: u8 = if carry_in { 1 } else { 0 };
    let partial: u8 = a.wrapping_add(operand);
    let result: u8 = partial.wrapping_add(extra);
    // Either of the two additions may wrap, never both.
    let did_overflow: bool = partial < a || result < partial;
    proof {
        lemma_low_nibble(a);
        lemma_low_nibble(operand);
    }
    let half_carry: bool = (a & 0xF) + (operand & 0xF) + extra > 0xF;
    (result, FlagsRegister { zero: result == 0, subtract: false, half_carry, carry: did_overflow })
}

/// Subtraction of an operand and a borrow-in from the accumulator.
///
/// The result is the difference modulo 256. Carry tells that the subtraction
/// borrowed, half-carry that the low nibble of the accumulator was less than
/// the low nibble of the operand plus the borrow-in.
pub open spec fn spec_sub8(a: u8, operand: u8, borrow_in: bool) -> (u8, FlagsRegister) {
    let difference = a - operand - bit_value(borrow_in);
    let result = (difference % 256) as u8;
    (
        result,
        FlagsRegister {
            zero: result == 0,
            subtract: true,
            half_carry: a % 16 < operand % 16 + bit_value(borrow_in),
            carry: difference < 0,
        },
    )
}

/// Subtracts an operand and a borrow-in from the accumulator.
pub fn sub8(a: u8, operand: u8, borrow_in: bool) -> (out: (u8, FlagsRegister))
    ensures
        out == spec_sub8(a, operand, borrow_in),
{
    let extra: u8 = if borrow_in { 1 } else { 0 };
    let partial: u8 = a.wrapping_sub(operand);
    let result: u8 = partial.wrapping_sub(extra);
    let did_borrow: bool = a < operand || partial < extra;
    proof {
        lemma_low_nibble(a);
        lemma_low_nibble(operand);
    }
    let half_carry: bool = (a & 0xF) < (operand & 0xF) + extra;
    (result, FlagsRegister { zero: result == 0, subtract: true, half_carry, carry: did_borrow })
}

/// Addition of a 16-bit operand to HL.
///
/// The result is the sum modulo 65536. Carry tells that the sum exceeded
/// 65535, half-carry that the sum of the low twelve bits exceeded 4095.
pub open spec fn spec_add16(hl: u16, operand: u16) -> (u16, FlagsRegister) {
    let sum = hl + operand;
    let result = (sum % 65536) as u16;
    (
        result,
        FlagsRegister {
            zero: result == 0,
            subtract: false,
            half_carry: hl % 4096 + operand % 4096 > 4095,
            carry: sum > 65535,
        },
    )
}

/// Adds a 16-bit operand to HL.
pub fn add16(hl: u16, operand: u16) -> (out: (u16, FlagsRegister))
    ensures
        out == spec_add16(hl, operand),
{
    let result: u16 = hl.wrapping_add(operand);
    let did_overflow: bool = result < hl;
    proof {
        lemma_low_twelve_bits(hl);
        lemma_low_twelve_bits(operand);
    }
    let half_carry: bool = (operand & 0xFFF) + (hl & 0xFFF) > 0xFFF;
    (result, FlagsRegister { zero: result == 0, subtract: false, half_carry, carry: did_overflow })
}

/// Increment of a register.
///
/// The result is the value plus one, modulo 256. Half-carry is the nibble
/// test of an addition, made on the value before and the value after. The
/// carry flag is handed through unchanged.
pub open spec fn spec_inc8(value: u8, carry: bool) -> (u8, FlagsRegister) {
    let result = ((value + 1) % 256) as u8;
    (
        result,
        FlagsRegister {
            zero: result == 0,
            subtract: false,
            half_carry: result % 16 + value % 16 > 15,
            carry,
        },
    )
}

/// Increments a register, leaving the carry flag as it is.
pub fn inc8(value: u8, carry: bool) -> (out: (u8, FlagsRegister))
    ensures
        out == spec_inc8(value, carry),
{
    let result: u8 = value.wrapping_add(1);
    proof {
        lemma_low_nibble(value);
        lemma_low_nibble(result);
    }
    let half_carry: bool = (result & 0xF) + (value & 0xF) > 0xF;
    (result, FlagsRegister { zero: result == 0, subtract: false, half_carry, carry })
}

/// Decrement of a register.
///
/// The result is the value minus one, modulo 256. Half-carry is the nibble
/// test of a subtraction, made on the value before and the value after. The
/// carry flag is handed through unchanged.
pub open spec fn spec_dec8(value: u8, carry: bool) -> (u8, FlagsRegister) {
    let result = ((value - 1) % 256) as u8;
    (
        result,
        FlagsRegister {
            zero: result == 0,
            subtract: true,
            half_carry: value % 16 < result % 16,
            carry,
        },
    )
}

/// Decrements a register, leaving the carry flag as it is.
pub fn dec8(value: u8, carry: bool) -> (out: (u8, FlagsRegister))
    ensures
        out == spec_dec8(value, carry),
{
    let result: u8 = value.wrapping_sub(1);
    proof {
        lemma_low_nibble(value);
        lemma_low_nibble(result);
    }
    let half_carry: bool = (value & 0xF) < (result & 0xF);
    (result, FlagsRegister { zero: result == 0, subtract: true, half_carry, carry })
}

/// The flags after a bitwise operation: zero from the result, half-carry as
/// the operation fixes it, subtract and carry clear.
pub open spec fn logic_flags(result: u8, half_carry: bool) -> FlagsRegister {
    FlagsRegister { zero: result == 0, subtract: false, half_carry, carry: false }
}

/// Bitwise AND of an operand into the accumulator. Half-carry is set.
pub open spec fn spec_and8(a: u8, operand: u8) -> (u8, FlagsRegister) {
    (operand & a, logic_flags(operand & a, true))
}

/// Computes the bitwise AND of the accumulator and an operand.
pub fn and8(a: u8, operand: u8) -> (out: (u8, FlagsRegister))
    ensures
        out == spec_and8(a, operand),
{
    let result: u8 = operand & a;
    (result, FlagsRegister { zero: result == 0, subtract: false, half_carry: true, carry: false })
}

/// Bitwise OR of an operand into the accumulator. Half-carry is clear.
pub open spec fn spec_or8(a: u8, operand: u8) -> (u8, FlagsRegister) {
    (operand | a, logic_flags(operand | a, false))
}

/// Computes the bitwise OR of the accumulator and an operand.
pub fn or8(a: u8, operand: u8) -> (out: (u8, FlagsRegister))
    ensures
        out == spec_or8(a, operand),
{
    let result: u8 = operand | a;
    (result, FlagsRegister { zero: result == 0, subtract: false, half_carry: false, carry: false })
}

/// Bitwise XOR of an operand into the accumulator. Half-carry is clear.
pub open spec fn spec_xor8(a: u8, operand: u8) -> (u8, FlagsRegister) {
    (operand ^ a, logic_flags(operand ^ a, false))
}

/// Computes the bitwise XOR of the accumulator and an operand.
pub fn xor8(a: u8, operand: u8) -> (out: (u8, FlagsRegister))
    ensures
        out == spec_xor8(a, operand),
{
    let result: u8 = operand ^ a;
    (result, FlagsRegister { zero: result == 0, subtract: false, half_carry: false, carry: false })
}

/// Complement of the accumulator: every bit flipped, which is `255 - a`.
/// Subtract and half-carry are set; zero and carry stay.
pub open spec fn spec_cpl(a: u8, flags: FlagsRegister) -> (u8, FlagsRegister) {
    ((255 - a) as u8, FlagsRegister { subtract: true, half_carry: true, ..flags })
}

/// Complements the accumulator.
pub fn cpl(a: u8, flags: FlagsRegister) -> (out: (u8, FlagsRegister))
    ensures
        out == spec_cpl(a, flags),
{
    assert(!a == 255 - a) by (bit_vector);
    (
        !a,
        FlagsRegister { zero: flags.zero, subtract: true, half_carry: true, carry: flags.carry },
    )
}

/// The flags after the carry flag is toggled: subtract and half-carry clear,
/// zero as before.
pub open spec fn spec_ccf(flags: FlagsRegister) -> FlagsRegister {
    FlagsRegister { zero: flags.zero, subtract: false, half_carry: false, carry: !flags.carry }
}

/// Toggles the carry flag.
pub fn ccf(flags: FlagsRegister) -> (out: FlagsRegister)
    ensures
        out == spec_ccf(flags),
{
    FlagsRegister { zero: flags.zero, subtract: false, half_carry: false, carry: !flags.carry }
}

/// The flags after the carry flag is set: subtract and half-carry clear,
/// zero as before.
pub open spec fn spec_scf(flags: FlagsRegister) -> FlagsRegister {
    FlagsRegister { zero: flags.zero, subtract: false, half_carry: false, carry: true }
}

/// Sets the carry flag.
pub fn scf(flags: FlagsRegister) -> (out: FlagsRegister)
    ensures
        out == spec_scf(flags),
{
    FlagsRegister { zero: flags.zero, subtract: false, half_carry: false, carry: true }
}

/// A one-bit shift or rotate of a byte.
#[derive(Clone, Copy, Debug, PartialEq, Eq, Structural)]
pub enum Shift {
    /// Right, the carry flag entering at bit 7.
    RightThroughCarry,
    /// Left, the carry flag entering at bit 0.
    LeftThroughCarry,
    /// Right, bit 0 re-entering at bit 7.
    RightCircular,
    /// Left, bit 7 re-entering at bit 0.
    LeftCircular,
    /// Right, zero entering at bit 7.
    RightLogical,
    /// Right, bit 7 staying in place.
    RightArithmetic,
    /// Left, zero entering at bit 0.
    Left,
}

impl Shift {
    /// Whether bits move toward bit 7.
    pub open spec fn is_left(self) -> bool {
        self == Shift::LeftThroughCarry || self == Shift::LeftCircular || self == Shift::Left
    }

    /// The bit that enters at the vacated end, as 0 or 1.
    pub open spec fn entering(self, value: u8, carry_in: bool) -> int {
        match self {
            Shift::RightThroughCarry | Shift::LeftThroughCarry => bit_value(carry_in),
            Shift::RightCircular => (value % 2) as int,
            Shift::LeftCircular | Shift::RightArithmetic => (value / 128) as int,
            Shift::RightLogical | Shift::Left => 0,
        }
    }

    /// The shifted byte: a left shift doubles the value modulo 256 and puts
    /// the entering bit at weight 1, a right shift halves it and puts the
    /// entering bit at weight 128.
    pub open spec fn result(self, value: u8, carry_in: bool) -> u8 {
        if self.is_left() {
            ((value * 2) % 256 + self.entering(value, carry_in)) as u8
        } else {
            (value / 2 + 128 * self.entering(value, carry_in)) as u8
        }
    }

    /// The bit shifted out: bit 7 of the value on a left shift, bit 0 on a
    /// right shift.
    pub open spec fn carry_out(self, value: u8) -> bool {
        if self.is_left() {
            value >= 128
        } else {
            value % 2 == 1
        }
    }
}

/// A shift or rotate of a byte: the shifted byte and the bit shifted out.
pub open spec fn spec_shift8(kind: Shift, value: u8, carry_in: bool) -> (u8, bool) {
    (kind.result(value, carry_in), kind.carry_out(value))
}

/// Shifts or rotates a byte by one bit.
pub fn shift8(kind: Shift, value: u8, carry_in: bool) -> (out: (u8, bool))
    ensures
        out == spec_shift8(kind, value, carry_in),
{
    let carry_bit: u8 = if carry_in { 1 } else { 0 };
    assert(((value & 0x01) == 0x01) == (value % 2 == 1) && ((value & 0x80) == 0x80) == (value
        >= 128)) by (bit_vector);
    match kind {
        Shift::RightThroughCarry => {
            assert((carry_bit << 7) | (value >> 1) == value / 2 + 128 * carry_bit) by (bit_vector)
                requires
                    carry_bit <= 1,
            ;
            ((carry_bit << 7) | (value >> 1), (value & 0x01) == 0x01)
        },
        Shift::LeftThroughCarry => {
            assert((value << 1) | carry_bit == (value * 2) % 256 + carry_bit) by (bit_vector)
                requires
                    carry_bit <= 1,
            ;
            ((value << 1) | carry_bit, (value & 0x80) == 0x80)
        },
        Shift::RightCircular => {
            assert((value << 7) | (value >> 1) == value / 2 + 128 * (value % 2)) by (bit_vector);
            ((value << 7) | (value >> 1), (value & 0x01) == 0x01)
        },
        Shift::LeftCircular => {
            assert((value << 1) | (value >> 7) == (value * 2) % 256 + value / 128) by (bit_vector);
            ((value << 1) | (value >> 7), (value & 0x80) == 0x80)
        },
        Shift::RightLogical => {
            assert(value >> 1 == value / 2) by (bit_vector);
            (value >> 1, (value & 0x01) == 0x01)
        },
        Shift::RightArithmetic => {
            assert((value & 0x80) | (value >> 1) == value / 2 + 128 * (value / 128))
                by (bit_vector);
            ((value & 0x80) | (value >> 1), (value & 0x01) == 0x01)
        },
        Shift::Left => {
            assert(value << 1 == (value * 2) % 256) by (bit_vector);
            (value << 1, (value & 0x80) == 0x80)
        },
    }
}

/// The flags after a rotate of the accumulator: only carry can be set, and
/// zero stays clear even where the accumulator has become zero.
pub open spec fn accumulator_rotate_flags(carry_out: bool) -> FlagsRegister {
    FlagsRegister { zero: false, subtract: false, half_carry: false, carry: carry_out }
}

/// The flags after a shift or rotate of a register: zero from the result,
/// carry from the bit shifted out, subtract and half-carry clear.
pub open spec fn register_shift_flags(result: u8, carry_out: bool) -> FlagsRegister {
    FlagsRegister { zero: result == 0, subtract: false, half_carry: false, carry: carry_out }
}

/// Exchange of the two nibbles of a byte. Only the zero flag can be set.
pub open spec fn spec_swap8(value: u8) -> (u8, FlagsRegister) {
    let result = ((value % 16) * 16 + value / 16) as u8;
    (result, register_shift_flags(result, false))
}

/// Exchanges the two nibbles of a byte.
pub fn swap8(value: u8) -> (out: (u8, FlagsRegister))
    ensures
        out == spec_swap8(value),
{
    assert(((value & 0x0F) << 4) | ((value & 0xF0) >> 4) == (value % 16) * 16 + value / 16)
        by (bit_vector);
    let result: u8 = ((value & 0x0F) << 4) | ((value & 0xF0) >> 4);
    (result, FlagsRegister { zero: result == 0, subtract: false, half_carry: false, carry: false })
}

/// Shifting one by a bit's index gives the bit's mask.
proof fn lemma_mask_is_shifted_one(position: BitPosition)
    ensures
        1u8 << position.index() == position.mask(),
{
    assert(1u8 << 0u8 == 0x01 && 1u8 << 1u8 == 0x02 && 1u8 << 2u8 == 0x04 && 1u8 << 3u8 == 0x08
        && 1u8 << 4u8 == 0x10 && 1u8 << 5u8 == 0x20 && 1u8 << 6u8 == 0x40 && 1u8 << 7u8 == 0x80)
        by (bit_vector);
}

/// The flags after a bit test: zero tells that the tested bit is clear,
/// half-carry is set, subtract is clear, and carry stays.
pub open spec fn spec_test_bit(value: u8, position: BitPosition, carry: bool) -> FlagsRegister {
    FlagsRegister {
        zero: value & position.mask() == 0,
        subtract: false,
        half_carry: true,
        carry,
    }
}

/// Tests one bit of a byte.
pub fn test_bit(value: u8, position: BitPosition, carry: bool) -> (out: FlagsRegister)
    ensures
        out == spec_test_bit(value, position, carry),
{
    let index: u8 = u8::from(position);
    proof {
        lemma_mask_is_shifted_one(position);
        let mask = position.mask();
        assert(((value >> index) & 1 == 0) == (value & mask == 0)) by (bit_vector)
            requires
                index <= 7,
                mask == 1u8 << index,
        ;
    }
    FlagsRegister { zero: (value >> index) & 1 == 0, subtract: false, half_carry: true, carry }
}

/// A byte with one bit cleared.
pub open spec fn spec_reset_bit(value: u8, position: BitPosition) -> u8 {
    value & !position.mask()
}

/// Clears one bit of a byte.
pub fn reset_bit(value: u8, position: BitPosition) -> (out: u8)
    ensures
        out == spec_reset_bit(value, position),
{
    let index: u8 = u8::from(position);
    proof {
        lemma_mask_is_shifted_one(position);
    }
    value & !(1u8 << index)
}

/// A byte with one bit set.
pub open spec fn spec_set_bit(value: u8, position: BitPosition) -> u8 {
    value | position.mask()
}

/// Sets one bit of a byte.
pub fn set_bit(value: u8, position: BitPosition) -> (out: u8)
    ensures
        out == spec_set_bit(value, position),
{
    let index: u8 = u8::from(position);
    proof {
        lemma_mask_is_shifted_one(position);
    }
    value | (1u8 << index)
}

/// Whether the decimal adjustment corrects the high digit: after an
/// addition when carry is set or the accumulator exceeds `0x99`, after a
/// subtraction when carry is set.
pub open spec fn daa_corrects_high(a: u8, flags: FlagsRegister) -> bool {
    flags.carry || (!flags.subtract && a > 0x99)
}

/// Whether the decimal adjustment corrects the low digit: after an addition
/// when half-carry is set or the low nibble exceeds 9, after a subtraction
/// when half-carry is set.
pub open spec fn daa_corrects_low(a: u8, flags: FlagsRegister) -> bool {
    flags.half_carry || (!flags.subtract && a % 16 > 9)
}

/// Decimal adjustment of the accumulator.
///
/// The correction is `0x60` for the high digit plus `0x06` for the low
/// digit, each where that digit is corrected. It is added after an addition
/// and subtracted after a subtraction, modulo 256. Carry tells that the high
/// digit was corrected, subtract stays, half-carry is cleared.
pub open spec fn spec_daa(a: u8, flags: FlagsRegister) -> (u8, FlagsRegister) {
    let correction = 0x60 * bit_value(daa_corrects_high(a, flags)) + 0x06 * bit_value(
        daa_corrects_low(a, flags),
    );
    let adjusted = if flags.subtract {
        a - correction
    } else {
        a + correction
    };
    let result = (adjusted % 256) as u8;
    (
        result,
        FlagsRegister {
            zero: result == 0,
            subtract: flags.subtract,
            half_carry: false,
            carry: daa_corrects_high(a, flags),
        },
    )
}

/// Adjusts the accumulator to packed decimal after an addition or a
/// subtraction of packed decimals.
pub fn daa(a: u8, flags: FlagsRegister) -> (out: (u8, FlagsRegister))
    ensures
        out == spec_daa(a, flags),
{
    proof {
        lemma_low_nibble(a);
    }
    let mut carry: bool = false;
    let result: u8 = if !flags.subtract {
        let mut result: u8 = a;
        if flags.carry || a > 0x99 {
            carry = true;
            result = result.wrapping_add(0x60);
        }
        if flags.half_carry || a & 0x0F > 0x09 {
            result = result.wrapping_add(0x06);
        }
        result
    } else if flags.carry {
        carry = true;
        // Adding 0x9A or 0xA0 modulo 256 subtracts 0x66 or 0x60.
        let amount: u8 = if flags.half_carry { 0x9A } else { 0xA0 };
        a.wrapping_add(amount)
    } else if flags.half_carry {
        // Adding 0xFA modulo 256 subtracts 0x06.
        a.wrapping_add(0xFA)
    } else {
        a
    };
    (result, FlagsRegister { zero: result == 0, subtract: flags.subtract, half_carry: false, carry })
}

} // verus!
