//! Laws of the engine: what holds of every state and every operand.

use vstd::prelude::*;
use vstd::arithmetic::div_mod::lemma_mod_add_multiples_vanish;
use crate::cpu::alu::{bit_value, spec_add8, spec_daa, spec_dec8, spec_inc8, spec_sub8};
use crate::cpu::instructions::{Instructions, RegisterTarget};
use crate::cpu::registers::FlagsRegister;
use crate::cpu::CPU;

verus! {

/// Packing flags into a byte and unpacking the byte gives the flags back,
/// and the low nibble of the packed byte is zero.
pub proof fn lemma_flags_round_trip(flags: FlagsRegister)
    ensures
        FlagsRegister::from_byte(flags.to_byte()) == flags,
        flags.to_byte() & 0x0F == 0,
        flags.to_byte() % 16 == 0,
{
    let byte = flags.to_byte();
    assert(byte & 0x0F == 0) by (bit_vector)
        requires
            byte % 16 == 0,
    ;
}

/// Unpacking a byte and packing the flags gives the byte back without its
/// low nibble.
pub proof fn lemma_byte_round_trip(byte: u8)
    ensures
        FlagsRegister::from_byte(byte).to_byte() == byte - byte % 16,
        FlagsRegister::from_byte(byte).to_byte() == byte & 0xF0,
{
    assert(byte & 0xF0 == byte - byte % 16) by (bit_vector);
}

/// Incrementing a byte and decrementing the result, or the other way
/// round, gives the byte back, whatever the carry flags handed through.
pub proof fn lemma_inc8_dec8_inverse(value: u8, first_carry: bool, second_carry: bool)
    ensures
        spec_dec8(spec_inc8(value, first_carry).0, second_carry).0 == value,
        spec_inc8(spec_dec8(value, first_carry).0, second_carry).0 == value,
{
}

/// An increment followed by a decrement of the same register leaves every
/// 8-bit register as it was.
pub proof fn lemma_inc_then_dec_restores(cpu: CPU, target: RegisterTarget, other: RegisterTarget)
    ensures
        cpu.spec_execute(Instructions::INC(target)).spec_execute(
            Instructions::DEC(target),
        ).registers.read8(other) == cpu.registers.read8(other),
{
    let value = cpu.registers.read8(target);
    let carry = cpu.registers.f.carry;
    let up = spec_inc8(value, carry);
    let middle = cpu.spec_execute(Instructions::INC(target));
    assert(middle == cpu.with_result(target, up));
    cpu.registers.lemma_read8_write8(target, up.0, target);
    let down = spec_dec8(up.0, carry);
    assert(middle.spec_execute(Instructions::DEC(target)) == middle.with_result(target, down));
    lemma_inc8_dec8_inverse(value, carry, carry);
    cpu.registers.lemma_read8_write8(target, up.0, other);
    middle.registers.lemma_read8_write8(target, down.0, other);
}

/// A decrement followed by an increment of the same register leaves every
/// 8-bit register as it was.
pub proof fn lemma_dec_then_inc_restores(cpu: CPU, target: RegisterTarget, other: RegisterTarget)
    ensures
        cpu.spec_execute(Instructions::DEC(target)).spec_execute(
            Instructions::INC(target),
        ).registers.read8(other) == cpu.registers.read8(other),
{
    let value = cpu.registers.read8(target);
    let carry = cpu.registers.f.carry;
    let down = spec_dec8(value, carry);
    let middle = cpu.spec_execute(Instructions::DEC(target));
    assert(middle == cpu.with_result(target, down));
    cpu.registers.lemma_read8_write8(target, down.0, target);
    let up = spec_inc8(down.0, carry);
    assert(middle.spec_execute(Instructions::INC(target)) == middle.with_result(target, up));
    lemma_inc8_dec8_inverse(value, carry, carry);
    cpu.registers.lemma_read8_write8(target, down.0, other);
    middle.registers.lemma_read8_write8(target, up.0, other);
}

/// An increment and a decrement leave the carry flag as it was, set or clear.
pub proof fn lemma_inc_dec_keep_carry(cpu: CPU, target: RegisterTarget)
    ensures
        cpu.spec_execute(Instructions::INC(target)).registers.f.carry == cpu.registers.f.carry,
        cpu.spec_execute(Instructions::DEC(target)).registers.f.carry == cpu.registers.f.carry,
{
}

/// Whether a byte holds two decimal digits, one in each nibble.
pub open spec fn is_packed_decimal(value: u8) -> bool {
    value / 16 <= 9 && value % 16 <= 9
}

/// The number from 0 to 99 that a packed decimal byte stands for.
pub open spec fn decimal_value(value: u8) -> int {
    10 * (value / 16) + value % 16
}

/// The adjustment after an addition, on plain bytes: `binary` is the sum
/// modulo 256 with its two carries, `result` is `binary` plus `0x60` where
/// the high digit is corrected and `0x06` where the low digit is.
proof fn lemma_adjusted_sum(
    a: u8,
    operand: u8,
    extra: u8,
    binary: u8,
    half: bool,
    carry: bool,
    result: u8,
)
    requires
        is_packed_decimal(a),
        is_packed_decimal(operand),
        extra <= 1,
        binary == (a + operand + extra) % 256,
        half <==> a % 16 + operand % 16 + extra > 15,
        carry <==> a + operand + extra > 255,
        result == (binary + 0x60 * bit_value(carry || binary > 0x99) + 0x06 * bit_value(
            half || binary % 16 > 9,
        )) % 256,
    ensures
        is_packed_decimal(result),
        decimal_value(result) == (decimal_value(a) + decimal_value(operand) + extra) % 100,
        carry || binary > 0x99 <==> decimal_value(a) + decimal_value(operand) + extra >= 100,
{
    let high: u8 = if carry || binary > 0x99 { 0x60 } else { 0 };
    let low: u8 = if half || binary % 16 > 9 { 0x06 } else { 0 };
    assert({
        &&& a / 16 <= 9 && a % 16 <= 9
        &&& operand / 16 <= 9 && operand % 16 <= 9
        &&& extra <= 1
        &&& binary == (a + operand + extra) % 256
        &&& (half <==> a % 16 + operand % 16 + extra > 15)
        &&& (carry <==> a + operand + extra > 255)
        &&& (high == 0x60 || high == 0)
        &&& (high == 0x60 <==> carry || binary > 0x99)
        &&& (low == 0x06 || low == 0)
        &&& (low == 0x06 <==> half || binary % 16 > 9)
        &&& result == (binary + high + low) % 256
    } ==> {
        &&& result / 16 <= 9 && result % 16 <= 9
        &&& 10 * (result / 16) + result % 16 == (10 * (a / 16) + a % 16 + 10 * (operand / 16)
            + operand % 16 + extra) % 100
        &&& (high == 0x60 <==> 10 * (a / 16) + a % 16 + 10 * (operand / 16) + operand % 16 + extra
            >= 100)
    }) by (bit_vector);
}

/// The adjustment after a subtraction, on plain bytes: `binary` is the
/// difference modulo 256 with its two borrows, `result` is `binary` minus
/// `0x60` where the subtraction borrowed and `0x06` where its low nibble did.
/// Each remainder is taken after adding the modulus, so that no intermediate
/// value is negative.
proof fn lemma_adjusted_difference(
    a: u8,
    operand: u8,
    extra: u8,
    binary: u8,
    half: bool,
    carry: bool,
    result: u8,
)
    requires
        is_packed_decimal(a),
        is_packed_decimal(operand),
        extra <= 1,
        binary == (256 + a - operand - extra) % 256,
        half <==> a % 16 < operand % 16 + extra,
        carry <==> a < operand + extra,
        result == (256 + binary - 0x60 * bit_value(carry) - 0x06 * bit_value(half)) % 256,
    ensures
        is_packed_decimal(result),
        decimal_value(result) == (100 + decimal_value(a) - decimal_value(operand) - extra) % 100,
        carry <==> decimal_value(a) < decimal_value(operand) + extra,
{
    let high: u8 = if carry { 0x60 } else { 0 };
    let low: u8 = if half { 0x06 } else { 0 };
    assert({
        &&& a / 16 <= 9 && a % 16 <= 9
        &&& operand / 16 <= 9 && operand % 16 <= 9
        &&& extra <= 1
        &&& binary == (256 + a - operand - extra) % 256
        &&& (half <==> a % 16 < operand % 16 + extra)
        &&& (carry <==> a < operand + extra)
        &&& (high == 0x60 || high == 0)
        &&& (high == 0x60 <==> carry)
        &&& (low == 0x06 || low == 0)
        &&& (low == 0x06 <==> half)
        &&& result == (256 + binary - high - low) % 256
    } ==> {
        &&& result / 16 <= 9 && result % 16 <= 9
        &&& 10 * (result / 16) + result % 16 == (100 + 10 * (a / 16) + a % 16 - 10 * (operand
            / 16) - operand % 16 - extra) % 100
        &&& (carry <==> 10 * (a / 16) + a % 16 < 10 * (operand / 16) + operand % 16 + extra)
    }) by (bit_vector);
}

/// Adding two packed decimals and a carry-in, then adjusting, gives the
/// packed decimal of their sum modulo 100, with carry set exactly when the
/// sum reaches 100.
pub proof fn lemma_daa_after_add(a: u8, operand: u8, carry_in: bool)
    requires
        is_packed_decimal(a),
        is_packed_decimal(operand),
    ensures
        ({
            let sum = decimal_value(a) + decimal_value(operand) + bit_value(carry_in);
            let added = spec_add8(a, operand, carry_in);
            let adjusted = spec_daa(added.0, added.1);
            &&& is_packed_decimal(adjusted.0)
            &&& decimal_value(adjusted.0) == sum % 100
            &&& adjusted.1.carry == (sum >= 100)
        }),
{
    let extra: u8 = if carry_in { 1 } else { 0 };
    let added = spec_add8(a, operand, carry_in);
    let adjusted = spec_daa(added.0, added.1);
    lemma_adjusted_sum(
        a,
        operand,
        extra,
        added.0,
        added.1.half_carry,
        added.1.carry,
        adjusted.0,
    );
}

/// Subtracting a packed decimal and a borrow-in from a packed decimal, then
/// adjusting, gives the packed decimal of their difference modulo 100, with
/// carry set exactly when the difference is negative.
pub proof fn lemma_daa_after_sub(a: u8, operand: u8, borrow_in: bool)
    requires
        is_packed_decimal(a),
        is_packed_decimal(operand),
    ensures
        ({
            let difference = decimal_value(a) - decimal_value(operand) - bit_value(borrow_in);
            let subtracted = spec_sub8(a, operand, borrow_in);
            let adjusted = spec_daa(subtracted.0, subtracted.1);
            &&& is_packed_decimal(adjusted.0)
            &&& decimal_value(adjusted.0) == difference % 100
            &&& adjusted.1.carry == (difference < 0)
        }),
{
    let extra: u8 = if borrow_in { 1 } else { 0 };
    let subtracted = spec_sub8(a, operand, borrow_in);
    let binary = subtracted.0;
    let half = subtracted.1.half_carry;
    let carry = subtracted.1.carry;
    let adjusted = spec_daa(binary, subtracted.1);
    let correction = 0x60 * bit_value(carry) + 0x06 * bit_value(half);
    let difference = decimal_value(a) - decimal_value(operand) - extra;
    lemma_mod_add_multiples_vanish(a - operand - extra, 256);
    lemma_mod_add_multiples_vanish(binary - correction, 256);
    lemma_mod_add_multiples_vanish(difference, 100);
    lemma_adjusted_difference(a, operand, extra, binary, half, carry, adjusted.0);
}

/// On the engine: `ADD` of a packed decimal to a packed decimal accumulator,
/// followed by `DAA`, leaves in the accumulator the packed decimal of the sum
/// modulo 100, and in the carry flag whether the sum reached 100.
pub proof fn lemma_add_then_daa(cpu: CPU, target: RegisterTarget)
    requires
        is_packed_decimal(cpu.registers.a),
        is_packed_decimal(cpu.registers.read8(target)),
    ensures
        ({
            let sum = decimal_value(cpu.registers.a) + decimal_value(cpu.registers.read8(target));
            let end = cpu.spec_execute(Instructions::ADD(target)).spec_execute(Instructions::DAA);
            &&& is_packed_decimal(end.registers.a)
            &&& decimal_value(end.registers.a) == sum % 100
            &&& end.registers.f.carry == (sum >= 100)
        }),
{
    lemma_daa_after_add(cpu.registers.a, cpu.registers.read8(target), false);
}

/// On the engine: `SUB` of a packed decimal from a packed decimal
/// accumulator, followed by `DAA`, leaves in the accumulator the packed
/// decimal of the difference modulo 100, and in the carry flag whether the
/// difference is negative.
pub proof fn lemma_sub_then_daa(cpu: CPU, target: RegisterTarget)
    requires
        is_packed_decimal(cpu.registers.a),
        is_packed_decimal(cpu.registers.read8(target)),
    ensures
        ({
            let difference = decimal_value(cpu.registers.a) - decimal_value(
                cpu.registers.read8(target),
            );
            let end = cpu.spec_execute(Instructions::SUB(target)).spec_execute(Instructions::DAA);
            &&& is_packed_decimal(end.registers.a)
            &&& decimal_value(end.registers.a) == difference % 100
            &&& end.registers.f.carry == (difference < 0)
        }),
{
    lemma_daa_after_sub(cpu.registers.a, cpu.registers.read8(target), false);
}

} // verus!
