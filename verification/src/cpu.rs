//! The execution engine and the state it owns.

pub mod alu;
pub mod instructions;
pub mod laws;
pub mod registers;

use vstd::prelude::*;
use crate::cpu::alu::{
    accumulator_rotate_flags, register_shift_flags, spec_add16, spec_add8, spec_and8, spec_ccf,
    spec_cpl, spec_daa, spec_dec8, spec_inc8, spec_or8, spec_reset_bit, spec_scf, spec_set_bit,
    spec_shift8, spec_sub8, spec_swap8, spec_test_bit, spec_xor8, Shift,
};
use crate::cpu::instructions::{Instructions, RegisterTarget, VirtualRegisterTarget};
use crate::cpu::registers::{FlagsRegister, Registers};

verus! {

/// The processor: a register file on which operations are executed one at a time.
#[derive(Copy, Clone, Debug, PartialEq, Eq, Structural)]
pub struct CPU {
    pub registers: Registers,
}

impl CPU {
    /// The state with the flags replaced.
    pub open spec fn with_flags(self, flags: FlagsRegister) -> CPU {
        CPU { registers: Registers { f: flags, ..self.registers } }
    }

    /// The state with one register and the flags replaced.
    pub open spec fn with_result(self, target: RegisterTarget, out: (u8, FlagsRegister)) -> CPU {
        CPU { registers: Registers { f: out.1, ..self.registers.write8(target, out.0) } }
    }

    /// The state after a rotate of the accumulator.
    pub open spec fn with_accumulator_rotated(self, kind: Shift) -> CPU {
        let (result, carry_out) = spec_shift8(kind, self.registers.a, self.registers.f.carry);
        self.with_result(RegisterTarget::A, (result, accumulator_rotate_flags(carry_out)))
    }

    /// The state after a shift or rotate of a register.
    pub open spec fn with_register_shifted(self, kind: Shift, target: RegisterTarget) -> CPU {
        let (result, carry_out) = spec_shift8(
            kind,
            self.registers.read8(target),
            self.registers.f.carry,
        );
        self.with_result(target, (result, register_shift_flags(result, carry_out)))
    }

    /// The state after one operation.
    ///
    /// Arithmetic and logic on the accumulator store into the accumulator;
    /// increments, decrements, bit operations and shifts store into the
    /// register they name; a comparison and a bit test change the flags only;
    /// clearing and setting a bit change no flag.
    pub open spec fn spec_execute(self, instruction: Instructions) -> CPU {
        let r = self.registers;
        let a = r.a;
        let f = r.f;
        match instruction {
            Instructions::ADD(target) => self.with_result(
                RegisterTarget::A,
                spec_add8(a, r.read8(target), false),
            ),
            Instructions::ADDHL(target) => {
                let (result, flags) = spec_add16(r.hl() as u16, r.read16(target) as u16);
                CPU { registers: Registers { f: flags, ..r.with_hl(result) } }
            },
            Instructions::ADC(target) => self.with_result(
                RegisterTarget::A,
                spec_add8(a, r.read8(target), f.carry),
            ),
            Instructions::SUB(target) => self.with_result(
                RegisterTarget::A,
                spec_sub8(a, r.read8(target), false),
            ),
            Instructions::SBC(target) => self.with_result(
                RegisterTarget::A,
                spec_sub8(a, r.read8(target), f.carry),
            ),
            Instructions::AND(target) => self.with_result(
                RegisterTarget::A,
                spec_and8(a, r.read8(target)),
            ),
            Instructions::OR(target) => self.with_result(
                RegisterTarget::A,
                spec_or8(a, r.read8(target)),
            ),
            Instructions::XOR(target) => self.with_result(
                RegisterTarget::A,
                spec_xor8(a, r.read8(target)),
            ),
            Instructions::CP(target) => self.with_flags(spec_sub8(a, r.read8(target), false).1),
            Instructions::INC(target) => self.with_result(
                target,
                spec_inc8(r.read8(target), f.carry),
            ),
            Instructions::DEC(target) => self.with_result(
                target,
                spec_dec8(r.read8(target), f.carry),
            ),
            Instructions::CCF => self.with_flags(spec_ccf(f)),
            Instructions::SCF => self.with_flags(spec_scf(f)),
            Instructions::RRA => self.with_accumulator_rotated(Shift::RightThroughCarry),
            Instructions::RLA => self.with_accumulator_rotated(Shift::LeftThroughCarry),
            Instructions::RRCA => self.with_accumulator_rotated(Shift::RightCircular),
            Instructions::RRLA => self.with_accumulator_rotated(Shift::LeftCircular),
            Instructions::CPL => self.with_result(RegisterTarget::A, spec_cpl(a, f)),
            Instructions::DAA => self.with_result(RegisterTarget::A, spec_daa(a, f)),
            Instructions::BIT(target, position) => self.with_flags(
                spec_test_bit(r.read8(target), position, f.carry),
            ),
            Instructions::RESET(target, position) => CPU {
                registers: r.write8(target, spec_reset_bit(r.read8(target), position)),
            },
            Instructions::SET(target, position) => CPU {
                registers: r.write8(target, spec_set_bit(r.read8(target), position)),
            },
            Instructions::SRL(target) => self.with_register_shifted(Shift::RightLogical, target),
            Instructions::RR(target) => self.with_register_shifted(
                Shift::RightThroughCarry,
                target,
            ),
            Instructions::RL(target) => self.with_register_shifted(Shift::LeftThroughCarry, target),
            Instructions::RRC(target) => self.with_register_shifted(Shift::RightCircular, target),
            Instructions::RLC(target) => self.with_register_shifted(Shift::LeftCircular, target),
            Instructions::SRA(target) => self.with_register_shifted(
                Shift::RightArithmetic,
                target,
            ),
            Instructions::SLA(target) => self.with_register_shifted(Shift::Left, target),
            Instructions::SWAP(target) => self.with_result(
                target,
                spec_swap8(r.read8(target)),
            ),
        }
    }

    /// The processor as it is after a reset.
    pub fn new() -> (cpu: CPU)
        ensures
            cpu.registers == (Registers {
                a: 0,
                b: 0,
                c: 0,
                d: 0,
                e: 0,
                f: FlagsRegister { zero: false, subtract: false, half_carry: false, carry: false },
                h: 0,
                l: 0,
            }),
    {
        CPU { registers: Registers::new() }
    }

    /// Executes one operation: the registers and flags afterwards are those
    /// that `spec_execute` gives for the registers and flags before.
    pub fn execute(&mut self, instruction: Instructions)
        ensures
            *final(self) == old(self).spec_execute(instruction),
    {
        // Naming the variants makes the solver settle the operation first
        // and look at one arm at a time.
        assert(instruction is ADD || instruction is ADC || instruction is SUB || instruction is SBC
            || instruction is AND || instruction is OR || instruction is XOR || instruction is CP
            || instruction is INC || instruction is DEC || instruction is ADDHL
            || instruction is CCF || instruction is SCF || instruction is RRA
            || instruction is RLA || instruction is RRCA || instruction is RRLA
            || instruction is CPL || instruction is DAA || instruction is BIT
            || instruction is RESET || instruction is SET || instruction is SRL
            || instruction is RR || instruction is RL || instruction is RRC || instruction is RLC
            || instruction is SRA || instruction is SLA || instruction is SWAP);
        match instruction {
            Instructions::ADD(target) => {
                let register_value = self.get_target_register(&target);
                let (result, flags) = alu::add8(self.registers.a, register_value, false);
                self.store_result(RegisterTarget::A, (result, flags));
            },
            Instructions::ADDHL(target) => {
                let register_value = match target {
                    VirtualRegisterTarget::BC => self.registers.get_bc(),
                    VirtualRegisterTarget::DE => self.registers.get_de(),
                    VirtualRegisterTarget::HL => self.registers.get_hl(),
                    VirtualRegisterTarget::SP => 0,
                };
                let hl = self.registers.get_hl();
                let (result, flags) = alu::add16(hl, register_value);
                self.registers.f = flags;
                self.registers.set_hl(result);
            },
            Instructions::ADC(target) => {
                let register_value = self.get_target_register(&target);
                let (result, flags) = alu::add8(
                    self.registers.a,
                    register_value,
                    self.registers.f.carry,
                );
                self.store_result(RegisterTarget::A, (result, flags));
            },
            Instructions::SUB(target) => {
                let register_value = self.get_target_register(&target);
                let (result, flags) = alu::sub8(self.registers.a, register_value, false);
                self.store_result(RegisterTarget::A, (result, flags));
            },
            Instructions::SBC(target) => {
                let register_value = self.get_target_register(&target);
                let (result, flags) = alu::sub8(
                    self.registers.a,
                    register_value,
                    self.registers.f.carry,
                );
                self.store_result(RegisterTarget::A, (result, flags));
            },
            Instructions::AND(target) => {
                let register_value = self.get_target_register(&target);
                let (result, flags) = alu::and8(self.registers.a, register_value);
                self.store_result(RegisterTarget::A, (result, flags));
            },
            Instructions::OR(target) => {
                let register_value = self.get_target_register(&target);
                let (result, flags) = alu::or8(self.registers.a, register_value);
                self.store_result(RegisterTarget::A, (result, flags));
            },
            Instructions::XOR(target) => {
                let register_value = self.get_target_register(&target);
                let (result, flags) = alu::xor8(self.registers.a, register_value);
                self.store_result(RegisterTarget::A, (result, flags));
            },
            Instructions::CP(target) => {
                let register_value = self.get_target_register(&target);
                let (_, flags) = alu::sub8(self.registers.a, register_value, false);
                self.registers.f = flags;
            },
            Instructions::INC(target) => {
                let register_value = self.get_target_register(&target);
                let (result, flags) = alu::inc8(register_value, self.registers.f.carry);
                self.store_result(target, (result, flags));
            },
            Instructions::DEC(target) => {
                let register_value = self.get_target_register(&target);
                let (result, flags) = alu::dec8(register_value, self.registers.f.carry);
                self.store_result(target, (result, flags));
            },
            Instructions::CCF => {
                self.registers.f = alu::ccf(self.registers.f);
            },
            Instructions::SCF => {
                self.registers.f = alu::scf(self.registers.f);
            },
            Instructions::RRA => {
                self.rotate_accumulator(Shift::RightThroughCarry);
            },
            Instructions::RLA => {
                self.rotate_accumulator(Shift::LeftThroughCarry);
            },
            Instructions::RRCA => {
                self.rotate_accumulator(Shift::RightCircular);
            },
            Instructions::RRLA => {
                self.rotate_accumulator(Shift::LeftCircular);
            },
            Instructions::CPL => {
                let (result, flags) = alu::cpl(self.registers.a, self.registers.f);
                self.store_result(RegisterTarget::A, (result, flags));
            },
            Instructions::DAA => {
                let (result, flags) = alu::daa(self.registers.a, self.registers.f);
                self.store_result(RegisterTarget::A, (result, flags));
            },
            Instructions::BIT(target, bit_pos) => {
                let register_value = self.get_target_register(&target);
                self.registers.f = alu::test_bit(register_value, bit_pos, self.registers.f.carry);
            },
            Instructions::RESET(target, bit_pos) => {
                let register_value = self.get_target_register(&target);
                self.set_target_register(target, alu::reset_bit(register_value, bit_pos));
            },
            Instructions::SET(target, bit_pos) => {
                let register_value = self.get_target_register(&target);
                self.set_target_register(target, alu::set_bit(register_value, bit_pos));
            },
            Instructions::SRL(target) => {
                self.shift_register(Shift::RightLogical, target);
            },
            Instructions::RR(target) => {
                self.shift_register(Shift::RightThroughCarry, target);
            },
            Instructions::RL(target) => {
                self.shift_register(Shift::LeftThroughCarry, target);
            },
            Instructions::RRC(target) => {
                self.shift_register(Shift::RightCircular, target);
            },
            Instructions::RLC(target) => {
                self.shift_register(Shift::LeftCircular, target);
            },
            Instructions::SRA(target) => {
                self.shift_register(Shift::RightArithmetic, target);
            },
            Instructions::SLA(target) => {
                self.shift_register(Shift::Left, target);
            },
            Instructions::SWAP(target) => {
                let register_value = self.get_target_register(&target);
                let (result, flags) = alu::swap8(register_value);
                self.store_result(target, (result, flags));
            },
        }
    }

    /// Stores the outcome of an operation: its result into a register, its
    /// flags into the flags register.
    fn store_result(&mut self, target: RegisterTarget, out: (u8, FlagsRegister))
        ensures
            *final(self) == old(self).with_result(target, out),
    {
        self.registers.f = out.1;
        self.set_target_register(target, out.0);
    }

    /// Rotates the accumulator. Of the flags only carry can come out set.
    fn rotate_accumulator(&mut self, kind: Shift)
        ensures
            *final(self) == old(self).with_accumulator_rotated(kind),
    {
        let register_value = self.get_target_register(&RegisterTarget::A);
        let (result, carry_out) = alu::shift8(kind, register_value, self.registers.f.carry);
        self.set_flags_register(false, false, carry_out, false);
        self.set_target_register(RegisterTarget::A, result);
    }

    /// Shifts or rotates a register. Zero comes from the result, carry from
    /// the bit shifted out.
    fn shift_register(&mut self, kind: Shift, target: RegisterTarget)
        ensures
            *final(self) == old(self).with_register_shifted(kind, target),
    {
        let register_value = self.get_target_register(&target);
        let (result, carry_out) = alu::shift8(kind, register_value, self.registers.f.carry);
        self.set_flags_register(result == 0, false, carry_out, false);
        self.set_target_register(target, result);
    }

    /// Reads an 8-bit register.
    pub fn get_target_register(&self, target: &RegisterTarget) -> (value: u8)
        ensures
            value == self.registers.read8(*target),
    {
        match target {
            RegisterTarget::A => self.registers.a,
            RegisterTarget::B => self.registers.b,
            RegisterTarget::C => self.registers.c,
            RegisterTarget::D => self.registers.d,
            RegisterTarget::E => self.registers.e,
            RegisterTarget::H => self.registers.h,
            RegisterTarget::L => self.registers.l,
        }
    }

    /// Writes an 8-bit register. Nothing else changes.
    pub fn set_target_register(&mut self, target: RegisterTarget, value: u8)
        ensures
            final(self).registers == old(self).registers.write8(target, value),
    {
        match target {
            RegisterTarget::A => self.registers.a = value,
            RegisterTarget::B => self.registers.b = value,
            RegisterTarget::C => self.registers.c = value,
            RegisterTarget::D => self.registers.d = value,
            RegisterTarget::E => self.registers.e = value,
            RegisterTarget::H => self.registers.h = value,
            RegisterTarget::L => self.registers.l = value,
        }
    }

    /// Replaces all four flags. Nothing else changes.
    pub fn set_flags_register(
        &mut self,
        is_zero: bool,
        did_subtract: bool,
        did_carry: bool,
        did_half_carry: bool,
    )
        ensures
            *final(self) == old(self).with_flags(
                FlagsRegister {
                    zero: is_zero,
                    subtract: did_subtract,
                    half_carry: did_half_carry,
                    carry: did_carry,
                },
            ),
    {
        self.registers.f = FlagsRegister {
            zero: is_zero,
            subtract: did_subtract,
            carry: did_carry,
            half_carry: did_half_carry,
        }
    }
}

} // verus!
