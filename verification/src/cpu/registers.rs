//! The register file and the flags register.

use vstd::prelude::*;
use crate::cpu::instructions::{RegisterTarget, VirtualRegisterTarget};

verus! {

/// The four status flags.
///
/// As a byte the flags occupy the high nibble: zero is bit 7, subtract bit 6,
/// half-carry bit 5 and carry bit 4. The low nibble of that byte is always zero.
#[derive(Copy, Clone, Debug, PartialEq, Eq, Structural)]
pub struct FlagsRegister {
    pub zero: bool,
    pub subtract: bool,
    pub half_carry: bool,
    pub carry: bool,
}

impl FlagsRegister {
    /// The packed byte: each flag that is set contributes the weight of its bit.
    pub open spec fn to_byte(self) -> u8 {
        ((if self.zero { 128int } else { 0 })
            + (if self.subtract { 64int } else { 0 })
            + (if self.half_carry { 32int } else { 0 })
            + (if self.carry { 16int } else { 0 })) as u8
    }

    /// The flags that a byte stands for. Bits 0 to 3 of the byte play no part.
    pub open spec fn from_byte(byte: u8) -> FlagsRegister {
        FlagsRegister {
            zero: (byte / 128) % 2 == 1,
            subtract: (byte / 64) % 2 == 1,
            half_carry: (byte / 32) % 2 == 1,
            carry: (byte / 16) % 2 == 1,
        }
    }

    /// The flags as they are after a reset: all clear.
    pub fn new() -> (flags: FlagsRegister)
        ensures
            flags == (FlagsRegister { zero: false, subtract: false, half_carry: false, carry: false }),
            flags.to_byte() == 0,
    {
        FlagsRegister { zero: false, subtract: false, half_carry: false, carry: false }
    }
}

impl vstd::std_specs::convert::FromSpecImpl<FlagsRegister> for u8 {
    open spec fn obeys_from_spec() -> bool {
        true
    }

    open spec fn from_spec(flag: FlagsRegister) -> u8 {
        flag.to_byte()
    }
}

impl From<FlagsRegister> for u8 {
    /// Packs the flags into a byte.
    fn from(flag: FlagsRegister) -> (byte: u8)
        ensures
            byte == flag.to_byte(),
            byte & 0x0F == 0,
    {
        let z: u8 = if flag.zero { 1 } else { 0 };
        let n: u8 = if flag.subtract { 1 } else { 0 };
        let h: u8 = if flag.half_carry { 1 } else { 0 };
        let c: u8 = if flag.carry { 1 } else { 0 };
        assert((z << 7 | n << 6 | h << 5 | c << 4) == 128 * z + 64 * n + 32 * h + 16 * c
            && (z << 7 | n << 6 | h << 5 | c << 4) & 0x0F == 0) by (bit_vector)
            requires
                z <= 1,
                n <= 1,
                h <= 1,
                c <= 1,
        ;
        z << 7 | n << 6 | h << 5 | c << 4
    }
}

impl vstd::std_specs::convert::FromSpecImpl<u8> for FlagsRegister {
    open spec fn obeys_from_spec() -> bool {
        true
    }

    open spec fn from_spec(byte: u8) -> FlagsRegister {
        FlagsRegister::from_byte(byte)
    }
}

impl From<u8> for FlagsRegister {
    /// Unpacks a byte into flags, ignoring its low nibble.
    fn from(byte: u8) -> (flags: FlagsRegister)
        ensures
            flags == FlagsRegister::from_byte(byte),
    {
        assert((((byte >> 7) & 1) != 0) == ((byte / 128) % 2 == 1)
            && (((byte >> 6) & 1) != 0) == ((byte / 64) % 2 == 1)
            && (((byte >> 5) & 1) != 0) == ((byte / 32) % 2 == 1)
            && (((byte >> 4) & 1) != 0) == ((byte / 16) % 2 == 1)) by (bit_vector);
        FlagsRegister {
            zero: ((byte >> 7) & 1) != 0,
            subtract: ((byte >> 6) & 1) != 0,
            half_carry: ((byte >> 5) & 1) != 0,
            carry: ((byte >> 4) & 1) != 0,
        }
    }
}

/// Splitting a 16-bit value with a mask and a shift gives its quotient and
/// remainder by 256.
proof fn lemma_split_u16(value: u16)
    ensures
        (value & 0xFF00) >> 8 == value / 256,
        value & 0xFF == value % 256,
        value / 256 < 256,
        value % 256 < 256,
{
    assert((value & 0xFF00) >> 8 == value / 256 && value & 0xFF == value % 256) by (bit_vector);
}

/// Joining two bytes with a shift and an OR gives `high * 256 + low`.
proof fn lemma_join_u8(high: u8, low: u8)
    ensures
        (high as u16) << 8 | (low as u16) == high * 256 + low,
{
    assert((high as u16) << 8 | (low as u16) == high * 256 + low) by (bit_vector);
}

/// The register file: seven 8-bit registers and the flags.
///
/// The 16-bit pairs AF, BC, DE and HL are not stored. Each is read off the
/// two 8-bit halves, high byte first, and written back into them.
#[derive(Copy, Clone, Debug, PartialEq, Eq, Structural)]
pub struct Registers {
    /// The accumulator.
    pub a: u8,
    pub b: u8,
    pub c: u8,
    pub d: u8,
    pub e: u8,
    /// The flags.
    pub f: FlagsRegister,
    pub h: u8,
    pub l: u8,
}

impl Registers {
    /// The value of an 8-bit register.
    pub open spec fn read8(self, target: RegisterTarget) -> u8 {
        match target {
            RegisterTarget::A => self.a,
            RegisterTarget::B => self.b,
            RegisterTarget::C => self.c,
            RegisterTarget::D => self.d,
            RegisterTarget::E => self.e,
            RegisterTarget::H => self.h,
            RegisterTarget::L => self.l,
        }
    }

    /// The register file with one 8-bit register replaced.
    pub open spec fn write8(self, target: RegisterTarget, value: u8) -> Registers {
        match target {
            RegisterTarget::A => Registers { a: value, ..self },
            RegisterTarget::B => Registers { b: value, ..self },
            RegisterTarget::C => Registers { c: value, ..self },
            RegisterTarget::D => Registers { d: value, ..self },
            RegisterTarget::E => Registers { e: value, ..self },
            RegisterTarget::H => Registers { h: value, ..self },
            RegisterTarget::L => Registers { l: value, ..self },
        }
    }

    /// Reading a register after a write gives the written value for the
    /// register written and the value before for every other.
    pub proof fn lemma_read8_write8(
        self,
        target: RegisterTarget,
        value: u8,
        other: RegisterTarget,
    )
        ensures
            self.write8(target, value).read8(other) == if other == target {
                value
            } else {
                self.read8(other)
            },
            self.write8(target, value).f == self.f,
    {
    }

    /// The pair AF: the accumulator above the packed flags.
    pub open spec fn af(self) -> int {
        self.a * 256 + self.f.to_byte()
    }

    /// The pair BC.
    pub open spec fn bc(self) -> int {
        self.b * 256 + self.c
    }

    /// The pair DE.
    pub open spec fn de(self) -> int {
        self.d * 256 + self.e
    }

    /// The pair HL.
    pub open spec fn hl(self) -> int {
        self.h * 256 + self.l
    }

    /// The value of a 16-bit operand. The stack pointer reads as zero.
    pub open spec fn read16(self, target: VirtualRegisterTarget) -> int {
        match target {
            VirtualRegisterTarget::BC => self.bc(),
            VirtualRegisterTarget::DE => self.de(),
            VirtualRegisterTarget::HL => self.hl(),
            VirtualRegisterTarget::SP => 0,
        }
    }

    /// The register file with AF replaced. The low nibble of the value is lost.
    pub open spec fn with_af(self, value: u16) -> Registers {
        Registers {
            a: (value / 256) as u8,
            f: FlagsRegister::from_byte((value % 256) as u8),
            ..self
        }
    }

    /// The register file with BC replaced.
    pub open spec fn with_bc(self, value: u16) -> Registers {
        Registers { b: (value / 256) as u8, c: (value % 256) as u8, ..self }
    }

    /// The register file with DE replaced.
    pub open spec fn with_de(self, value: u16) -> Registers {
        Registers { d: (value / 256) as u8, e: (value % 256) as u8, ..self }
    }

    /// The register file with HL replaced.
    pub open spec fn with_hl(self, value: u16) -> Registers {
        Registers { h: (value / 256) as u8, l: (value % 256) as u8, ..self }
    }

    /// The register file as it is after a reset: every register zero, every flag clear.
    pub fn new() -> (registers: Registers)
        ensures
            registers == (Registers {
                a: 0,
                b: 0,
                c: 0,
                d: 0,
                e: 0,
                f: FlagsRegister { zero: false, subtract: false, half_carry: false, carry: false },
                h: 0,
                l: 0,
            }),
    {
        Registers { a: 0, b: 0, c: 0, d: 0, e: 0, f: FlagsRegister::new(), h: 0, l: 0 }
    }

    /// Reads the pair AF.
    pub fn get_af(&self) -> (value: u16)
        ensures
            value == self.af(),
            value % 16 == 0,
    {
        let low: u8 = u8::from(self.f);
        proof {
            lemma_join_u8(self.a, low);
        }
        (self.a as u16) << 8 | low as u16
    }

    /// Writes the pair AF: the high byte goes to the accumulator, the high
    /// nibble of the low byte to the flags.
    pub fn set_af(&mut self, value: u16)
        ensures
            *final(self) == old(self).with_af(value),
            final(self).af() == value - value % 16,
    {
        proof {
            lemma_split_u16(value);
        }
        self.a = ((value & 0xFF00) >> 8) as u8;
        self.f = FlagsRegister::from((value & 0xFF) as u8);
    }

    /// Reads the pair BC.
    pub fn get_bc(&self) -> (value: u16)
        ensures
            value == self.bc(),
    {
        proof {
            lemma_join_u8(self.b, self.c);
        }
        (self.b as u16) << 8 | self.c as u16
    }

    /// Writes the pair BC.
    pub fn set_bc(&mut self, value: u16)
        ensures
            *final(self) == old(self).with_bc(value),
            final(self).bc() == value,
    {
        proof {
            lemma_split_u16(value);
        }
        self.b = ((value & 0xFF00) >> 8) as u8;
        self.c = (value & 0xFF) as u8;
    }

    /// Reads the pair DE.
    pub fn get_de(&self) -> (value: u16)
        ensures
            value == self.de(),
    {
        proof {
            lemma_join_u8(self.d, self.e);
        }
        (self.d as u16) << 8 | self.e as u16
    }

    /// Writes the pair DE.
    pub fn set_de(&mut self, value: u16)
        ensures
            *final(self) == old(self).with_de(value),
            final(self).de() == value,
    {
        proof {
            lemma_split_u16(value);
        }
        self.d = ((value & 0xFF00) >> 8) as u8;
        self.e = (value & 0xFF) as u8;
    }

    /// Reads the pair HL.
    pub fn get_hl(&self) -> (value: u16)
        ensures
            value == self.hl(),
    {
        proof {
            lemma_join_u8(self.h, self.l);
        }
        (self.h as u16) << 8 | self.l as u16
    }

    /// Writes the pair HL.
    pub fn set_hl(&mut self, value: u16)
        ensures
            *final(self) == old(self).with_hl(value),
            final(self).hl() == value,
    {
        proof {
            lemma_split_u16(value);
        }
        self.h = ((value & 0xFF00) >> 8) as u8;
        self.l = (value & 0xFF) as u8;
    }
}

} // verus!
