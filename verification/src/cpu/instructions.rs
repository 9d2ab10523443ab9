//! Operation descriptors: what the decoder hands to the execution engine.

use vstd::prelude::*;

verus! {

/// One decoded operation together with its operands.
#[derive(Clone, Copy, Debug)]
pub enum Instructions {
    /// Adds a register to the accumulator.
    ADD(RegisterTarget),
    /// Adds a register pair to HL.
    ADDHL(VirtualRegisterTarget),
    /// Adds a register and the carry flag to the accumulator.
    ADC(RegisterTarget),
    /// Subtracts a register from the accumulator.
    SUB(RegisterTarget),
    /// Subtracts a register and the carry flag from the accumulator.
    SBC(RegisterTarget),
    /// Bitwise AND of a register into the accumulator.
    AND(RegisterTarget),
    /// Bitwise OR of a register into the accumulator.
    OR(RegisterTarget),
    /// Bitwise XOR of a register into the accumulator.
    XOR(RegisterTarget),
    /// Compares a register with the accumulator: a subtraction whose result is dropped.
    CP(RegisterTarget),
    /// Increments a register.
    INC(RegisterTarget),
    /// Decrements a register.
    DEC(RegisterTarget),
    /// Toggles the carry flag.
    CCF,
    /// Sets the carry flag.
    SCF,
    /// Rotates the accumulator right through the carry flag.
    RRA,
    /// Rotates the accumulator left through the carry flag.
    RLA,
    /// Rotates the accumulator right, circularly.
    RRCA,
    /// Rotates the accumulator left, circularly.
    RRLA,
    /// Complements the accumulator.
    CPL,
    /// Decimal-adjusts the accumulator after an addition or subtraction of packed decimals.
    DAA,
    /// Tests one bit of a register.
    BIT(RegisterTarget, BitPosition),
    /// Clears one bit of a register.
    RESET(RegisterTarget, BitPosition),
    /// Sets one bit of a register.
    SET(RegisterTarget, BitPosition),
    /// Shifts a register right, filling with zero.
    SRL(RegisterTarget),
    /// Rotates a register right through the carry flag.
    RR(RegisterTarget),
    /// Rotates a register left through the carry flag.
    RL(RegisterTarget),
    /// Rotates a register right, circularly.
    RRC(RegisterTarget),
    /// Rotates a register left, circularly.
    RLC(RegisterTarget),
    /// Shifts a register right, keeping its top bit.
    SRA(RegisterTarget),
    /// Shifts a register left, filling with zero.
    SLA(RegisterTarget),
    /// Exchanges the two nibbles of a register.
    SWAP(RegisterTarget),
}

/// Selects one of the seven 8-bit registers.
#[derive(Clone, Copy, Debug, PartialEq, Eq, Structural)]
pub enum RegisterTarget {
    A,
    B,
    C,
    D,
    E,
    H,
    L,
}

/// Selects a 16-bit operand. The stack pointer is not held by this core and
/// contributes zero wherever it is named.
#[derive(Clone, Copy, Debug, PartialEq, Eq, Structural)]
pub enum VirtualRegisterTarget {
    BC,
    DE,
    HL,
    SP,
}

/// Index of a bit within a byte, bit 0 being the least significant.
#[derive(Clone, Copy, Debug, PartialEq, Eq, Structural)]
pub enum BitPosition {
    B0,
    B1,
    B2,
    B3,
    B4,
    B5,
    B6,
    B7,
}

impl BitPosition {
    /// The index of the bit, from 0 to 7.
    pub open spec fn index(self) -> u8 {
        match self {
            BitPosition::B0 => 0,
            BitPosition::B1 => 1,
            BitPosition::B2 => 2,
            BitPosition::B3 => 3,
            BitPosition::B4 => 4,
            BitPosition::B5 => 5,
            BitPosition::B6 => 6,
            BitPosition::B7 => 7,
        }
    }

    /// The byte in which only this bit is set.
    pub open spec fn mask(self) -> u8 {
        match self {
            BitPosition::B0 => 0x01,
            BitPosition::B1 => 0x02,
            BitPosition::B2 => 0x04,
            BitPosition::B3 => 0x08,
            BitPosition::B4 => 0x10,
            BitPosition::B5 => 0x20,
            BitPosition::B6 => 0x40,
            BitPosition::B7 => 0x80,
        }
    }
}

impl vstd::std_specs::convert::FromSpecImpl<BitPosition> for u8 {
    open spec fn obeys_from_spec() -> bool {
        true
    }

    open spec fn from_spec(position: BitPosition) -> u8 {
        position.index()
    }
}

impl From<BitPosition> for u8 {
    fn from(position: BitPosition) -> (index: u8)
        ensures
            index == position.index(),
            index <= 7,
    {
        match position {
            BitPosition::B0 => 0,
            BitPosition::B1 => 1,
            BitPosition::B2 => 2,
            BitPosition::B3 => 3,
            BitPosition::B4 => 4,
            BitPosition::B5 => 5,
            BitPosition::B6 => 6,
            BitPosition::B7 => 7,
        }
    }
}

} // verus!
