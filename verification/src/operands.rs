//! Operand fields decoded out of instruction bytes: 8-bit registers,
//! 16-bit register pairs, the stack variant of the pairs, and branch
//! condition codes.

use vstd::prelude::*;

verus! {

/// 8-bit operand selector, in instruction-encoding order.
/// `HLRef` stands for the memory byte addressed by `HL`.
#[derive(Clone, Copy, Debug, PartialEq, Eq, Structural)]
pub enum Reg8 {
    B,
    C,
    D,
    E,
    H,
    L,
    HLRef,
    A,
}

/// 16-bit register pair selector for loads, `INC`/`DEC` and `ADD HL`.
#[derive(Clone, Copy, Debug, PartialEq, Eq, Structural)]
pub enum Reg16 {
    BC,
    DE,
    HL,
    SP,
}

/// 16-bit register pair selector for `PUSH`/`POP`, with `AF` in place of `SP`.
#[derive(Clone, Copy, Debug, PartialEq, Eq, Structural)]
pub enum Reg16Stack {
    BC,
    DE,
    HL,
    AF,
}

/// Branch condition codes.
#[derive(Clone, Copy, Debug, PartialEq, Eq, Structural)]
pub enum ConditionCode {
    NZ,
    Z,
    NC,
    C,
}

/// The `Reg8` that a 3-bit instruction field names.
pub open spec fn spec_reg8_from_bits(bits: u8) -> Reg8 {
    match bits & 0x07 {
        0u8 => Reg8::B,
        1u8 => Reg8::C,
        2u8 => Reg8::D,
        3u8 => Reg8::E,
        4u8 => Reg8::H,
        5u8 => Reg8::L,
        6u8 => Reg8::HLRef,
        _ => Reg8::A,
    }
}

/// The `Reg16` that a 2-bit instruction field names.
pub open spec fn spec_reg16_from_bits(bits: u8) -> Reg16 {
    match bits & 0x03 {
        0u8 => Reg16::BC,
        1u8 => Reg16::DE,
        2u8 => Reg16::HL,
        _ => Reg16::SP,
    }
}

/// The `Reg16Stack` that a 2-bit instruction field names.
pub open spec fn spec_reg16_stack_from_bits(bits: u8) -> Reg16Stack {
    match bits & 0x03 {
        0u8 => Reg16Stack::BC,
        1u8 => Reg16Stack::DE,
        2u8 => Reg16Stack::HL,
        _ => Reg16Stack::AF,
    }
}

/// The `ConditionCode` that a 2-bit instruction field names.
pub open spec fn spec_condition_from_bits(bits: u8) -> ConditionCode {
    match bits & 0x03 {
        0u8 => ConditionCode::NZ,
        1u8 => ConditionCode::Z,
        2u8 => ConditionCode::NC,
        _ => ConditionCode::C,
    }
}

impl Reg8 {
    /// Decode a 3-bit register field.
    pub fn from_bits(bits: u8) -> (r: Reg8)
        ensures
            r == spec_reg8_from_bits(bits),
    {
        match bits & 0x07 {
            0 => Reg8::B,
            1 => Reg8::C,
            2 => Reg8::D,
            3 => Reg8::E,
            4 => Reg8::H,
            5 => Reg8::L,
            6 => Reg8::HLRef,
            _ => Reg8::A,
        }
    }
}

impl Reg16 {
    /// Decode a 2-bit register pair field.
    pub fn from_bits(bits: u8) -> (r: Reg16)
        ensures
            r == spec_reg16_from_bits(bits),
    {
        match bits & 0x03 {
            0 => Reg16::BC,
            1 => Reg16::DE,
            2 => Reg16::HL,
            _ => Reg16::SP,
        }
    }
}

impl Reg16Stack {
    /// Decode a 2-bit register pair field for stack operations.
    pub fn from_bits(bits: u8) -> (r: Reg16Stack)
        ensures
            r == spec_reg16_stack_from_bits(bits),
    {
        match bits & 0x03 {
            0 => Reg16Stack::BC,
            1 => Reg16Stack::DE,
            2 => Reg16Stack::HL,
            _ => Reg16Stack::AF,
        }
    }
}

impl ConditionCode {
    /// Decode a 2-bit condition field.
    pub fn from_bits(bits: u8) -> (r: ConditionCode)
        ensures
            r == spec_condition_from_bits(bits),
    {
        match bits & 0x03 {
            0 => ConditionCode::NZ,
            1 => ConditionCode::Z,
            2 => ConditionCode::NC,
            _ => ConditionCode::C,
        }
    }
}

} // verus!
