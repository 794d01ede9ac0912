use vstd::prelude::*;
use crate::bits::{bits, get_bits};

verus! {

/// Condition field of an instruction (bits 31..28).
#[derive(Clone, Copy, Debug, PartialEq, Eq, Structural)]
pub enum Condition {
    EQ,
    NE,
    CS,
    CC,
    MI,
    PL,
    VS,
    VC,
    HI,
    LS,
    GE,
    LT,
    GT,
    LE,
    AL,
    Error,
}

/// The condition that a 4-bit code names; every other value is `Error`.
pub open spec fn condition_of(value: u32) -> Condition {
    if value == 0 { Condition::EQ }
    else if value == 1 { Condition::NE }
    else if value == 2 { Condition::CS }
    else if value == 3 { Condition::CC }
    else if value == 4 { Condition::MI }
    else if value == 5 { Condition::PL }
    else if value == 6 { Condition::VS }
    else if value == 7 { Condition::VC }
    else if value == 8 { Condition::HI }
    else if value == 9 { Condition::LS }
    else if value == 10 { Condition::GE }
    else if value == 11 { Condition::LT }
    else if value == 12 { Condition::GT }
    else if value == 13 { Condition::LE }
    else if value == 14 { Condition::AL }
    else { Condition::Error }
}

impl Condition {
    /// Decodes a condition code.
    pub fn from(value: u32) -> (c: Condition)
        ensures
            c == condition_of(value),
    {
        match value {
            0 => Condition::EQ,
            1 => Condition::NE,
            2 => Condition::CS,
            3 => Condition::CC,
            4 => Condition::MI,
            5 => Condition::PL,
            6 => Condition::VS,
            7 => Condition::VC,
            8 => Condition::HI,
            9 => Condition::LS,
            10 => Condition::GE,
            11 => Condition::LT,
            12 => Condition::GT,
            13 => Condition::LE,
            14 => Condition::AL,
            _ => Condition::Error,
        }
    }
}

/// An instruction that can be carried out.
pub trait Instruction {
    fn execute(&self);
}

/// The four shift operations of the barrel shifter.
#[derive(Clone, Copy, Debug, PartialEq, Eq, Structural)]
pub enum ShiftType {
    LogicalLeft,
    LogicalRight,
    ArithmeticRight,
    RotateRight,
    Error,
}

/// The shift that a 2-bit code names; every other value is `Error`.
pub open spec fn shift_type_of(value: u32) -> ShiftType {
    if value == 0 { ShiftType::LogicalLeft }
    else if value == 1 { ShiftType::LogicalRight }
    else if value == 2 { ShiftType::ArithmeticRight }
    else if value == 3 { ShiftType::RotateRight }
    else { ShiftType::Error }
}

impl ShiftType {
    /// Decodes a shift code.
    pub fn from(value: u32) -> (s: ShiftType)
        ensures
            s == shift_type_of(value),
    {
        match value {
            0 => ShiftType::LogicalLeft,
            1 => ShiftType::LogicalRight,
            2 => ShiftType::ArithmeticRight,
            3 => ShiftType::RotateRight,
            _ => ShiftType::Error,
        }
    }
}

/// The shift field (bits 11..4) of a register operand.
#[derive(Clone, Copy, Debug, PartialEq, Eq, Structural)]
pub struct Shift {
    pub shift_type: ShiftType,
    pub shift_amount: u8,
    pub shift_register: u8,
    pub immediate: bool,
}

impl Shift {
    /// The shift that bits 11..4 of an instruction describe. The `immediate`
    /// flag is bit 4 shifted right by five places.
    pub open spec fn decoded_from(value: u32) -> Shift {
        Shift {
            shift_type: shift_type_of(bits(value, 5, 2)),
            shift_amount: bits(value, 7, 5) as u8,
            shift_register: bits(value, 8, 4) as u8,
            immediate: ((value & 0x10u32) >> 5u32) != 0,
        }
    }

    /// Decodes the shift field of an instruction.
    pub fn from(value: u32) -> (s: Shift)
        ensures
            s == Shift::decoded_from(value),
    {
        Shift {
            shift_type: ShiftType::from(get_bits(value, 5, 2)),
            shift_amount: get_bits(value, 7, 5) as u8,
            shift_register: get_bits(value, 8, 4) as u8,
            immediate: ((value & 0x10) >> 5) != 0,
        }
    }
}

} // verus!
