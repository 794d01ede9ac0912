use vstd::prelude::*;

verus! {

/// Condition field of an ARM instruction (bits 31..28).
#[derive(Debug, PartialEq, Eq, Structural, Clone, Copy)]
pub enum Condition {
    EQ,
    NE,
    CS,
    CC,
    MI,
    PL,
    VS,
    VC,
    HI,
    LS,
    GE,
    LT,
    GT,
    LE,
    AL,
    Error,
}

/// The condition that a 4-bit code names; every other value is `Error`.
pub open spec fn condition_of(value: u32) -> Condition {
    if value == 0 { Condition::EQ }
    else if value == 1 { Condition::NE }
    else if value == 2 { Condition::CS }
    else if value == 3 { Condition::CC }
    else if value == 4 { Condition::MI }
    else if value == 5 { Condition::PL }
    else if value == 6 { Condition::VS }
    else if value == 7 { Condition::VC }
    else if value == 8 { Condition::HI }
    else if value == 9 { Condition::LS }
    else if value == 10 { Condition::GE }
    else if value == 11 { Condition::LT }
    else if value == 12 { Condition::GT }
    else if value == 13 { Condition::LE }
    else if value == 14 { Condition::AL }
    else { Condition::Error }
}

impl Condition {
    /// Decodes a condition code.
    pub fn from(value: u32) -> (c: Condition)
        ensures
            c == condition_of(value),
    {
        match value {
            0 => Condition::EQ,
            1 => Condition::NE,
            2 => Condition::CS,
            3 => Condition::CC,
            4 => Condition::MI,
            5 => Condition::PL,
            6 => Condition::VS,
            7 => Condition::VC,
            8 => Condition::HI,
            9 => Condition::LS,
            10 => Condition::GE,
            11 => Condition::LT,
            12 => Condition::GT,
            13 => Condition::LE,
            14 => Condition::AL,
            _ => Condition::Error,
        }
    }
}

} // verus!
