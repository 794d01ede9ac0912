use vstd::prelude::*;
use crate::bits::{bit, bits, get_bit, get_bits};
use crate::cpu::condition::{condition_of, Condition};

verus! {

/// A multiply (MUL/MLA) instruction.
#[derive(Clone, Copy, Debug, PartialEq, Eq, Structural)]
pub struct Multiply {
    pub condition: Condition,
    pub accumulate: bool,
    pub set_condition: bool,
    pub destination_register: u8,
    pub op3_register: u8,
    pub op2_register: u8,
    pub op1_register: u8,
}

impl Multiply {
    /// The fields that an instruction word holds.
    pub open spec fn decoded_from(value: u32) -> Multiply {
        Multiply {
            condition: condition_of(bits(value, 28, 4)),
            accumulate: bit(value, 21),
            set_condition: bit(value, 20),
            destination_register: bits(value, 16, 4) as u8,
            op3_register: bits(value, 12, 4) as u8,
            op2_register: bits(value, 8, 4) as u8,
            op1_register: bits(value, 0, 4) as u8,
        }
    }

    /// Decodes an instruction word.
    pub fn from(value: u32) -> (m: Multiply)
        ensures
            m == Multiply::decoded_from(value),
    {
        Multiply {
            condition: Condition::from(get_bits(value, 28, 4)),
            accumulate: get_bit(value, 21),
            set_condition: get_bit(value, 20),
            destination_register: get_bits(value, 16, 4) as u8,
            op3_register: get_bits(value, 12, 4) as u8,
            op2_register: get_bits(value, 8, 4) as u8,
            op1_register: get_bits(value, 0, 4) as u8,
        }
    }
}

} // verus!
