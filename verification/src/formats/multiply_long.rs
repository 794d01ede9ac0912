use vstd::prelude::*;
use crate::bits::{bit, bits, get_bit, get_bits};
use super::common::{condition_of, Condition};

verus! {

/// A long multiply (UMULL/SMULL/UMLAL/SMLAL) instruction.
#[derive(Clone, Copy, Debug, PartialEq, Eq, Structural)]
pub struct MultiplyLong {
    pub condition: Condition,
    pub unsigned: bool,
    pub accumulate: bool,
    pub set_condition: bool,
    pub destination_register_hi: u8,
    pub destination_register_lo: u8,
    pub op2_register: u8,
    pub op1_register: u8,
}

impl MultiplyLong {
    /// The fields that an instruction word holds; bit 22 clear means unsigned.
    pub open spec fn decoded_from(value: u32) -> MultiplyLong {
        MultiplyLong {
            condition: condition_of(bits(value, 28, 4)),
            unsigned: !bit(value, 22),
            accumulate: bit(value, 21),
            set_condition: bit(value, 20),
            destination_register_hi: bits(value, 16, 4) as u8,
            destination_register_lo: bits(value, 12, 4) as u8,
            op2_register: bits(value, 8, 4) as u8,
            op1_register: bits(value, 0, 4) as u8,
        }
    }

    /// Decodes an instruction word.
    pub fn from(value: u32) -> (m: MultiplyLong)
        ensures
            m == MultiplyLong::decoded_from(value),
    {
        MultiplyLong {
            condition: Condition::from(get_bits(value, 28, 4)),
            unsigned: !get_bit(value, 22),
            accumulate: get_bit(value, 21),
            set_condition: get_bit(value, 20),
            destination_register_hi: get_bits(value, 16, 4) as u8,
            destination_register_lo: get_bits(value, 12, 4) as u8,
            op2_register: get_bits(value, 8, 4) as u8,
            op1_register: get_bits(value, 0, 4) as u8,
        }
    }
}

} // verus!
