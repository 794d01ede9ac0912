use vstd::prelude::*;
use crate::bits::{bit, bits, get_bit, get_bits};
use crate::cpu::condition::{condition_of, Condition};

verus! {

/// A swap (SWP/SWPB) instruction.
#[derive(Clone, Copy, Debug, PartialEq, Eq, Structural)]
pub struct SingleDataSwap {
    pub source_register: u8,
    pub destination_register: u8,
    pub base_register: u8,
    pub byte: bool,
    pub condition: Condition,
}

impl SingleDataSwap {
    /// The fields that an instruction word holds; bit 22 selects a byte swap.
    pub open spec fn decoded_from(value: u32) -> SingleDataSwap {
        SingleDataSwap {
            source_register: bits(value, 0, 4) as u8,
            destination_register: bits(value, 12, 4) as u8,
            base_register: bits(value, 16, 4) as u8,
            byte: bit(value, 22),
            condition: condition_of(bits(value, 28, 4)),
        }
    }

    /// Decodes an instruction word.
    pub fn from(value: u32) -> (s: SingleDataSwap)
        ensures
            s == SingleDataSwap::decoded_from(value),
    {
        SingleDataSwap {
            source_register: get_bits(value, 0, 4) as u8,
            destination_register: get_bits(value, 12, 4) as u8,
            base_register: get_bits(value, 16, 4) as u8,
            byte: get_bit(value, 22),
            condition: Condition::from(get_bits(value, 28, 4)),
        }
    }
}

} // verus!
