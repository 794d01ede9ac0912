use vstd::prelude::*;
use crate::bits::{bit, bits, get_bit, get_bits};
use super::common::{condition_of, Condition};

verus! {

/// A swap (SWP) instruction as this decoder reads it: the byte/word flag is
/// taken from bit 0.
#[derive(Clone, Copy, Debug, PartialEq, Eq, Structural)]
pub struct SingleDataSwap {
    pub source_register: u8,
    pub destination_register: u8,
    pub base_register: u8,
    pub byte_word: bool,
    pub condition: Condition,
}

impl SingleDataSwap {
    /// The fields that an instruction word holds.
    pub open spec fn decoded_from(value: u32) -> SingleDataSwap {
        SingleDataSwap {
            source_register: bits(value, 0, 4) as u8,
            destination_register: bits(value, 12, 4) as u8,
            base_register: bits(value, 16, 4) as u8,
            byte_word: bit(value, 0),
            condition: condition_of(bits(value, 28, 4)),
        }
    }

    /// Decodes an instruction word.
    pub fn from(value: u32) -> (s: SingleDataSwap)
        ensures
            s == SingleDataSwap::decoded_from(value),
    {
        SingleDataSwap {
            source_register: get_bits(value, 0, 4) as u8,
            destination_register: get_bits(value, 12, 4) as u8,
            base_register: get_bits(value, 16, 4) as u8,
            byte_word: get_bit(value, 0),
            condition: Condition::from(get_bits(value, 28, 4)),
        }
    }
}

} // verus!
