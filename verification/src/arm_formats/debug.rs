use vstd::prelude::*;
use crate::bits::{bit, bits, get_bit, get_bits};

verus! {

/// The emulator's debug-print pseudo instruction.
#[derive(Clone, Copy, Debug, PartialEq, Eq, Structural)]
pub struct Debug {
    pub source_register: u8,
    pub immidiete: bool,
    pub hex: bool,
}

impl Debug {
    /// The fields that an instruction word holds.
    pub open spec fn decoded_from(value: u32) -> Debug {
        Debug { source_register: bits(value, 0, 4) as u8, immidiete: bit(value, 8), hex: bit(value, 9) }
    }

    /// Decodes an instruction word.
    pub fn from(value: u32) -> (d: Debug)
        ensures
            d == Debug::decoded_from(value),
    {
        Debug {
            source_register: get_bits(value, 0, 4) as u8,
            immidiete: get_bit(value, 8),
            hex: get_bit(value, 9),
        }
    }
}

} // verus!
