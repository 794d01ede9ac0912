use vstd::prelude::*;
use crate::bits::{bit, bits, get_bit, get_bits};
use super::common::{condition_of, Condition};

verus! {

/// A branch instruction as this decoder reads it: the offset is bits 3..0.
#[derive(Clone, Copy, Debug, PartialEq, Eq, Structural)]
pub struct Branch {
    pub condition: Condition,
    pub link: bool,
    pub offset: u32,
}

impl Branch {
    /// The fields that an instruction word holds.
    pub open spec fn decoded_from(value: u32) -> Branch {
        Branch {
            offset: bits(value, 0, 4),
            link: bit(value, 24),
            condition: condition_of(bits(value, 28, 4)),
        }
    }

    /// Decodes an instruction word.
    pub fn from(value: u32) -> (b: Branch)
        ensures
            b == Branch::decoded_from(value),
    {
        Branch {
            offset: get_bits(value, 0, 4),
            link: get_bit(value, 24),
            condition: Condition::from(get_bits(value, 28, 4)),
        }
    }
}

} // verus!
