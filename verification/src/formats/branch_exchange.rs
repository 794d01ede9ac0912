use vstd::prelude::*;
use crate::bits::{bits, get_bits};
use super::common::{condition_of, Condition};

verus! {

/// A branch-and-exchange instruction.
#[derive(Clone, Copy, Debug, PartialEq, Eq, Structural)]
pub struct BranchExchange {
    pub condition: Condition,
    pub rn: u8,
}

impl BranchExchange {
    /// The fields that an instruction word holds.
    pub open spec fn decoded_from(value: u32) -> BranchExchange {
        BranchExchange { condition: condition_of(bits(value, 28, 4)), rn: bits(value, 0, 4) as u8 }
    }

    /// Decodes an instruction word.
    pub fn from(value: u32) -> (b: BranchExchange)
        ensures
            b == BranchExchange::decoded_from(value),
    {
        BranchExchange { condition: Condition::from(get_bits(value, 28, 4)), rn: get_bits(value, 0, 4) as u8 }
    }
}

} // verus!
