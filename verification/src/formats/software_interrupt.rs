use vstd::prelude::*;
use crate::bits::{bits, get_bits};
use super::common::{condition_of, Condition};

verus! {

/// A software interrupt (SWI) instruction.
#[derive(Clone, Copy, Debug, PartialEq, Eq, Structural)]
pub struct SoftwareInterrupt {
    pub comment_field_arm: u32,
    pub comment_field_thumb: u32,
    pub condition: Condition,
}

impl SoftwareInterrupt {
    /// The fields that an instruction word holds: the ARM comment is bits
    /// 23..16 shifted down, the Thumb comment the same bits left in place.
    pub open spec fn decoded_from(value: u32) -> SoftwareInterrupt {
        SoftwareInterrupt {
            comment_field_arm: bits(value, 16, 8),
            comment_field_thumb: value & 0xFF_0000u32,
            condition: condition_of(bits(value, 28, 4)),
        }
    }

    /// Decodes an instruction word.
    pub fn from(value: u32) -> (s: SoftwareInterrupt)
        ensures
            s == SoftwareInterrupt::decoded_from(value),
    {
        SoftwareInterrupt {
            comment_field_arm: get_bits(value, 16, 8),
            comment_field_thumb: value & 0xFF_0000,
            condition: Condition::from(get_bits(value, 28, 4)),
        }
    }
}

} // verus!
