use vstd::prelude::*;
use crate::bits::{bit, get_bit};

verus! {

/// The flag and control bits of the current program status register.
#[derive(Clone, Copy, Debug, PartialEq, Eq, Structural)]
pub struct CurrentProgramStatusRegister {
    pub sign_flag: bool,
    pub zero_flag: bool,
    pub carry_flag: bool,
    pub overflow_flag: bool,
    pub sticky_overflow: bool,
    pub irq_disabled: bool,
    pub fiq_disabled: bool,
    pub state_bit: bool,
}

impl CurrentProgramStatusRegister {
    /// The register whose bits a status word holds.
    pub open spec fn decoded_from(value: u32) -> CurrentProgramStatusRegister {
        CurrentProgramStatusRegister {
            sign_flag: bit(value, 31),
            zero_flag: bit(value, 30),
            carry_flag: bit(value, 29),
            overflow_flag: bit(value, 28),
            sticky_overflow: bit(value, 27),
            irq_disabled: bit(value, 7),
            fiq_disabled: bit(value, 6),
            state_bit: bit(value, 5),
        }
    }

    /// Reads the bits of a status word.
    pub fn from(value: u32) -> (r: CurrentProgramStatusRegister)
        ensures
            r == CurrentProgramStatusRegister::decoded_from(value),
    {
        CurrentProgramStatusRegister {
            sign_flag: get_bit(value, 31),
            zero_flag: get_bit(value, 30),
            carry_flag: get_bit(value, 29),
            overflow_flag: get_bit(value, 28),
            sticky_overflow: get_bit(value, 27),
            irq_disabled: get_bit(value, 7),
            fiq_disabled: get_bit(value, 6),
            state_bit: get_bit(value, 5),
        }
    }
}

} // verus!
