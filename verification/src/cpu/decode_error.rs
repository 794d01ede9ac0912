use vstd::prelude::*;
use crate::cpu::cpu::InstructionSet;

verus! {

/// An instruction that the decoder has no format for.
#[derive(Clone, Copy, Debug, PartialEq, Eq, Structural)]
pub struct DecodeError {
    pub instruction: u32,
    pub opcode: u16,
    pub instruction_set: InstructionSet,
}

} // verus!
