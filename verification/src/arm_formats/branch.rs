use vstd::prelude::*;
use crate::bits::{bit, bits, get_bit, get_bits};
use crate::cpu::condition::{condition_of, Condition};
use crate::cpu::cpu::{register_slot, valid_register, InstructionSet, CPU, ARM_LR, ARM_PC, THUMB_PC};
use crate::memory::memory_map::MemoryMap;

verus! {

/// A branch (B/BL) instruction with its 24-bit word offset.
#[derive(Clone, Copy, Debug, PartialEq, Eq, Structural)]
pub struct Branch {
    pub condition: Condition,
    pub link: bool,
    pub offset: u32,
}

/// The byte offset of a branch: the word offset times four, sign-extended
/// from bit 25.
pub open spec fn branch_byte_offset(offset: u32) -> u32 {
    if ((offset << 2u32) >> 25u32) & 0x1u32 != 0 {
        (offset << 2u32) | 0xFC00_0000u32
    } else {
        offset << 2u32
    }
}

/// Where a branch lands: the pipelined program counter (four past the value
/// the register holds) plus the byte offset, modulo 2^32.
pub open spec fn branch_target(pc_value: u32, offset: u32) -> u32 {
    ((pc_value + 4 + branch_byte_offset(offset)) % 0x1_0000_0000) as u32
}

/// The program counter register of an instruction set.
pub open spec fn pc_register(set: InstructionSet) -> u8 {
    if set == InstructionSet::Arm { ARM_PC } else { THUMB_PC }
}

impl Branch {
    /// The fields that an instruction word holds.
    pub open spec fn decoded_from(value: u32) -> Branch {
        Branch {
            offset: bits(value, 0, 24),
            link: bit(value, 24),
            condition: condition_of(bits(value, 28, 4)),
        }
    }

    /// Decodes an instruction word.
    pub fn from(value: u32) -> (b: Branch)
        ensures
            b == Branch::decoded_from(value),
    {
        Branch {
            offset: get_bits(value, 0, 24),
            link: get_bit(value, 24),
            condition: Condition::from(get_bits(value, 28, 4)),
        }
    }

    /// Branches: the program counter moves to the target and, for BL, the link
    /// register receives the address of the next instruction. Memory is not
    /// touched.
    pub fn execute(&self, cpu: &mut CPU, _mem_map: &mut MemoryMap)
        requires
            self.link ==> old(cpu).instruction_set() == InstructionSet::Arm,
            old(cpu).reg(pc_register(old(cpu).instruction_set())) + 4 <= u32::MAX,
        ensures
            final(cpu).registers@ == if self.link {
                old(cpu).registers@.update(
                    register_slot(old(cpu).instruction_set(), old(cpu).mode(), ARM_LR),
                    old(cpu).reg(pc_register(old(cpu).instruction_set())),
                ).update(
                    register_slot(old(cpu).instruction_set(), old(cpu).mode(), pc_register(old(cpu).instruction_set())),
                    branch_target(old(cpu).reg(pc_register(old(cpu).instruction_set())), self.offset),
                )
            } else {
                old(cpu).registers@.update(
                    register_slot(old(cpu).instruction_set(), old(cpu).mode(), pc_register(old(cpu).instruction_set())),
                    branch_target(old(cpu).reg(pc_register(old(cpu).instruction_set())), self.offset),
                )
            },
            final(cpu).cpsr == old(cpu).cpsr,
            final(cpu).spsr == old(cpu).spsr,
            final(cpu).prefetch_cache == old(cpu).prefetch_cache,
            final(cpu).prefetch_primed == old(cpu).prefetch_primed,
            final(cpu).last_instruction == old(cpu).last_instruction,
            *final(_mem_map) == *old(_mem_map),
    {
        let current_pc = if cpu.get_instruction_set() == InstructionSet::Arm { ARM_PC } else { THUMB_PC };
        let current_pc_value = cpu.get_register(current_pc) + 4;
        let mut offset = self.offset << 2;
        if ((offset >> 25) & 0x1) != 0 {
            offset = offset | 0xFC00_0000;
        }
        if self.link {
            cpu.set_register(ARM_LR, current_pc_value - 4);
        }
        let value = current_pc_value.wrapping_add(offset);
        cpu.set_register(current_pc, value);
    }
}

} // verus!
