use vstd::prelude::*;
use crate::bits::{bits, get_bits};
use crate::cpu::condition::{condition_of, Condition};
use crate::cpu::cpu::{register_slot, valid_register, InstructionSet, CPU, ARM_PC, THUMB_PC};
use crate::memory::memory_bus::MemoryBus;

verus! {

/// A branch-and-exchange (BX) instruction.
#[derive(Clone, Copy, Debug, PartialEq, Eq, Structural)]
pub struct BranchExchange {
    pub condition: Condition,
    pub rn: u8,
}

impl BranchExchange {
    /// The fields that an instruction word holds.
    pub open spec fn decoded_from(value: u32) -> BranchExchange {
        BranchExchange { condition: condition_of(bits(value, 28, 4)), rn: bits(value, 0, 4) as u8 }
    }

    /// Decodes an instruction word.
    pub fn from(value: u32) -> (b: BranchExchange)
        ensures
            b == BranchExchange::decoded_from(value),
    {
        BranchExchange { condition: Condition::from(get_bits(value, 28, 4)), rn: get_bits(value, 0, 4) as u8 }
    }

    /// Jumps to the address in `rn`: bit 0 of it selects Thumb state (and is
    /// dropped from the address); in ARM state a halfword-aligned address is
    /// moved down to the word below. Returns the cycles the bus clock has
    /// counted, which the jump leaves as they are.
    pub fn execute(&self, cpu: &mut CPU, mem_bus: &mut MemoryBus) -> (cycles: u32)
        requires
            valid_register(old(cpu).instruction_set(), self.rn),
        ensures
            ({
                let target = old(cpu).reg(self.rn);
                if target & 1 == 0 {
                    &&& final(cpu).instruction_set() == InstructionSet::Arm
                    &&& final(cpu).registers@ == old(cpu).registers@.update(
                        register_slot(InstructionSet::Arm, old(cpu).mode(), ARM_PC),
                        if target % 4 == 0 { target } else { (target - 2) as u32 },
                    )
                } else {
                    &&& final(cpu).instruction_set() == InstructionSet::Thumb
                    &&& final(cpu).registers@ == old(cpu).registers@.update(
                        register_slot(InstructionSet::Thumb, old(cpu).mode(), THUMB_PC),
                        (target - 1) as u32,
                    )
                }
            }),
            final(cpu).mode() == old(cpu).mode(),
            final(cpu).cpsr.flags == old(cpu).cpsr.flags,
            final(cpu).spsr == old(cpu).spsr,
            *final(mem_bus) == *old(mem_bus),
            cycles == old(mem_bus).cycle_clock.cycles,
    {
        let new_pc = cpu.get_register(self.rn);
        let mode_bit = new_pc & 0x01;
        if mode_bit == 0 {
            cpu.set_instruction_set(InstructionSet::Arm);
            if new_pc % 4 == 0 {
                cpu.set_register(ARM_PC, new_pc);
            } else {
                assert(new_pc % 4 == 2) by (bit_vector)
                    requires new_pc & 1 == 0, new_pc % 4 != 0;
                cpu.set_register(ARM_PC, new_pc - 2);
            }
        } else {
            assert(new_pc >= 1) by (bit_vector)
                requires new_pc & 1 != 0;
            cpu.set_instruction_set(InstructionSet::Thumb);
            cpu.set_register(THUMB_PC, new_pc - 1);
        }
        mem_bus.cycle_clock.get_cycles()
    }
}

} // verus!
