use vstd::prelude::*;
use crate::bits::{bits, get_bits};
use crate::cpu::condition::{condition_of, Condition};
use crate::cpu::cpu::{mode_index, register_slot, InstructionSet, OperatingMode, CPU, ARM_LR, ARM_PC};
use crate::cpu::program_status_register::{ControlBits, ProgramStatusRegister};
use crate::memory::memory_bus::MemoryBus;

verus! {

/// A software interrupt (SWI) instruction.
#[derive(Clone, Copy, Debug, PartialEq, Eq, Structural)]
pub struct SoftwareInterrupt {
    pub comment_field_arm: u32,
    pub comment_field_thumb: u32,
    pub condition: Condition,
}

impl SoftwareInterrupt {
    /// The fields that an instruction word holds: the ARM comment is bits
    /// 23..16 shifted down, the Thumb comment the same bits left in place.
    pub open spec fn decoded_from(value: u32) -> SoftwareInterrupt {
        SoftwareInterrupt {
            comment_field_arm: bits(value, 16, 8),
            comment_field_thumb: value & 0xFF_0000u32,
            condition: condition_of(bits(value, 28, 4)),
        }
    }

    /// Decodes an instruction word.
    pub fn from(value: u32) -> (s: SoftwareInterrupt)
        ensures
            s == SoftwareInterrupt::decoded_from(value),
    {
        SoftwareInterrupt {
            comment_field_arm: get_bits(value, 16, 8),
            comment_field_thumb: value & 0xFF_0000,
            condition: Condition::from(get_bits(value, 28, 4)),
        }
    }

    /// Enters the supervisor exception: ARM state, Supervisor mode, IRQs
    /// masked, the old status saved in the supervisor SPSR, the supervisor
    /// link register four past the program counter, and the program counter
    /// at the SWI vector 0x08. Returns the cycles the bus clock has counted,
    /// which the entry leaves as they are.
    pub fn execute(&self, cpu: &mut CPU, mem_bus: &mut MemoryBus) -> (cycles: u32)
        requires
            old(cpu).instruction_set() == InstructionSet::Arm,
            old(cpu).reg(ARM_PC) + 4 <= u32::MAX,
        ensures
            final(cpu).cpsr == (ProgramStatusRegister {
                control_bits: ControlBits {
                    irq_disable: true,
                    mode_bits: 0b10011,
                    state_bit: false,
                    ..old(cpu).cpsr.control_bits
                },
                ..old(cpu).cpsr
            }),
            final(cpu).mode() == OperatingMode::Supervisor,
            final(cpu).instruction_set() == InstructionSet::Arm,
            final(cpu).spsr@ == old(cpu).spsr@.update(mode_index(OperatingMode::Supervisor), old(cpu).cpsr),
            final(cpu).registers@ == old(cpu).registers@.update(
                register_slot(InstructionSet::Arm, OperatingMode::Supervisor, ARM_LR),
                (old(cpu).reg(ARM_PC) + 4) as u32,
            ).update(register_slot(InstructionSet::Arm, OperatingMode::Supervisor, ARM_PC), 0x08),
            final(cpu).prefetch_cache == old(cpu).prefetch_cache,
            final(cpu).prefetch_primed == old(cpu).prefetch_primed,
            *final(mem_bus) == *old(mem_bus),
            cycles == old(mem_bus).cycle_clock.cycles,
    {
        let old_cpsr = cpu.cpsr;
        let _pc_before_switch = cpu.get_register(ARM_PC);
        cpu.cpsr.control_bits.irq_disable = true;
        cpu.cpsr.control_bits.mode_bits = 0b10011;
        cpu.cpsr.control_bits.state_bit = false;
        cpu.set_spsr(old_cpsr);
        let current_pc = cpu.get_register(ARM_PC);
        cpu.set_register(ARM_LR, current_pc + 4);
        cpu.set_register(ARM_PC, 0x08);
        mem_bus.cycle_clock.get_cycles()
    }
}

} // verus!
