use vstd::prelude::*;
use crate::cpu::cpu::{mode_index, register_slot, InstructionSet, OperatingMode, ARM_LR, ARM_PC, CPU};
use crate::cpu::program_status_register::ProgramStatusRegister;
use crate::memory::interrupt_registers::{InterruptEnableRegister, InterruptMasterEnableRegister, InterruptRequestFlags};
use crate::memory::memory_bus::MemoryBus;
use crate::memory::memory_map::{HaltState, MemoryMap};
use crate::operations::timing::CycleClock;

verus! {

/// The bits of the interrupt sources that can end STOP mode: keypad (bit 12)
/// and cartridge (bit 13).
pub open spec fn wakes_from_stop(pending: u16) -> bool {
    pending & 0x3000 != 0
}

/// The halt state after the interrupt controller looks at the pending
/// interrupts: HALT ends on any enabled and requested interrupt, STOP only on
/// a keypad or cartridge one.
pub open spec fn halt_state_after(state: HaltState, pending: u16) -> HaltState {
    if state == HaltState::Halt && pending != 0 {
        HaltState::Running
    } else if state == HaltState::Stop && wakes_from_stop(pending) {
        HaltState::Running
    } else {
        state
    }
}

/// The interrupt controller: the master enable, the enabled sources and the
/// requested sources.
pub struct Interrupts {
    pub ime_interrupt: InterruptMasterEnableRegister,
    pub ie_interrupt: InterruptEnableRegister,
    pub if_interrupt: InterruptRequestFlags,
}

impl Interrupts {
    /// The sources that are both enabled and requested.
    pub open spec fn pending(&self) -> u16 {
        self.ie_interrupt.value & self.if_interrupt.value
    }

    /// Whether the master enable bit is set.
    pub open spec fn master_enabled(&self) -> bool {
        self.ime_interrupt.value & 1 == 1
    }

    /// Whether an interrupt is taken: the controller is enabled, a source is
    /// pending and the processor does not mask IRQs.
    pub open spec fn takes_interrupt(&self, cpu: CPU) -> bool {
        self.master_enabled() && self.pending() != 0 && !cpu.cpsr.control_bits.irq_disable
    }

    /// A controller with every register zero.
    pub fn new() -> (irq: Interrupts)
        ensures
            irq.ime_interrupt.value == 0,
            irq.ie_interrupt.value == 0,
            irq.if_interrupt.value == 0,
    {
        Interrupts {
            ime_interrupt: InterruptMasterEnableRegister::new(),
            ie_interrupt: InterruptEnableRegister::new(),
            if_interrupt: InterruptRequestFlags::new(),
        }
    }

    /// Whether the master enable bit is set.
    pub fn enabled(&self) -> (on: bool)
        ensures
            on == self.master_enabled(),
    {
        self.ime_interrupt.get_register() & 1 == 1
    }

    /// Whether some source is both enabled and requested.
    pub fn should_service(&self) -> (any: bool)
        ensures
            any == (self.pending() != 0),
    {
        (self.ie_interrupt.get_register() & self.if_interrupt.get_register()) != 0
    }

    /// Whether a keypad or cartridge interrupt is pending (the only ones that
    /// end STOP mode).
    fn should_wake_from_stop(&self) -> (wake: bool)
        ensures
            wake == wakes_from_stop(self.pending()),
    {
        let pending = self.ie_interrupt.get_register() & self.if_interrupt.get_register();
        pending & 0x3000 != 0
    }

    /// Wakes the processor and takes a pending interrupt. The bus's halt
    /// state follows `halt_state_after`. When an interrupt is taken, the
    /// processor enters IRQ mode in ARM state, with the return address (PC +
    /// 4) in the IRQ link register, the previous status register saved in the
    /// IRQ SPSR, IRQs masked, PC at the vector 0x18 and the prefetch flushed;
    /// the exception entry adds 3 cycles to the bus clock. Otherwise the
    /// processor and the clock are left alone.
    pub fn service(&mut self, cpu: &mut CPU, mem_bus: &mut MemoryBus)
        requires
            old(self).takes_interrupt(*old(cpu)) ==> old(cpu).registers@[register_slot(
                InstructionSet::Arm,
                OperatingMode::Interrupt,
                ARM_PC,
            )] + 4 <= u32::MAX,
            old(self).takes_interrupt(*old(cpu)) ==> old(mem_bus).cycle_clock.cycles + 3 <= u32::MAX,
        ensures
            *final(self) == *old(self),
            *final(mem_bus) == (MemoryBus {
                mem_map: MemoryMap {
                    halt_state: halt_state_after(old(mem_bus).mem_map.halt_state, old(self).pending()),
                    ..old(mem_bus).mem_map
                },
                cycle_clock: CycleClock {
                    cycles: if old(self).takes_interrupt(*old(cpu)) {
                        (old(mem_bus).cycle_clock.cycles + 3) as u32
                    } else {
                        old(mem_bus).cycle_clock.cycles
                    },
                },
            }),
            !old(self).takes_interrupt(*old(cpu)) ==> *final(cpu) == *old(cpu),
            old(self).takes_interrupt(*old(cpu)) ==> {
                &&& final(cpu).mode() == OperatingMode::Interrupt
                &&& final(cpu).instruction_set() == InstructionSet::Arm
                &&& final(cpu).cpsr.control_bits.irq_disable
                &&& final(cpu).cpsr.flags == old(cpu).cpsr.flags
                &&& final(cpu).cpsr.control_bits.fiq_disable == old(cpu).cpsr.control_bits.fiq_disable
                &&& final(cpu).spsr@ == old(cpu).spsr@.update(mode_index(OperatingMode::Interrupt), old(cpu).cpsr)
                &&& final(cpu).registers@ == old(cpu).registers@.update(
                    register_slot(InstructionSet::Arm, OperatingMode::Interrupt, ARM_LR),
                    (old(cpu).registers@[register_slot(InstructionSet::Arm, OperatingMode::Interrupt, ARM_PC)] + 4) as u32,
                ).update(register_slot(InstructionSet::Arm, OperatingMode::Interrupt, ARM_PC), 0x18u32)
                &&& !final(cpu).prefetch_primed
                &&& final(cpu).prefetch_cache == old(cpu).prefetch_cache
                &&& final(cpu).last_instruction == old(cpu).last_instruction
            },
    {
        if mem_bus.mem_map.halt_state == HaltState::Halt && self.should_service() {
            mem_bus.mem_map.halt_state = HaltState::Running;
        } else if mem_bus.mem_map.halt_state == HaltState::Stop && self.should_wake_from_stop() {
            mem_bus.mem_map.halt_state = HaltState::Running;
        }
        if self.enabled() && self.should_service() {
            if !cpu.cpsr.control_bits.irq_disable {
                let old_cpsr: ProgramStatusRegister = cpu.cpsr;
                cpu.set_operating_mode(OperatingMode::Interrupt);
                cpu.set_instruction_set(InstructionSet::Arm);
                let return_address = cpu.get_register(ARM_PC) + 4;
                cpu.set_register(ARM_LR, return_address);
                cpu.set_spsr(old_cpsr);
                cpu.cpsr.control_bits.irq_disable = true;
                cpu.set_register(15, 0x18);
                cpu.flush_prefetch();
                mem_bus.cycle_clock.cycles = mem_bus.cycle_clock.cycles + 3;
            }
        }
    }
}

/// Once IRQs are masked (as taking an interrupt leaves them), no further
/// interrupt is taken, whatever is pending.
pub proof fn lemma_masked_processor_takes_no_interrupt(irq: Interrupts, cpu: CPU)
    requires
        cpu.cpsr.control_bits.irq_disable,
    ensures
        !irq.takes_interrupt(cpu),
{
}

/// A running processor stays running, whatever is pending.
pub proof fn lemma_running_stays_running(pending: u16)
    ensures
        halt_state_after(HaltState::Running, pending) == HaltState::Running,
{
}

} // verus!
