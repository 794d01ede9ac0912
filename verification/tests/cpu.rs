use lib::arm_formats::branch::Branch as ArmBranch;
use lib::arm_formats::branch_exchange::BranchExchange as ArmBranchExchange;
use lib::arm_formats::software_interrupt::SoftwareInterrupt;
use lib::cpu::cpu::{InstructionSet, OperatingMode, CPU, ARM_PC, THUMB_PC};
use lib::cpu::program_status_register::ProgramStatusRegister;
use lib::formats::branch_exchange::BranchExchange;
use lib::interrupts::interrupts::Interrupts;
use lib::gamepak::BackupType;
use lib::memory::memory_bus::MemoryBus;
use lib::memory::memory_map::HaltState;

#[test]
fn test_access_registers() {
    let cpu = CPU::new();
    let _empty_registers: [u32; 31] = [0; 31];
    assert_eq!(_empty_registers, cpu.registers);
}

#[test]
fn test_decode_unimplemented() {
    let cpu = CPU::new();
    let result = cpu.decode(0x00F0F0F0);
    match result {
        Ok(_) => {
            assert!(false);
        },
        Err(_) => {
            assert!(true);
        },
    }
}

#[test]
fn test_decode() {
    let cpu = CPU::new();
    assert!(cpu.decode(0xE0812001).is_ok());
}

#[test]
fn test_register_access() {
    let mut cpu = CPU::new();
    cpu.set_register(10, 15);
    let spv_reg_10 = cpu.get_register(10);
    cpu.set_operating_mode(OperatingMode::User);
    cpu.set_register(10, 200);
    let usr_reg_10 = cpu.get_register(10);

    assert_eq!(spv_reg_10, 15);
    assert_eq!(usr_reg_10, 200);
    assert!(spv_reg_10 != usr_reg_10);
}

#[test]
fn test_mode() {
    let _decoded_one: BranchExchange = BranchExchange::from(0xD12F_FF1F);
    let _decoded_zero: BranchExchange = BranchExchange::from(0xD12F_FF1E);

    let a: ArmBranchExchange = ArmBranchExchange::from(0xD12F_FF1F);
    let mut cpu = CPU::new();
    let mut bus = MemoryBus::new(BackupType::Sram);
    let current_pc = if cpu.get_instruction_set() == InstructionSet::Arm { ARM_PC } else { THUMB_PC };
    cpu.set_register(current_pc, 0);
    a.execute(&mut cpu, &mut bus);
    assert_eq!(cpu.get_instruction_set(), InstructionSet::Arm);
    cpu.set_register(current_pc, 1);
    a.execute(&mut cpu, &mut bus);
    assert_eq!(cpu.get_instruction_set(), InstructionSet::Thumb);
}

#[test]
fn banked_registers_are_separate_per_mode() {
    let mut cpu = CPU::new();
    cpu.set_operating_mode(OperatingMode::Supervisor);
    cpu.set_register(13, 0x0300_7FE0);
    cpu.set_operating_mode(OperatingMode::Interrupt);
    cpu.set_register(13, 0x0300_7FA0);
    cpu.set_operating_mode(OperatingMode::Supervisor);
    assert_eq!(cpu.get_register(13), 0x0300_7FE0);
    cpu.set_operating_mode(OperatingMode::Interrupt);
    assert_eq!(cpu.get_register(13), 0x0300_7FA0);
    cpu.set_operating_mode(OperatingMode::User);
    assert_eq!(cpu.get_register(13), 0);
}

#[test]
fn status_register_word_round_trips() {
    let psr = ProgramStatusRegister::from(0xF000_00D3);
    assert_eq!(psr.to_u32(), 0xF000_00D3);
    assert!(psr.flags.negative && psr.flags.zero && psr.flags.carry && psr.flags.signed_overflow);
    assert!(psr.control_bits.irq_disable && psr.control_bits.fiq_disable && !psr.control_bits.state_bit);
    assert_eq!(psr.control_bits.mode_bits, 0b10011);
}

#[test]
fn service_enters_the_irq_handler() {
    let mut cpu = CPU::new();
    cpu.set_register(15, 0x0800_0100);
    let mut irq = Interrupts::new();
    irq.ime_interrupt.set_register(1);
    irq.ie_interrupt.set_register(1 << 12);
    irq.if_interrupt.set_keypad(1);
    let mut bus = MemoryBus::new(BackupType::Sram);
    bus.mem_map.halt_state = HaltState::Halt;
    bus.cycle_clock.cycles = 10;
    let old_cpsr = cpu.cpsr;
    irq.service(&mut cpu, &mut bus);
    assert_eq!(bus.cycle_clock.cycles, 13);
    assert_eq!(bus.mem_map.halt_state, HaltState::Running);
    assert_eq!(cpu.get_operating_mode(), OperatingMode::Interrupt);
    assert_eq!(cpu.get_register(14), 0x0800_0104);
    assert_eq!(cpu.get_register(15), 0x18);
    assert!(cpu.cpsr.control_bits.irq_disable);
    assert_eq!(cpu.get_spsr(), old_cpsr);
    // IRQs are now masked: a second call takes nothing.
    irq.service(&mut cpu, &mut bus);
    assert_eq!(bus.cycle_clock.cycles, 13);
}

#[test]
fn service_without_master_enable_only_wakes_from_halt() {
    let mut cpu = CPU::new();
    let mut irq = Interrupts::new();
    irq.ie_interrupt.set_register(1);
    irq.if_interrupt.set_register(1);
    let mut bus = MemoryBus::new(BackupType::Sram);
    bus.mem_map.halt_state = HaltState::Halt;
    irq.service(&mut cpu, &mut bus);
    assert_eq!(bus.cycle_clock.cycles, 0);
    assert_eq!(bus.mem_map.halt_state, HaltState::Running);
    assert_eq!(cpu.get_operating_mode(), OperatingMode::System);
}

#[test]
fn stop_mode_wakes_only_for_keypad_or_cartridge() {
    let mut cpu = CPU::new();
    let mut irq = Interrupts::new();
    irq.ie_interrupt.set_register(0xFFFF);
    irq.if_interrupt.set_register(1);
    let mut bus = MemoryBus::new(BackupType::Sram);
    bus.mem_map.halt_state = HaltState::Stop;
    irq.service(&mut cpu, &mut bus);
    assert_eq!(bus.mem_map.halt_state, HaltState::Stop);
    irq.if_interrupt.set_register(1 << 13);
    irq.service(&mut cpu, &mut bus);
    assert_eq!(bus.mem_map.halt_state, HaltState::Running);
}

#[test]
fn software_interrupt_enters_supervisor_and_reports_bus_cycles() {
    let swi = SoftwareInterrupt::from(0xEF00_0012);
    let mut cpu = CPU::new();
    cpu.set_register(ARM_PC, 0x0800_0010);
    let mut bus = MemoryBus::new(BackupType::Sram);
    bus.cycle_clock.cycles = 7;
    let cycles = swi.execute(&mut cpu, &mut bus);
    assert_eq!(cycles, 7);
    assert_eq!(bus.cycle_clock.cycles, 7);
    assert_eq!(cpu.get_operating_mode(), OperatingMode::Supervisor);
    assert_eq!(cpu.get_register(14), 0x0800_0014);
    assert_eq!(cpu.get_register(15), 0x08);
}

#[test]
fn branch_with_link_moves_pc_and_sets_lr() {
    let b = ArmBranch::from(0xEB00_0002);
    let mut cpu = CPU::new();
    cpu.set_register(ARM_PC, 0x0800_0008);
    let mut bus = MemoryBus::new(BackupType::Sram);
    b.execute(&mut cpu, &mut bus.mem_map);
    assert_eq!(cpu.get_register(14), 0x0800_0008);
    assert_eq!(cpu.get_register(15), 0x0800_0008 + 4 + 8);
}

#[test]
fn branch_exchange_returns_the_bus_cycle_count() {
    let a = ArmBranchExchange::from(0xE12F_FF10);
    let mut cpu = CPU::new();
    cpu.set_register(0, 0x0800_0101);
    let mut bus = MemoryBus::new(BackupType::Sram);
    bus.cycle_clock.cycles = 5;
    assert_eq!(a.execute(&mut cpu, &mut bus), 5);
    assert_eq!(cpu.get_instruction_set(), InstructionSet::Thumb);
    assert_eq!(cpu.get_register(THUMB_PC), 0x0800_0100);
}
