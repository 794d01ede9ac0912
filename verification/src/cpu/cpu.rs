use vstd::prelude::*;
use super::arm_instr::{arm_format_of, arm_instruction_format};
use super::condition::Condition;
use super::decode_error::DecodeError;
use super::program_status_register::{ConditionFlags, ProgramStatusRegister};
use crate::arm_formats::branch::Branch;
use crate::arm_formats::branch_exchange::BranchExchange;
use crate::arm_formats::data_processing::DataProcessing;
use crate::arm_formats::halfword_register::{HalfwordImmediateOffset, HalfwordRegisterOffset};
use crate::arm_formats::multiply::Multiply;
use crate::arm_formats::multiply_long::MultiplyLong;
use crate::arm_formats::single_data_swap::SingleDataSwap;
use crate::arm_formats::single_data_transfer::SingleDataTransfer;
use crate::arm_formats::software_interrupt::SoftwareInterrupt;
use crate::formats::block_data_transfer::BlockDataTransfer;

verus! {

pub const ARM_PC: u8 = 15;
pub const ARM_LR: u8 = 14;
pub const ARM_SP: u8 = 13;
pub const THUMB_PC: u8 = 10;
pub const THUMB_SP: u8 = 8;
pub const THUMB_LR: u8 = 9;

pub const ARM_WORD_SIZE: u8 = 4;
pub const THUMB_WORD_SIZE: u8 = 2;

/// The processor modes; each has its own banked registers.
#[derive(Clone, Copy, Debug, PartialEq, Eq, Structural)]
pub enum OperatingMode {
    System,
    User,
    FastInterrupt,
    Supervisor,
    Abort,
    Interrupt,
    Undefined,
}

/// The two instruction sets of the processor.
#[derive(Clone, Copy, Debug, PartialEq, Eq, Structural)]
pub enum InstructionSet {
    Arm,
    Thumb,
}

/// The instruction formats of the ARM instruction set.
#[derive(Clone, Copy, Debug, PartialEq, Eq, Structural)]
pub enum InstructionFormat {
    DataProcessing,
    PsrTransfer,
    Multiply,
    MultiplyLong,
    SingleDataSwap,
    BranchAndExchange,
    HalfwordDataTransfer,
    SingleDataTransfer,
    Undefined,
    BlockDataTransfer,
    Branch,
    CoProcessorDataTransfer,
    CoProcessorDataOperation,
    CoProcessorRegisetTransfer,
    SoftwareInterrupt,
}

/// The instruction formats of the Thumb instruction set.
#[derive(Clone, Copy, Debug, PartialEq, Eq, Structural)]
pub enum ThumbInstructionFormat {
    MoveShiftedRegister,
    AddSubtract,
    MoveCompare,
    ALU,
    HiRegister,
    LoadPC,
    LoadStoreOffset,
    LoadStoreExtended,
    LoadStoreImmediateOffset,
    LoadStoreHalfWord,
    LoadStoreSP,
    LoadAddress,
    GetAddress,
    ImmediateOp,
    AddOffsetSP,
    PushPopRegister,
    MultipleLoadStore,
    ConditionalBranch,
    UnConditonalBranch,
    LongBranchLink,
    BreakpointInterrupt,
    SoftwareInterrupt,
    Undefined,
}

/// A decoded ARM instruction.
#[derive(Debug)]
pub enum DecodedInstruction {
    DataProcessing(DataProcessing),
    Multiply(Multiply),
    MultiplyLong(MultiplyLong),
    SingleDataSwap(SingleDataSwap),
    SingleDataTransfer(SingleDataTransfer),
    BranchExchange(BranchExchange),
    HalfwordRegisterOffset(HalfwordRegisterOffset),
    HalfwordImmediateOffset(HalfwordImmediateOffset),
    BlockDataTransfer(BlockDataTransfer),
    Branch(Branch),
    SoftwareInterrupt(SoftwareInterrupt),
}

/// The decoding-table index of an ARM instruction: bits 27..20 followed by bits 7..4.
pub open spec fn arm_opcode(instruction: u32) -> u16 {
    (((instruction >> 16u32) & 0xFF0u32) | ((instruction >> 4u32) & 0x0Fu32)) as u16
}

/// Whether `decoded` is what decoding `instruction` in ARM state gives: the
/// table picks the format, the format's decoder reads the fields, and an
/// instruction of no known format is a decode error.
pub open spec fn arm_decoding(
    instruction: u32,
    set: InstructionSet,
    decoded: Result<DecodedInstruction, DecodeError>,
) -> bool {
    let opcode = arm_opcode(instruction);
    match arm_format_of(opcode) {
        InstructionFormat::DataProcessing | InstructionFormat::PsrTransfer => decoded
            == Ok::<DecodedInstruction, DecodeError>(
            DecodedInstruction::DataProcessing(DataProcessing::decoded_from(instruction)),
        ),
        InstructionFormat::Multiply => decoded == Ok::<DecodedInstruction, DecodeError>(
            DecodedInstruction::Multiply(Multiply::decoded_from(instruction)),
        ),
        InstructionFormat::MultiplyLong => decoded == Ok::<DecodedInstruction, DecodeError>(
            DecodedInstruction::MultiplyLong(MultiplyLong::decoded_from(instruction)),
        ),
        InstructionFormat::SingleDataSwap => decoded == Ok::<DecodedInstruction, DecodeError>(
            DecodedInstruction::SingleDataSwap(SingleDataSwap::decoded_from(instruction)),
        ),
        InstructionFormat::SingleDataTransfer => decoded == Ok::<DecodedInstruction, DecodeError>(
            DecodedInstruction::SingleDataTransfer(SingleDataTransfer::decoded_from(instruction)),
        ),
        InstructionFormat::BranchAndExchange => decoded == Ok::<DecodedInstruction, DecodeError>(
            DecodedInstruction::BranchExchange(BranchExchange::decoded_from(instruction)),
        ),
        InstructionFormat::HalfwordDataTransfer => if opcode & 0x40 == 0 {
            decoded == Ok::<DecodedInstruction, DecodeError>(
                DecodedInstruction::HalfwordRegisterOffset(HalfwordRegisterOffset::decoded_from(instruction)),
            )
        } else {
            decoded == Ok::<DecodedInstruction, DecodeError>(
                DecodedInstruction::HalfwordImmediateOffset(HalfwordImmediateOffset::decoded_from(instruction)),
            )
        },
        InstructionFormat::BlockDataTransfer => decoded matches Ok(DecodedInstruction::BlockDataTransfer(b))
            && b.decodes(instruction),
        InstructionFormat::Branch => decoded == Ok::<DecodedInstruction, DecodeError>(
            DecodedInstruction::Branch(Branch::decoded_from(instruction)),
        ),
        InstructionFormat::SoftwareInterrupt => decoded == Ok::<DecodedInstruction, DecodeError>(
            DecodedInstruction::SoftwareInterrupt(SoftwareInterrupt::decoded_from(instruction)),
        ),
        _ => decoded == Err::<DecodedInstruction, DecodeError>(
            DecodeError { instruction_set: set, instruction, opcode },
        ),
    }
}

/// The position of a mode in the mode-indexed tables (banked registers, SPSRs).
pub open spec fn mode_index(mode: OperatingMode) -> int {
    match mode {
        OperatingMode::System => 0,
        OperatingMode::User => 1,
        OperatingMode::FastInterrupt => 2,
        OperatingMode::Supervisor => 3,
        OperatingMode::Abort => 4,
        OperatingMode::Interrupt => 5,
        OperatingMode::Undefined => 6,
    }
}

/// The five mode bits of the status register that select a mode.
pub open spec fn mode_bits_of(mode: OperatingMode) -> u8 {
    match mode {
        OperatingMode::User => 0b10000,
        OperatingMode::FastInterrupt => 0b10001,
        OperatingMode::Interrupt => 0b10010,
        OperatingMode::Supervisor => 0b10011,
        OperatingMode::Abort => 0b10111,
        OperatingMode::Undefined => 0b11011,
        OperatingMode::System => 0b11111,
    }
}

/// The mode that a value of the mode bits selects; unknown values read as System.
pub open spec fn mode_of_bits(bits: u8) -> OperatingMode {
    if bits == 0b10000 { OperatingMode::User }
    else if bits == 0b10001 { OperatingMode::FastInterrupt }
    else if bits == 0b10010 { OperatingMode::Interrupt }
    else if bits == 0b10011 { OperatingMode::Supervisor }
    else if bits == 0b10111 { OperatingMode::Abort }
    else if bits == 0b11011 { OperatingMode::Undefined }
    else { OperatingMode::System }
}

/// Whether a register number exists in an instruction set: r0-r15 in ARM,
/// r0-r10 in Thumb (where r8, r9 and r10 are SP, LR and PC).
pub open spec fn valid_register(set: InstructionSet, reg: u8) -> bool {
    match set {
        InstructionSet::Arm => reg <= 15,
        InstructionSet::Thumb => reg <= 10,
    }
}

/// The ARM register that a register number names in an instruction set.
pub open spec fn arm_register(set: InstructionSet, reg: u8) -> int {
    if set == InstructionSet::Thumb && reg >= 8 { reg + 5 } else { reg as int }
}

/// The slot of the register file that ARM register `reg` occupies in a mode:
/// r0-r7 and r15 are shared; FIQ banks r8-r14; every other privileged mode
/// banks r13 and r14.
pub open spec fn banked_slot(mode: OperatingMode, reg: int) -> int {
    if reg < 8 || reg == 15 {
        reg
    } else if reg <= 12 {
        if mode == OperatingMode::FastInterrupt { reg + 8 } else { reg }
    } else {
        match mode {
            OperatingMode::System => reg,
            OperatingMode::User => reg,
            OperatingMode::FastInterrupt => reg + 8,
            OperatingMode::Supervisor => reg + 10,
            OperatingMode::Abort => reg + 12,
            OperatingMode::Interrupt => reg + 14,
            OperatingMode::Undefined => reg + 16,
        }
    }
}

/// The slot of the register file that register `reg` of an instruction set
/// occupies in a mode.
pub open spec fn register_slot(set: InstructionSet, mode: OperatingMode, reg: u8) -> int {
    banked_slot(mode, arm_register(set, reg))
}

/// Whether a condition holds for a set of flags.
pub open spec fn condition_holds(flags: ConditionFlags, cond: Condition) -> bool {
    match cond {
        Condition::EQ => flags.zero,
        Condition::NE => !flags.zero,
        Condition::CS => flags.carry,
        Condition::CC => !flags.carry,
        Condition::MI => flags.negative,
        Condition::PL => !flags.negative,
        Condition::VS => flags.signed_overflow,
        Condition::VC => !flags.signed_overflow,
        Condition::HI => flags.carry && !flags.zero,
        Condition::LS => !flags.carry || flags.zero,
        Condition::GE => flags.negative == flags.signed_overflow,
        Condition::LT => flags.negative != flags.signed_overflow,
        Condition::GT => !flags.zero && (flags.negative == flags.signed_overflow),
        Condition::LE => flags.zero || (flags.negative != flags.signed_overflow),
        Condition::AL => true,
        Condition::Error => false,
    }
}

fn mode_slot(mode: OperatingMode) -> (i: usize)
    ensures
        i == mode_index(mode),
{
    match mode {
        OperatingMode::System => 0,
        OperatingMode::User => 1,
        OperatingMode::FastInterrupt => 2,
        OperatingMode::Supervisor => 3,
        OperatingMode::Abort => 4,
        OperatingMode::Interrupt => 5,
        OperatingMode::Undefined => 6,
    }
}

fn slot_of(set: InstructionSet, mode: OperatingMode, reg: u8) -> (slot: usize)
    requires
        reg <= 15,
        set == InstructionSet::Thumb ==> reg <= 10,
    ensures
        slot == register_slot(set, mode, reg),
        slot < 31,
{
    let r: usize = if set == InstructionSet::Thumb && reg >= 8 { reg as usize + 5 } else { reg as usize };
    if r < 8 || r == 15 {
        r
    } else if r <= 12 {
        if mode == OperatingMode::FastInterrupt { r + 8 } else { r }
    } else {
        match mode {
            OperatingMode::System => r,
            OperatingMode::User => r,
            OperatingMode::FastInterrupt => r + 8,
            OperatingMode::Supervisor => r + 10,
            OperatingMode::Abort => r + 12,
            OperatingMode::Interrupt => r + 14,
            OperatingMode::Undefined => r + 16,
        }
    }
}

/// The processor state: the banked register file, the saved status registers,
/// the current status register and the one-instruction prefetch.
pub struct CPU {
    pub registers: [u32; 31],
    pub spsr: [ProgramStatusRegister; 7],
    pub cpsr: ProgramStatusRegister,
    pub last_instruction: String,
    pub prefetch_cache: u32,
    pub prefetch_primed: bool,
}

impl CPU {
    /// The instruction set that the state bit selects.
    pub open spec fn instruction_set(&self) -> InstructionSet {
        if self.cpsr.control_bits.state_bit { InstructionSet::Thumb } else { InstructionSet::Arm }
    }

    /// The mode that the mode bits select.
    pub open spec fn mode(&self) -> OperatingMode {
        mode_of_bits(self.cpsr.control_bits.mode_bits)
    }

    /// The value of register `reg` as the current mode and instruction set see it.
    pub open spec fn reg(&self, reg: u8) -> u32 {
        self.registers@[register_slot(self.instruction_set(), self.mode(), reg)]
    }

    /// A processor in System mode and ARM state with every register zero.
    pub fn new() -> (cpu: CPU)
        ensures
            forall|i: int| 0 <= i < 31 ==> cpu.registers@[i] == 0,
            forall|i: int| 0 <= i < 7 ==> cpu.spsr@[i] == ProgramStatusRegister::decoded_from(0),
            cpu.cpsr == ProgramStatusRegister::decoded_from(0b011111),
            cpu.last_instruction@ == Seq::<char>::empty(),
            cpu.prefetch_cache == 0,
            !cpu.prefetch_primed,
    {
        let zero = ProgramStatusRegister::from(0);
        CPU {
            registers: [0u32; 31],
            spsr: [zero, zero, zero, zero, zero, zero, zero],
            cpsr: ProgramStatusRegister::from(0b011111),
            last_instruction: String::new(),
            prefetch_cache: 0,
            prefetch_primed: false,
        }
    }

    /// Decodes an instruction in the current instruction set. Only the ARM
    /// decoding table exists, so the processor must be in ARM state.
    pub fn decode(&self, instruction: u32) -> (r: Result<DecodedInstruction, DecodeError>)
        requires
            self.instruction_set() == InstructionSet::Arm,
        ensures
            arm_decoding(instruction, self.instruction_set(), r),
    {
        self.decode_arm(instruction)
    }

    /// Decodes an ARM instruction through the decoding table.
    pub fn decode_arm(&self, instruction: u32) -> (r: Result<DecodedInstruction, DecodeError>)
        ensures
            arm_decoding(instruction, self.instruction_set(), r),
    {
        let opcode: u16 = (((instruction >> 16) & 0xFF0) | ((instruction >> 4) & 0x0F)) as u16;
        assert((((instruction >> 16u32) & 0xFF0u32) | ((instruction >> 4u32) & 0x0Fu32)) < 4096u32)
            by (bit_vector);
        let instruction_format = arm_instruction_format(opcode);
        match instruction_format {
            InstructionFormat::DataProcessing | InstructionFormat::PsrTransfer => {
                Ok(DecodedInstruction::DataProcessing(DataProcessing::from(instruction)))
            },
            InstructionFormat::Multiply => Ok(DecodedInstruction::Multiply(Multiply::from(instruction))),
            InstructionFormat::MultiplyLong => {
                Ok(DecodedInstruction::MultiplyLong(MultiplyLong::from(instruction)))
            },
            InstructionFormat::SingleDataSwap => {
                Ok(DecodedInstruction::SingleDataSwap(SingleDataSwap::from(instruction)))
            },
            InstructionFormat::SingleDataTransfer => {
                Ok(DecodedInstruction::SingleDataTransfer(SingleDataTransfer::from(instruction)))
            },
            InstructionFormat::BranchAndExchange => {
                Ok(DecodedInstruction::BranchExchange(BranchExchange::from(instruction)))
            },
            InstructionFormat::HalfwordDataTransfer => {
                if opcode & 0x40 == 0 {
                    Ok(DecodedInstruction::HalfwordRegisterOffset(HalfwordRegisterOffset::from(instruction)))
                } else {
                    Ok(DecodedInstruction::HalfwordImmediateOffset(HalfwordImmediateOffset::from(instruction)))
                }
            },
            InstructionFormat::BlockDataTransfer => {
                Ok(DecodedInstruction::BlockDataTransfer(BlockDataTransfer::from(instruction)))
            },
            InstructionFormat::Branch => Ok(DecodedInstruction::Branch(Branch::from(instruction))),
            InstructionFormat::SoftwareInterrupt => {
                Ok(DecodedInstruction::SoftwareInterrupt(SoftwareInterrupt::from(instruction)))
            },
            _ => Err(
                DecodeError { instruction_set: self.get_instruction_set(), instruction: instruction, opcode: opcode },
            ),
        }
    }

    /// Discards the prefetched instruction.
    pub fn flush_prefetch(&mut self)
        ensures
            *final(self) == (CPU { prefetch_primed: false, ..*old(self) }),
    {
        self.prefetch_primed = false;
    }

    /// The instruction set that the state bit selects.
    pub fn get_instruction_set(&self) -> (set: InstructionSet)
        ensures
            set == self.instruction_set(),
    {
        if self.cpsr.control_bits.state_bit {
            InstructionSet::Thumb
        } else {
            InstructionSet::Arm
        }
    }

    /// Switches to an instruction set by writing the state bit.
    pub fn set_instruction_set(&mut self, set: InstructionSet)
        ensures
            final(self).instruction_set() == set,
            final(self).cpsr.control_bits.state_bit == (set == InstructionSet::Thumb),
            final(self).cpsr == (ProgramStatusRegister {
                control_bits: final(self).cpsr.control_bits,
                ..old(self).cpsr
            }),
            final(self).cpsr.control_bits == (super::program_status_register::ControlBits {
                state_bit: final(self).cpsr.control_bits.state_bit,
                ..old(self).cpsr.control_bits
            }),
            final(self).registers == old(self).registers,
            final(self).spsr == old(self).spsr,
            final(self).last_instruction == old(self).last_instruction,
            final(self).prefetch_cache == old(self).prefetch_cache,
            final(self).prefetch_primed == old(self).prefetch_primed,
    {
        match set {
            InstructionSet::Arm => self.cpsr.control_bits.state_bit = false,
            InstructionSet::Thumb => self.cpsr.control_bits.state_bit = true,
        }
    }

    /// The mode that the mode bits select; unknown values read as System.
    pub fn get_operating_mode(&self) -> (mode: OperatingMode)
        ensures
            mode == self.mode(),
    {
        match self.cpsr.control_bits.mode_bits {
            0b10000 => OperatingMode::User,
            0b10001 => OperatingMode::FastInterrupt,
            0b10010 => OperatingMode::Interrupt,
            0b10011 => OperatingMode::Supervisor,
            0b10111 => OperatingMode::Abort,
            0b11011 => OperatingMode::Undefined,
            _ => OperatingMode::System,
        }
    }

    /// Switches to a mode by writing its mode bits.
    pub fn set_operating_mode(&mut self, mode: OperatingMode)
        ensures
            final(self).cpsr.control_bits.mode_bits == mode_bits_of(mode),
            final(self).mode() == mode,
            final(self).cpsr == (ProgramStatusRegister {
                control_bits: final(self).cpsr.control_bits,
                ..old(self).cpsr
            }),
            final(self).cpsr.control_bits == (super::program_status_register::ControlBits {
                mode_bits: final(self).cpsr.control_bits.mode_bits,
                ..old(self).cpsr.control_bits
            }),
            final(self).registers == old(self).registers,
            final(self).spsr == old(self).spsr,
            final(self).last_instruction == old(self).last_instruction,
            final(self).prefetch_cache == old(self).prefetch_cache,
            final(self).prefetch_primed == old(self).prefetch_primed,
    {
        match mode {
            OperatingMode::User => self.cpsr.control_bits.mode_bits = 0b10000,
            OperatingMode::FastInterrupt => self.cpsr.control_bits.mode_bits = 0b10001,
            OperatingMode::Interrupt => self.cpsr.control_bits.mode_bits = 0b10010,
            OperatingMode::Supervisor => self.cpsr.control_bits.mode_bits = 0b10011,
            OperatingMode::Abort => self.cpsr.control_bits.mode_bits = 0b10111,
            OperatingMode::Undefined => self.cpsr.control_bits.mode_bits = 0b11011,
            OperatingMode::System => self.cpsr.control_bits.mode_bits = 0b11111,
        }
    }

    /// The contents of the program counter of the current instruction set.
    pub fn get_pc(&self) -> (pc: u32)
        ensures
            pc == self.reg(if self.instruction_set() == InstructionSet::Arm { ARM_PC } else { THUMB_PC }),
    {
        let current_pc = if self.get_instruction_set() == InstructionSet::Arm { ARM_PC } else { THUMB_PC };
        self.get_register(current_pc)
    }

    /// Reads register `reg` as the current mode and instruction set see it.
    pub fn get_register(&self, reg_num: u8) -> (value: u32)
        requires
            valid_register(self.instruction_set(), reg_num),
        ensures
            value == self.reg(reg_num),
    {
        let slot = slot_of(self.get_instruction_set(), self.get_operating_mode(), reg_num);
        self.registers[slot]
    }

    /// Writes register `reg` as the current mode and instruction set see it.
    pub fn set_register(&mut self, reg_num: u8, value: u32)
        requires
            valid_register(old(self).instruction_set(), reg_num),
        ensures
            final(self).registers@ == old(self).registers@.update(
                register_slot(old(self).instruction_set(), old(self).mode(), reg_num),
                value,
            ),
            final(self).spsr == old(self).spsr,
            final(self).cpsr == old(self).cpsr,
            final(self).last_instruction == old(self).last_instruction,
            final(self).prefetch_cache == old(self).prefetch_cache,
            final(self).prefetch_primed == old(self).prefetch_primed,
    {
        let slot = slot_of(self.get_instruction_set(), self.get_operating_mode(), reg_num);
        self.registers[slot] = value;
    }

    /// Reads register `reg` as mode `op_mode` sees it in the current instruction set.
    pub fn get_register_override_opmode(&self, reg_num: u8, op_mode: OperatingMode) -> (value: u32)
        requires
            valid_register(self.instruction_set(), reg_num),
        ensures
            value == self.registers@[register_slot(self.instruction_set(), op_mode, reg_num)],
    {
        let slot = slot_of(self.get_instruction_set(), op_mode, reg_num);
        self.registers[slot]
    }

    /// Writes register `reg` as mode `op_mode` sees it in the current instruction set.
    pub fn set_register_override_opmode(&mut self, reg_num: u8, op_mode: OperatingMode, value: u32)
        requires
            valid_register(old(self).instruction_set(), reg_num),
        ensures
            final(self).registers@ == old(self).registers@.update(
                register_slot(old(self).instruction_set(), op_mode, reg_num),
                value,
            ),
            final(self).spsr == old(self).spsr,
            final(self).cpsr == old(self).cpsr,
            final(self).last_instruction == old(self).last_instruction,
            final(self).prefetch_cache == old(self).prefetch_cache,
            final(self).prefetch_primed == old(self).prefetch_primed,
    {
        let slot = slot_of(self.get_instruction_set(), op_mode, reg_num);
        self.registers[slot] = value;
    }

    /// Reads ARM register `reg` of the current mode, whatever the instruction set.
    pub fn get_register_unsafe(&self, reg_num: u8) -> (value: u32)
        requires
            reg_num <= 15,
        ensures
            value == self.registers@[register_slot(InstructionSet::Arm, self.mode(), reg_num)],
    {
        let slot = slot_of(InstructionSet::Arm, self.get_operating_mode(), reg_num);
        self.registers[slot]
    }

    /// Writes ARM register `reg` of the current mode, whatever the instruction set.
    pub fn set_register_unsafe(&mut self, reg_num: u8, value: u32)
        requires
            reg_num <= 15,
        ensures
            final(self).registers@ == old(self).registers@.update(
                register_slot(InstructionSet::Arm, old(self).mode(), reg_num),
                value,
            ),
            final(self).spsr == old(self).spsr,
            final(self).cpsr == old(self).cpsr,
            final(self).last_instruction == old(self).last_instruction,
            final(self).prefetch_cache == old(self).prefetch_cache,
            final(self).prefetch_primed == old(self).prefetch_primed,
    {
        let slot = slot_of(InstructionSet::Arm, self.get_operating_mode(), reg_num);
        self.registers[slot] = value;
    }

    /// Whether a condition holds for the current flags.
    pub fn check_condition(&self, cond: &Condition) -> (holds: bool)
        requires
            *cond != Condition::Error,
        ensures
            holds == condition_holds(self.cpsr.flags, *cond),
    {
        let flags = self.cpsr.flags;
        match cond {
            Condition::EQ => flags.zero,
            Condition::NE => !flags.zero,
            Condition::CS => flags.carry,
            Condition::CC => !flags.carry,
            Condition::MI => flags.negative,
            Condition::PL => !flags.negative,
            Condition::VS => flags.signed_overflow,
            Condition::VC => !flags.signed_overflow,
            Condition::HI => flags.carry && !flags.zero,
            Condition::LS => !flags.carry || flags.zero,
            Condition::GE => flags.negative == flags.signed_overflow,
            Condition::LT => flags.negative != flags.signed_overflow,
            Condition::GT => !flags.zero && (flags.negative == flags.signed_overflow),
            Condition::LE => flags.zero || (flags.negative != flags.signed_overflow),
            Condition::AL => true,
            Condition::Error => false,
        }
    }

    /// The saved status register of the current mode; User mode has none.
    pub fn get_spsr(&mut self) -> (psr: ProgramStatusRegister)
        requires
            old(self).mode() != OperatingMode::User,
        ensures
            psr == old(self).spsr@[mode_index(old(self).mode())],
            *final(self) == *old(self),
    {
        let i = mode_slot(self.get_operating_mode());
        self.spsr[i]
    }

    /// Writes the saved status register of the current mode; User mode has none.
    pub fn set_spsr(&mut self, psr: ProgramStatusRegister)
        requires
            old(self).mode() != OperatingMode::User,
        ensures
            final(self).spsr@ == old(self).spsr@.update(mode_index(old(self).mode()), psr),
            final(self).registers == old(self).registers,
            final(self).cpsr == old(self).cpsr,
            final(self).last_instruction == old(self).last_instruction,
            final(self).prefetch_cache == old(self).prefetch_cache,
            final(self).prefetch_primed == old(self).prefetch_primed,
    {
        let i = mode_slot(self.get_operating_mode());
        self.spsr[i] = psr;
    }
}

/// Two different register numbers of one instruction set never share a slot
/// in the same mode, and every slot lies inside the register file.
pub proof fn lemma_register_slots_distinct(set: InstructionSet, mode: OperatingMode, r1: u8, r2: u8)
    requires
        valid_register(set, r1),
        valid_register(set, r2),
        r1 != r2,
    ensures
        register_slot(set, mode, r1) != register_slot(set, mode, r2),
        0 <= register_slot(set, mode, r1) < 31,
{
}

/// Writing a register and reading it back gives the written value, and every
/// other register of the same mode and instruction set keeps its value.
pub proof fn lemma_register_write_then_read(before: CPU, after: CPU, reg_num: u8, value: u32)
    requires
        valid_register(before.instruction_set(), reg_num),
        after.cpsr == before.cpsr,
        after.registers@ == before.registers@.update(
            register_slot(before.instruction_set(), before.mode(), reg_num),
            value,
        ),
    ensures
        after.reg(reg_num) == value,
        forall|other: u8|
            valid_register(before.instruction_set(), other) && other != reg_num
                ==> #[trigger] after.reg(other) == before.reg(other),
{
    assert forall|other: u8|
        valid_register(before.instruction_set(), other) && other != reg_num
            implies #[trigger] after.reg(other) == before.reg(other) by {
        lemma_register_slots_distinct(before.instruction_set(), before.mode(), reg_num, other);
    }
}

/// r0-r7 and the program counter are the same register in every mode, while
/// the stack pointer and link register of each privileged mode other than
/// System are private to that mode.
pub proof fn lemma_banking(set: InstructionSet, m1: OperatingMode, m2: OperatingMode, reg_num: u8)
    requires
        valid_register(set, reg_num),
    ensures
        arm_register(set, reg_num) < 8 || arm_register(set, reg_num) == 15
            ==> register_slot(set, m1, reg_num) == register_slot(set, m2, reg_num),
        (arm_register(set, reg_num) == 13 || arm_register(set, reg_num) == 14) && m1 != m2
            && !((m1 == OperatingMode::System || m1 == OperatingMode::User)
                && (m2 == OperatingMode::System || m2 == OperatingMode::User))
            ==> register_slot(set, m1, reg_num) != register_slot(set, m2, reg_num),
{
}

/// Selecting a mode and reading the mode back gives that mode.
pub proof fn lemma_mode_bits_round_trip(mode: OperatingMode)
    ensures
        mode_of_bits(mode_bits_of(mode)) == mode,
{
}

/// The conditions come in complementary pairs: for any flags exactly one
/// condition of each pair holds.
pub proof fn lemma_conditions_complementary(flags: ConditionFlags)
    ensures
        condition_holds(flags, Condition::EQ) == !condition_holds(flags, Condition::NE),
        condition_holds(flags, Condition::CS) == !condition_holds(flags, Condition::CC),
        condition_holds(flags, Condition::MI) == !condition_holds(flags, Condition::PL),
        condition_holds(flags, Condition::VS) == !condition_holds(flags, Condition::VC),
        condition_holds(flags, Condition::HI) == !condition_holds(flags, Condition::LS),
        condition_holds(flags, Condition::GE) == !condition_holds(flags, Condition::LT),
        condition_holds(flags, Condition::GT) == !condition_holds(flags, Condition::LE),
        condition_holds(flags, Condition::AL),
{
}

/// The flags that comparing `a` with `b` (subtracting `b` from `a`) leaves:
/// negative is bit 31 of the 32-bit difference, zero says the two are
/// equal, carry says no borrow was needed (`a >= b` unsigned), and overflow
/// says the signed difference did not fit.
pub open spec fn compare_flags(a: u32, b: u32) -> ConditionFlags {
    let diff = (a - b) as u32;
    ConditionFlags {
        negative: diff >> 31u32 == 1,
        zero: a == b,
        carry: a >= b,
        signed_overflow: ((a ^ b) & (a ^ diff)) >> 31u32 == 1,
    }
}

/// `a` as a signed number is at least `b` as a signed number (flipping the
/// sign bit turns the signed order into the unsigned one).
pub open spec fn signed_at_least(a: u32, b: u32) -> bool {
    (a ^ 0x8000_0000u32) >= (b ^ 0x8000_0000u32)
}

/// After a comparison of `a` with `b`, each condition answers the question
/// it is named for: EQ/NE equality, CS/HI/CC/LS the unsigned order
/// (higher or same, higher, lower, lower or same), GE/GT/LT/LE the signed
/// order.
pub proof fn lemma_conditions_after_compare(a: u32, b: u32)
    ensures
        condition_holds(compare_flags(a, b), Condition::EQ) == (a == b),
        condition_holds(compare_flags(a, b), Condition::NE) == (a != b),
        condition_holds(compare_flags(a, b), Condition::CS) == (a >= b),
        condition_holds(compare_flags(a, b), Condition::CC) == (a < b),
        condition_holds(compare_flags(a, b), Condition::HI) == (a > b),
        condition_holds(compare_flags(a, b), Condition::LS) == (a <= b),
        condition_holds(compare_flags(a, b), Condition::GE) == signed_at_least(a, b),
        condition_holds(compare_flags(a, b), Condition::LT) == !signed_at_least(a, b),
        condition_holds(compare_flags(a, b), Condition::GT) == (signed_at_least(a, b) && a != b),
        condition_holds(compare_flags(a, b), Condition::LE) == (!signed_at_least(a, b) || a == b),
{
    let diff = (a - b) as u32;
    assert((diff >> 31u32 == 1) == (((a ^ b) & (a ^ diff)) >> 31u32 == 1)
        <==> (a ^ 0x8000_0000u32) >= (b ^ 0x8000_0000u32)) by (bit_vector)
        requires
            diff == (a - b) as u32,
    ;
}

/// The compound conditions are made of the simple ones: HI is carry set
/// and zero clear (CS and NE), LS is CC or EQ, GT is GE and NE, LE is LT or
/// EQ, for every set of flags.
pub proof fn lemma_compound_conditions(flags: ConditionFlags)
    ensures
        condition_holds(flags, Condition::HI) == (condition_holds(flags, Condition::CS) && condition_holds(flags, Condition::NE)),
        condition_holds(flags, Condition::LS) == (condition_holds(flags, Condition::CC) || condition_holds(flags, Condition::EQ)),
        condition_holds(flags, Condition::GT) == (condition_holds(flags, Condition::GE) && condition_holds(flags, Condition::NE)),
        condition_holds(flags, Condition::LE) == (condition_holds(flags, Condition::LT) || condition_holds(flags, Condition::EQ)),
        condition_holds(flags, Condition::HI) ==> flags.carry && !flags.zero,
        flags.carry && !flags.zero ==> condition_holds(flags, Condition::HI),
{
}

} // verus!
