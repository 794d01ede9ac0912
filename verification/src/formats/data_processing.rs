use vstd::prelude::*;
use crate::bits::{bit, bits, get_bit, get_bits};
use crate::cpu::program_status_register::ConditionFlags;
use super::common::{condition_of, Condition, Shift};

verus! {

/// The sixteen data processing operations.
#[derive(Clone, Copy, Debug, PartialEq, Eq, Structural)]
pub enum OpCodes {
    AND,
    EOR,
    SUB,
    RSB,
    ADD,
    ADC,
    SBC,
    RSC,
    TST,
    TEQ,
    CMP,
    CMN,
    ORR,
    MOV,
    BIC,
    MVN,
    Error,
}

/// The operation that a 4-bit code names.
pub open spec fn opcode_of(value: u8) -> OpCodes {
    if value == 0 { OpCodes::AND }
    else if value == 1 { OpCodes::EOR }
    else if value == 2 { OpCodes::SUB }
    else if value == 3 { OpCodes::RSB }
    else if value == 4 { OpCodes::ADD }
    else if value == 5 { OpCodes::ADC }
    else if value == 6 { OpCodes::SBC }
    else if value == 7 { OpCodes::RSC }
    else if value == 8 { OpCodes::TST }
    else if value == 9 { OpCodes::TEQ }
    else if value == 10 { OpCodes::CMP }
    else if value == 11 { OpCodes::CMN }
    else if value == 12 { OpCodes::ORR }
    else if value == 13 { OpCodes::MOV }
    else if value == 14 { OpCodes::BIC }
    else { OpCodes::MVN }
}

impl OpCodes {
    /// Decodes an operation code; only codes below 16 exist.
    pub fn from(value: u8) -> (op: OpCodes)
        requires
            value < 16,
        ensures
            op == opcode_of(value),
    {
        match value {
            0 => OpCodes::AND,
            1 => OpCodes::EOR,
            2 => OpCodes::SUB,
            3 => OpCodes::RSB,
            4 => OpCodes::ADD,
            5 => OpCodes::ADC,
            6 => OpCodes::SBC,
            7 => OpCodes::RSC,
            8 => OpCodes::TST,
            9 => OpCodes::TEQ,
            10 => OpCodes::CMP,
            11 => OpCodes::CMN,
            12 => OpCodes::ORR,
            13 => OpCodes::MOV,
            14 => OpCodes::BIC,
            _ => OpCodes::MVN,
        }
    }
}

/// The flags of an operation whose 64-bit result is `value`: the carry is
/// any bit above bit 31, and overflow means the operands share a sign that
/// the result does not.
pub open spec fn result_flags(value: u64, op1: u32, op2: u32) -> ConditionFlags {
    ConditionFlags {
        negative: (value & (0x1u64 << 31u64)) != 0,
        zero: value == 0,
        carry: (value >> 32u64) != 0,
        signed_overflow: ((op1 >> 31u32) != 0) == ((op2 >> 31u32) != 0)
            && ((op1 >> 31u32) != 0) != (((value >> 31u64) & 0x01) != 0),
    }
}

/// A data processing (ALU) instruction with the opcode kept as a number.
#[derive(Clone, Copy, Debug, PartialEq, Eq, Structural)]
pub struct DataProcessing {
    pub op1_register: u8,
    pub destination_register: u8,
    pub operand2: DataProcessingOperand,
    pub opcode: u8,
    pub set_condition: bool,
    pub immediate_operand: bool,
    pub condition: Condition,
}

impl DataProcessing {
    /// The fields that an instruction word holds.
    pub open spec fn decoded_from(value: u32) -> DataProcessing {
        DataProcessing {
            op1_register: bits(value, 16, 4) as u8,
            destination_register: bits(value, 12, 4) as u8,
            operand2: DataProcessingOperand::decoded_from(value),
            opcode: bits(value, 21, 4) as u8,
            set_condition: bit(value, 20),
            immediate_operand: bit(value, 25),
            condition: condition_of(bits(value, 28, 4)),
        }
    }

    /// Decodes an instruction word.
    pub fn from(value: u32) -> (d: DataProcessing)
        ensures
            d == DataProcessing::decoded_from(value),
    {
        DataProcessing {
            op1_register: get_bits(value, 16, 4) as u8,
            destination_register: get_bits(value, 12, 4) as u8,
            operand2: DataProcessingOperand::from(value),
            opcode: get_bits(value, 21, 4) as u8,
            set_condition: get_bit(value, 20),
            immediate_operand: get_bit(value, 25),
            condition: Condition::from(get_bits(value, 28, 4)),
        }
    }

    /// The flags of an operation whose 64-bit result is `value`.
    fn set_flags(&self, value: u64, op1: u32, op2: u32) -> (flags: ConditionFlags)
        ensures
            flags == result_flags(value, op1, op2),
    {
        let carryout: bool = (value >> 32) != 0;
        let op1_sign: bool = (op1 >> 31) != 0;
        let op2_sign: bool = (op2 >> 31) != 0;
        let value_sign: bool = ((value >> 31) & 0x01) != 0;
        ConditionFlags {
            negative: (value & (0x1u64 << 31u64)) != 0,
            zero: value == 0,
            carry: carryout,
            signed_overflow: (op1_sign == op2_sign) && (op1_sign != value_sign),
        }
    }
}

/// The second operand of a data processing instruction.
#[derive(Clone, Copy, Debug, PartialEq, Eq, Structural)]
pub struct DataProcessingOperand {
    pub shift: Shift,
    pub rm: u8,
    pub rotate: u8,
    pub immediate_value: u8,
    pub immediate: bool,
}

impl DataProcessingOperand {
    /// The fields that an instruction word holds.
    pub open spec fn decoded_from(value: u32) -> DataProcessingOperand {
        DataProcessingOperand {
            shift: Shift::decoded_from(value),
            rm: bits(value, 0, 4) as u8,
            rotate: bits(value, 8, 4) as u8,
            immediate_value: bits(value, 0, 8) as u8,
            immediate: bit(value, 25),
        }
    }

    /// Decodes the operand fields of an instruction word.
    pub fn from(value: u32) -> (o: DataProcessingOperand)
        ensures
            o == DataProcessingOperand::decoded_from(value),
    {
        DataProcessingOperand {
            shift: Shift::from(value),
            rm: get_bits(value, 0, 4) as u8,
            rotate: get_bits(value, 8, 4) as u8,
            immediate_value: get_bits(value, 0, 8) as u8,
            immediate: get_bit(value, 25),
        }
    }
}

/// The register fields of a data-processing word: the first operand
/// register (Rn) is bits 19..16 and the destination register (Rd) bits
/// 15..12; for example 0xE0812001 (ADD r2, r1, r1) has Rn 1 and Rd 2.
pub proof fn lemma_data_processing_registers(value: u32)
    ensures
        DataProcessing::decoded_from(value).op1_register == (value >> 16u32) & 0xF,
        DataProcessing::decoded_from(value).destination_register == (value >> 12u32) & 0xF,
        DataProcessing::decoded_from(value).operand2.rm == value & 0xF,
{
    assert((value >> 16u32) & 0xF < 16 && (value >> 12u32) & 0xF < 16 && value & 0xF < 16) by (bit_vector);
    assert(bits(value, 16, 4) == (value >> 16u32) & 0xF && bits(value, 12, 4) == (value >> 12u32) & 0xF
        && bits(value, 0, 4) == value & 0xF) by (bit_vector);
}

} // verus!
