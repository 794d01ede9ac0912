use vstd::prelude::*;
use super::cpu::InstructionFormat;

verus! {

/// The format of the ARM instruction whose bits 27..20 and 7..4 form `opcode`
/// (bits 27..20 in bits 11..4 of the opcode, bits 7..4 in bits 3..0), row by
/// row of the decoding table: `hi` is bits 27..20 and `lo` bits 7..4.
pub open spec fn arm_format_of(opcode: u16) -> InstructionFormat {
    let hi = opcode / 16;
    let lo = opcode % 16;
    if hi == 0x00 {
        if lo == 9 { InstructionFormat::Multiply } else if lo == 11 { InstructionFormat::HalfwordDataTransfer } else if lo == 13 || lo == 15 { InstructionFormat::SingleDataTransfer } else { InstructionFormat::DataProcessing }
    } else if hi == 0x01 {
        if lo == 9 { InstructionFormat::Multiply } else if lo == 11 || lo == 13 || lo == 15 { InstructionFormat::HalfwordDataTransfer } else { InstructionFormat::DataProcessing }
    } else if hi == 0x10 {
        if lo == 0 { InstructionFormat::DataProcessing } else if lo == 9 { InstructionFormat::SingleDataSwap } else if lo == 11 { InstructionFormat::HalfwordDataTransfer } else if lo == 13 || lo == 15 { InstructionFormat::SingleDataTransfer } else if lo == 8 || lo == 10 || lo == 12 || lo == 14 { InstructionFormat::Multiply } else { InstructionFormat::Undefined }
    } else if hi == 0x12 {
        if lo == 0 { InstructionFormat::DataProcessing } else if lo == 1 { InstructionFormat::BranchAndExchange } else if lo == 11 { InstructionFormat::HalfwordDataTransfer } else if lo == 13 || lo == 15 { InstructionFormat::SingleDataTransfer } else if lo == 8 || lo == 10 || lo == 12 || lo == 14 { InstructionFormat::Multiply } else { InstructionFormat::Undefined }
    } else if hi == 0x14 {
        if lo == 0 { InstructionFormat::DataProcessing } else if lo == 9 { InstructionFormat::SingleDataSwap } else if lo == 11 { InstructionFormat::HalfwordDataTransfer } else if lo == 13 || lo == 15 { InstructionFormat::SingleDataTransfer } else if lo == 8 || lo == 10 || lo == 12 || lo == 14 { InstructionFormat::MultiplyLong } else { InstructionFormat::Undefined }
    } else if hi == 0x16 {
        if lo == 0 { InstructionFormat::DataProcessing } else if lo == 11 { InstructionFormat::HalfwordDataTransfer } else if lo == 13 || lo == 15 { InstructionFormat::SingleDataTransfer } else if lo == 8 || lo == 10 || lo == 12 || lo == 14 { InstructionFormat::Multiply } else { InstructionFormat::Undefined }
    } else if (0x02 <= hi && hi <= 0x03) {
        if lo == 9 { InstructionFormat::Multiply } else if lo == 11 || lo == 13 || lo == 15 { InstructionFormat::Undefined } else { InstructionFormat::DataProcessing }
    } else if (0x06 <= hi && hi <= 0x07) {
        if lo == 9 || lo == 11 || lo == 13 || lo == 15 { InstructionFormat::Undefined } else { InstructionFormat::DataProcessing }
    } else if hi == 0x08 || hi == 0x0C {
        if lo == 9 { InstructionFormat::MultiplyLong } else if lo == 11 { InstructionFormat::HalfwordDataTransfer } else if lo == 13 || lo == 15 { InstructionFormat::SingleDataTransfer } else { InstructionFormat::DataProcessing }
    } else if hi == 0x09 || hi == 0x0D {
        if lo == 9 { InstructionFormat::MultiplyLong } else if lo == 11 || lo == 13 || lo == 15 { InstructionFormat::HalfwordDataTransfer } else { InstructionFormat::DataProcessing }
    } else if (0x0A <= hi && hi <= 0x0B) || (0x0E <= hi && hi <= 0x0F) {
        if lo == 9 { InstructionFormat::MultiplyLong } else if lo == 11 || lo == 13 || lo == 15 { InstructionFormat::Undefined } else { InstructionFormat::DataProcessing }
    } else if hi == 0x04 || hi == 0x18 || hi == 0x1A || hi == 0x1C || hi == 0x1E {
        if lo == 9 { InstructionFormat::Undefined } else if lo == 11 { InstructionFormat::HalfwordDataTransfer } else if lo == 13 || lo == 15 { InstructionFormat::SingleDataTransfer } else { InstructionFormat::DataProcessing }
    } else if hi == 0x05 || hi == 0x11 || hi == 0x13 || hi == 0x15 || hi == 0x17 || hi == 0x19 || hi == 0x1B || hi == 0x1D || hi == 0x1F {
        if lo == 9 { InstructionFormat::Undefined } else if lo == 11 || lo == 13 || lo == 15 { InstructionFormat::HalfwordDataTransfer } else { InstructionFormat::DataProcessing }
    } else if (0xF0 <= hi && hi <= 0xFF) {
        InstructionFormat::SoftwareInterrupt
    } else if (0x20 <= hi && hi <= 0x2F) || (0x31 <= hi && hi <= 0x33) || (0x35 <= hi && hi <= 0x3F) {
        InstructionFormat::DataProcessing
    } else if (0x40 <= hi && hi <= 0x5F) {
        InstructionFormat::SingleDataTransfer
    } else if (0x60 <= hi && hi <= 0x7F) {
        if lo == 0 || lo == 2 || lo == 4 || lo == 6 || lo == 8 || lo == 10 || lo == 12 || lo == 14 { InstructionFormat::SingleDataTransfer } else { InstructionFormat::Undefined }
    } else if (0x80 <= hi && hi <= 0x9F) {
        InstructionFormat::BlockDataTransfer
    } else if (0xA0 <= hi && hi <= 0xBF) {
        InstructionFormat::Branch
    } else {
        InstructionFormat::Undefined
    }
}

/// Looks an opcode up in the ARM decoding table.
pub fn arm_instruction_format(opcode: u16) -> (format: InstructionFormat)
    requires
        opcode < 4096,
    ensures
        format == arm_format_of(opcode),
{
    let hi = opcode / 16;
    let lo = opcode % 16;
    if hi == 0x00 {
        if lo == 9 { InstructionFormat::Multiply } else if lo == 11 { InstructionFormat::HalfwordDataTransfer } else if lo == 13 || lo == 15 { InstructionFormat::SingleDataTransfer } else { InstructionFormat::DataProcessing }
    } else if hi == 0x01 {
        if lo == 9 { InstructionFormat::Multiply } else if lo == 11 || lo == 13 || lo == 15 { InstructionFormat::HalfwordDataTransfer } else { InstructionFormat::DataProcessing }
    } else if hi == 0x10 {
        if lo == 0 { InstructionFormat::DataProcessing } else if lo == 9 { InstructionFormat::SingleDataSwap } else if lo == 11 { InstructionFormat::HalfwordDataTransfer } else if lo == 13 || lo == 15 { InstructionFormat::SingleDataTransfer } else if lo == 8 || lo == 10 || lo == 12 || lo == 14 { InstructionFormat::Multiply } else { InstructionFormat::Undefined }
    } else if hi == 0x12 {
        if lo == 0 { InstructionFormat::DataProcessing } else if lo == 1 { InstructionFormat::BranchAndExchange } else if lo == 11 { InstructionFormat::HalfwordDataTransfer } else if lo == 13 || lo == 15 { InstructionFormat::SingleDataTransfer } else if lo == 8 || lo == 10 || lo == 12 || lo == 14 { InstructionFormat::Multiply } else { InstructionFormat::Undefined }
    } else if hi == 0x14 {
        if lo == 0 { InstructionFormat::DataProcessing } else if lo == 9 { InstructionFormat::SingleDataSwap } else if lo == 11 { InstructionFormat::HalfwordDataTransfer } else if lo == 13 || lo == 15 { InstructionFormat::SingleDataTransfer } else if lo == 8 || lo == 10 || lo == 12 || lo == 14 { InstructionFormat::MultiplyLong } else { InstructionFormat::Undefined }
    } else if hi == 0x16 {
        if lo == 0 { InstructionFormat::DataProcessing } else if lo == 11 { InstructionFormat::HalfwordDataTransfer } else if lo == 13 || lo == 15 { InstructionFormat::SingleDataTransfer } else if lo == 8 || lo == 10 || lo == 12 || lo == 14 { InstructionFormat::Multiply } else { InstructionFormat::Undefined }
    } else if (0x02 <= hi && hi <= 0x03) {
        if lo == 9 { InstructionFormat::Multiply } else if lo == 11 || lo == 13 || lo == 15 { InstructionFormat::Undefined } else { InstructionFormat::DataProcessing }
    } else if (0x06 <= hi && hi <= 0x07) {
        if lo == 9 || lo == 11 || lo == 13 || lo == 15 { InstructionFormat::Undefined } else { InstructionFormat::DataProcessing }
    } else if hi == 0x08 || hi == 0x0C {
        if lo == 9 { InstructionFormat::MultiplyLong } else if lo == 11 { InstructionFormat::HalfwordDataTransfer } else if lo == 13 || lo == 15 { InstructionFormat::SingleDataTransfer } else { InstructionFormat::DataProcessing }
    } else if hi == 0x09 || hi == 0x0D {
        if lo == 9 { InstructionFormat::MultiplyLong } else if lo == 11 || lo == 13 || lo == 15 { InstructionFormat::HalfwordDataTransfer } else { InstructionFormat::DataProcessing }
    } else if (0x0A <= hi && hi <= 0x0B) || (0x0E <= hi && hi <= 0x0F) {
        if lo == 9 { InstructionFormat::MultiplyLong } else if lo == 11 || lo == 13 || lo == 15 { InstructionFormat::Undefined } else { InstructionFormat::DataProcessing }
    } else if hi == 0x04 || hi == 0x18 || hi == 0x1A || hi == 0x1C || hi == 0x1E {
        if lo == 9 { InstructionFormat::Undefined } else if lo == 11 { InstructionFormat::HalfwordDataTransfer } else if lo == 13 || lo == 15 { InstructionFormat::SingleDataTransfer } else { InstructionFormat::DataProcessing }
    } else if hi == 0x05 || hi == 0x11 || hi == 0x13 || hi == 0x15 || hi == 0x17 || hi == 0x19 || hi == 0x1B || hi == 0x1D || hi == 0x1F {
        if lo == 9 { InstructionFormat::Undefined } else if lo == 11 || lo == 13 || lo == 15 { InstructionFormat::HalfwordDataTransfer } else { InstructionFormat::DataProcessing }
    } else if (0xF0 <= hi && hi <= 0xFF) {
        InstructionFormat::SoftwareInterrupt
    } else if (0x20 <= hi && hi <= 0x2F) || (0x31 <= hi && hi <= 0x33) || (0x35 <= hi && hi <= 0x3F) {
        InstructionFormat::DataProcessing
    } else if (0x40 <= hi && hi <= 0x5F) {
        InstructionFormat::SingleDataTransfer
    } else if (0x60 <= hi && hi <= 0x7F) {
        if lo == 0 || lo == 2 || lo == 4 || lo == 6 || lo == 8 || lo == 10 || lo == 12 || lo == 14 { InstructionFormat::SingleDataTransfer } else { InstructionFormat::Undefined }
    } else if (0x80 <= hi && hi <= 0x9F) {
        InstructionFormat::BlockDataTransfer
    } else if (0xA0 <= hi && hi <= 0xBF) {
        InstructionFormat::Branch
    } else {
        InstructionFormat::Undefined
    }
}

} // verus!
