use lib::arm_formats::data_processing::{DataProcessing as ArmDataProcessing, OpCodes};
use lib::arm_formats::halfword_register::{
    HalfwordCommon as ArmHalfwordCommon, HalfwordImmediateOffset as ArmHalfwordImmediateOffset,
    HalfwordRegisterOffset as ArmHalfwordRegisterOffset,
};
use lib::arm_formats::multiply::Multiply;
use lib::arm_formats::multiply_long::MultiplyLong as ArmMultiplyLong;
use lib::arm_formats::single_data_swap::SingleDataSwap as ArmSingleDataSwap;
use lib::arm_formats::single_data_transfer::SingleDataTransfer as ArmSingleDataTransfer;
use lib::cpu::condition::Condition as ArmCondition;
use lib::formats::branch::Branch;
use lib::formats::branch_exchange::BranchExchange;
use lib::formats::common::Condition;
use lib::formats::data_processing::DataProcessing;
use lib::formats::halfword_register::{
    apply_offset, format_byte_to_store, format_halfword_to_store, get_byte_to_load, get_halfword_to_load,
    HalfwordCommon, HalfwordImmediateOffset, HalfwordRegisterOffset,
};
use lib::formats::multiply_long::MultiplyLong;
use lib::formats::single_data_swap::SingleDataSwap;
use lib::formats::single_data_transfer::SingleDataTransfer;
use lib::formats::software_interrupt::SoftwareInterrupt;
use lib::operations::load_store::DataType;

#[test]
fn branch_test_mode() {
    let a: Branch = Branch::from(0xD12F_FF1F);
    assert_eq!(a.condition, Condition::LE);
}

#[test]
fn data_processing_dataprocessing_zero() {
    let a: DataProcessing = DataProcessing::from(0x00000000);
    assert_eq!(a.destination_register, 0);
    assert_eq!(a.op1_register, 0);
}

#[test]
fn dataprocessing_zero() {
    let b: ArmDataProcessing = ArmDataProcessing::from(0x00000000);
    assert_eq!(b.destination_register, 0);
    assert_eq!(b.op1_register, 0);
}

#[test]
fn data_processing_dataprocessing_max() {
    let a: DataProcessing = DataProcessing::from(0xFFFFFFFF);
    assert_eq!(a.destination_register, 0b1111);
    assert_eq!(a.op1_register, 0b1111);
    assert_eq!(a.opcode, 0b1111);
    assert_eq!(a.condition, Condition::Error);
    assert_eq!(a.immediate_operand, true);
    assert_eq!(a.set_condition, true);
}

#[test]
fn dataprocessing_max() {
    let b: ArmDataProcessing = ArmDataProcessing::from(0xFFFFFFFF);
    assert_eq!(b.destination_register, 0b1111);
    assert_eq!(b.op1_register, 0b1111);
    assert_eq!(b.opcode, OpCodes::MVN);
    assert_eq!(b.condition, ArmCondition::Error);
    assert_eq!(b.immediate_operand, true);
    assert_eq!(b.set_condition, true);
}

#[test]
fn halfword_register_test_halfword_common_creation_min() {
    let h: HalfwordCommon = HalfwordCommon::from(0 as u32);
    assert_eq!(h.is_pre_indexed, false);
    assert_eq!(h.up_down_bit, false);
    assert_eq!(h.write_back, false);
    assert_eq!(h.load, false);
    assert_eq!(h.base_register, 0);
    assert_eq!(h.destination, 0);
    assert_eq!(h.is_signed, false);
    assert_eq!(h.is_halfword, false);
    assert_eq!(h.condition, Condition::EQ);
}

#[test]
fn test_halfword_common_creation_min() {
    let h: ArmHalfwordCommon = ArmHalfwordCommon::from(0 as u32);
    assert_eq!(h.is_pre_indexed, false);
    assert_eq!(h.up_down_bit, false);
    assert_eq!(h.write_back, false);
    assert_eq!(h.load, false);
    assert_eq!(h.base_register, 0);
    assert_eq!(h.destination, 0);
    assert_eq!(h.is_signed, false);
    assert_eq!(h.data_type, DataType::Byte);
    assert_eq!(h.condition, ArmCondition::EQ);
}

#[test]
fn halfword_register_test_halfword_common_creation_mid() {
    let h: HalfwordCommon = HalfwordCommon::from(0x11237062);
    assert_eq!(h.is_pre_indexed, true);
    assert_eq!(h.up_down_bit, false);
    assert_eq!(h.write_back, true);
    assert_eq!(h.load, false);
    assert_eq!(h.base_register, 3);
    assert_eq!(h.destination, 7);
    assert_eq!(h.is_signed, true);
    assert_eq!(h.is_halfword, true);
    assert_eq!(h.condition, Condition::NE);
}

#[test]
fn test_halfword_common_creation_mid() {
    let h: ArmHalfwordCommon = ArmHalfwordCommon::from(0x11237062);
    assert_eq!(h.is_pre_indexed, true);
    assert_eq!(h.up_down_bit, false);
    assert_eq!(h.write_back, true);
    assert_eq!(h.load, false);
    assert_eq!(h.base_register, 3);
    assert_eq!(h.destination, 7);
    assert_eq!(h.is_signed, true);
    assert_eq!(h.data_type, DataType::Halfword);
    assert_eq!(h.condition, ArmCondition::NE);
}

#[test]
fn halfword_register_test_halfword_common_creation_max() {
    let h: HalfwordCommon = HalfwordCommon::from(0xEFFF_FFFF);
    assert_eq!(h.is_pre_indexed, true);
    assert_eq!(h.up_down_bit, true);
    assert_eq!(h.write_back, true);
    assert_eq!(h.load, true);
    assert_eq!(h.base_register, 0xF);
    assert_eq!(h.destination, 0xF);
    assert_eq!(h.is_signed, true);
    assert_eq!(h.is_halfword, true);
    assert_eq!(h.condition, Condition::AL);
}

#[test]
fn test_halfword_common_creation_max() {
    let h: ArmHalfwordCommon = ArmHalfwordCommon::from(0xEFFF_FFFF);
    assert_eq!(h.is_pre_indexed, true);
    assert_eq!(h.up_down_bit, true);
    assert_eq!(h.write_back, true);
    assert_eq!(h.load, true);
    assert_eq!(h.base_register, 0xF);
    assert_eq!(h.destination, 0xF);
    assert_eq!(h.is_signed, true);
    assert_eq!(h.data_type, DataType::Halfword);
    assert_eq!(h.condition, ArmCondition::AL);
}

#[test]
fn halfword_register_test_halfword_register_offset_min() {
    let h: HalfwordRegisterOffset = HalfwordRegisterOffset::from(0);
    assert_eq!(h.offset_register, 0);
}

#[test]
fn test_halfword_register_offset_min() {
    let h: ArmHalfwordRegisterOffset = ArmHalfwordRegisterOffset::from(0);
    assert_eq!(h.offset_register, 0);
}

#[test]
fn halfword_register_test_halfword_register_offset_mid() {
    let h: HalfwordRegisterOffset = HalfwordRegisterOffset::from(7);
    assert_eq!(h.offset_register, 7);
}

#[test]
fn test_halfword_register_offset_mid() {
    let h: ArmHalfwordRegisterOffset = ArmHalfwordRegisterOffset::from(7);
    assert_eq!(h.offset_register, 7);
}

#[test]
fn halfword_register_test_halfword_register_offset_max() {
    let h: HalfwordRegisterOffset = HalfwordRegisterOffset::from(0xF as u32);
    assert_eq!(h.offset_register, 0xF);
}

#[test]
fn test_halfword_register_offset_max() {
    let h: ArmHalfwordRegisterOffset = ArmHalfwordRegisterOffset::from(0xF as u32);
    assert_eq!(h.offset_register, 0xF);
}

#[test]
fn halfword_register_test_halfword_immediate_offset_min() {
    let h: HalfwordImmediateOffset = HalfwordImmediateOffset::from(0);
    assert_eq!(h.offset_high_nibble, 0);
    assert_eq!(h.offset_low_nibble, 0);
}

#[test]
fn test_halfword_immediate_offset_min() {
    let h: ArmHalfwordImmediateOffset = ArmHalfwordImmediateOffset::from(0);
    assert_eq!(h.offset_high_nibble, 0);
    assert_eq!(h.offset_low_nibble, 0);
}

#[test]
fn halfword_register_test_halfword_immediate_offset_mid() {
    let h: HalfwordImmediateOffset = HalfwordImmediateOffset::from(0x707 as u32);
    assert_eq!(h.offset_high_nibble, 7);
    assert_eq!(h.offset_low_nibble, 7);
}

#[test]
fn test_halfword_immediate_offset_mid() {
    let h: ArmHalfwordImmediateOffset = ArmHalfwordImmediateOffset::from(0x707 as u32);
    assert_eq!(h.offset_high_nibble, 7);
    assert_eq!(h.offset_low_nibble, 7);
}

#[test]
fn halfword_register_test_halfword_immediate_offset_max() {
    let h: HalfwordImmediateOffset = HalfwordImmediateOffset::from(0xF0F as u32);
    assert_eq!(h.offset_high_nibble, 0xF);
    assert_eq!(h.offset_low_nibble, 0xF);
}

#[test]
fn test_halfword_immediate_offset_max() {
    let h: ArmHalfwordImmediateOffset = ArmHalfwordImmediateOffset::from(0xF0F as u32);
    assert_eq!(h.offset_high_nibble, 0xF);
    assert_eq!(h.offset_low_nibble, 0xF);
}

#[test]
fn test_get_halfword_to_load() {
    assert_eq!(get_halfword_to_load(0x8000_0000, 0x1000, true), 0xFFFF_8000);
    assert_eq!(get_halfword_to_load(0x9997_1122, 0x1000, false), 0x0000_9997);
    assert_eq!(get_halfword_to_load(0x9997_1122, 0x1002, false), 0x0000_1122);
    assert_eq!(get_halfword_to_load(0x9997_1122, 0x1002, true), 0x0000_1122);
}

#[test]
fn test_get_byte_to_load() {
    assert_eq!(get_byte_to_load(0x8000_0000, 0x1000, true), 0xFFFF_FF80);
    assert_eq!(get_byte_to_load(0x0080_0000, 0x1001, true), 0xFFFF_FF80);
    assert_eq!(get_byte_to_load(0x0000_8000, 0x1002, true), 0xFFFF_FF80);
    assert_eq!(get_byte_to_load(0x0000_0080, 0x1003, true), 0xFFFF_FF80);
    assert_eq!(get_byte_to_load(0xFF00_0080, 0x1000, false), 0x0000_00FF);
    assert_eq!(get_byte_to_load(0x00FF_0080, 0x1001, false), 0x0000_00FF);
    assert_eq!(get_byte_to_load(0x0000_FF80, 0x1002, false), 0x0000_00FF);
    assert_eq!(get_byte_to_load(0x0000_FF80, 0x1003, false), 0x0000_0080);
}

#[test]
fn test_apply_offset() {
    assert_eq!(apply_offset(0x0004, 0x0002, true), 0x0006);
    assert_eq!(apply_offset(0x0004, 0x0002, false), 0x0002);
}

#[test]
fn test_format_byte_to_store() {
    assert_eq!(format_byte_to_store(0xF0), 0xF0F0_F0F0);
    assert_eq!(format_byte_to_store(0xFF), 0xFFFF_FFFF);
    assert_eq!(format_byte_to_store(0x00), 0x0000_0000);
}

#[test]
fn test_format_halfword_to_store() {
    assert_eq!(format_halfword_to_store(0xFF00), 0xFF00_FF00);
    assert_eq!(format_halfword_to_store(0xF0F0), 0xF0F0_F0F0);
    assert_eq!(format_halfword_to_store(0), 0x0);
}

#[test]
fn multiply_zero() {
    let a: Multiply = Multiply::from(0x00000000);
    assert_eq!(a.condition, ArmCondition::EQ);
    assert_eq!(a.accumulate, false);
    assert_eq!(a.set_condition, false);
    assert_eq!(a.destination_register, 0);
    assert_eq!(a.op3_register, 0);
    assert_eq!(a.op2_register, 0);
    assert_eq!(a.op1_register, 0);
}

#[test]
fn multiply_max() {
    let a: Multiply = Multiply::from(0xFFFFFFFF);
    assert_eq!(a.condition, ArmCondition::Error);
    assert_eq!(a.accumulate, true);
    assert_eq!(a.set_condition, true);
    assert_eq!(a.destination_register, 0b1111);
    assert_eq!(a.op3_register, 0b1111);
    assert_eq!(a.op2_register, 0b1111);
    assert_eq!(a.op1_register, 0b1111);
}

#[test]
fn multiply_long_multiply_long_zero() {
    let a: MultiplyLong = MultiplyLong::from(0x00000000);
    assert_eq!(a.condition, Condition::EQ);
    assert_eq!(a.unsigned, true);
    assert_eq!(a.accumulate, false);
    assert_eq!(a.set_condition, false);
    assert_eq!(a.destination_register_hi, 0);
    assert_eq!(a.destination_register_lo, 0);
    assert_eq!(a.op2_register, 0);
    assert_eq!(a.op1_register, 0);
}

#[test]
fn multiply_long_zero() {
    let a: ArmMultiplyLong = ArmMultiplyLong::from(0x00000000);
    assert_eq!(a.condition, ArmCondition::EQ);
    assert_eq!(a.unsigned, true);
    assert_eq!(a.accumulate, false);
    assert_eq!(a.set_condition, false);
    assert_eq!(a.destination_register_hi, 0);
    assert_eq!(a.destination_register_lo, 0);
    assert_eq!(a.op2_register, 0);
    assert_eq!(a.op1_register, 0);
}

#[test]
fn multiply_long_multiply_long_max() {
    let a: MultiplyLong = MultiplyLong::from(0xFFFFFFFF);
    assert_eq!(a.condition, Condition::Error);
    assert_eq!(a.unsigned, false);
    assert_eq!(a.accumulate, true);
    assert_eq!(a.set_condition, true);
    assert_eq!(a.destination_register_hi, 0b1111);
    assert_eq!(a.destination_register_lo, 0b1111);
    assert_eq!(a.op2_register, 0b1111);
    assert_eq!(a.op1_register, 0b1111);
}

#[test]
fn multiply_long_max() {
    let a: ArmMultiplyLong = ArmMultiplyLong::from(0xFFFFFFFF);
    assert_eq!(a.condition, ArmCondition::Error);
    assert_eq!(a.unsigned, false);
    assert_eq!(a.accumulate, true);
    assert_eq!(a.set_condition, true);
    assert_eq!(a.destination_register_hi, 0b1111);
    assert_eq!(a.destination_register_lo, 0b1111);
    assert_eq!(a.op2_register, 0b1111);
    assert_eq!(a.op1_register, 0b1111);
}

#[test]
fn multiply_long_example() {
    let a: ArmMultiplyLong = ArmMultiplyLong::from(0xE09_432_91);
    assert_eq!(a.condition, ArmCondition::AL);
    assert_eq!(a.unsigned, true);
    assert_eq!(a.accumulate, false);
    assert_eq!(a.set_condition, true);
    assert_eq!(a.destination_register_hi, 4);
    assert_eq!(a.destination_register_lo, 3);
    assert_eq!(a.op2_register, 2);
    assert_eq!(a.op1_register, 1);
}

#[test]
fn single_data_swap_singledataswap_zero() {
    let a: SingleDataSwap = SingleDataSwap::from(0x00000000);
    assert_eq!(a.destination_register, 0);
    assert_eq!(a.source_register, 0);
    assert_eq!(a.base_register, 0);
    assert_eq!(a.byte_word, false);
}

#[test]
fn singledataswap_zero() {
    let b: ArmSingleDataSwap = ArmSingleDataSwap::from(0x00000000);
    assert_eq!(b.destination_register, 0);
    assert_eq!(b.source_register, 0);
    assert_eq!(b.base_register, 0);
    assert_eq!(b.byte, false);
}

#[test]
fn single_data_swap_singledataswap_max() {
    let a: SingleDataSwap = SingleDataSwap::from(0xFFFFFFFF);
    assert_eq!(a.destination_register, 0b1111);
    assert_eq!(a.condition, Condition::Error);
    assert_eq!(a.byte_word, true);
}

#[test]
fn singledataswap_max() {
    let b: ArmSingleDataSwap = ArmSingleDataSwap::from(0xFFFFFFFF);
    assert_eq!(b.destination_register, 0b1111);
    assert_eq!(b.condition, ArmCondition::Error);
    assert_eq!(b.byte, true);
}

#[test]
fn single_data_transfer_singledatatransfer_zero() {
    let a: SingleDataTransfer = SingleDataTransfer::from(0x00000000);
    assert_eq!(a.destination_register, 0);
    assert_eq!(a.op1_register, 0);
    assert_eq!(a.is_pre_indexed, false);
    assert_eq!(a.up_down, false);
    assert_eq!(a.is_byte, false);
    assert_eq!(a.load, false);
}

#[test]
fn singledatatransfer_zero() {
    let b: ArmSingleDataTransfer = ArmSingleDataTransfer::from(0x00000000);
    assert_eq!(b.destination_register, 0);
    assert_eq!(b.op1_register, 0);
    assert_eq!(b.is_pre_indexed, false);
    assert_eq!(b.up_down, false);
    assert_eq!(b.is_byte, false);
    assert_eq!(b.load, false);
}

#[test]
fn single_data_transfer_singledatatransfer_max() {
    let a: SingleDataTransfer = SingleDataTransfer::from(0xFFFFFFFF);
    assert_eq!(a.destination_register, 0b1111);
    assert_eq!(a.op1_register, 0b1111);
    assert_eq!(a.condition, Condition::Error);
    assert_eq!(a.offset_is_register, true);
    assert_eq!(a.is_pre_indexed, true);
    assert_eq!(a.up_down, true);
    assert_eq!(a.is_byte, true);
    assert_eq!(a.load, true);
}

#[test]
fn singledatatransfer_max() {
    let b: ArmSingleDataTransfer = ArmSingleDataTransfer::from(0xFFFFFFFF);
    assert_eq!(b.destination_register, 0b1111);
    assert_eq!(b.op1_register, 0b1111);
    assert_eq!(b.condition, ArmCondition::Error);
    assert_eq!(b.offset_is_register, true);
    assert_eq!(b.is_pre_indexed, true);
    assert_eq!(b.up_down, true);
    assert_eq!(b.is_byte, true);
    assert_eq!(b.load, true);
}

#[test]
fn branch_exchange_test_mode() {
    let a: BranchExchange = BranchExchange::from(0xD12F_FF1F);
    assert_eq!(a.rn, 15);
    let b: BranchExchange = BranchExchange::from(0xD12F_FF1E);
    assert_eq!(b.rn, 14);
}

#[test]
fn test_execute() {
    let swi: SoftwareInterrupt = SoftwareInterrupt::from(0xEF00_0012);
    assert_eq!(swi.condition, Condition::AL);
}
