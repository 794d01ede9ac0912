use vstd::prelude::*;
use crate::bits::{bit, bits, get_bit, get_bits};
use crate::operations::load_store::DataType;
use super::common::{condition_of, Condition, Shift};

verus! {

/// A single data transfer (LDR/STR) instruction.
#[derive(Clone, Copy, Debug, PartialEq, Eq, Structural)]
pub struct SingleDataTransfer {
    pub offset: SingleDataTransferOperand,
    pub destination_register: u8,
    pub op1_register: u8,
    pub load: bool,
    pub write_back: bool,
    pub is_byte: bool,
    pub up_down: bool,
    pub is_pre_indexed: bool,
    pub offset_is_register: bool,
    pub condition: Condition,
    pub data_type: DataType,
}

impl SingleDataTransfer {
    /// The fields that an instruction word holds.
    pub open spec fn decoded_from(value: u32) -> SingleDataTransfer {
        SingleDataTransfer {
            offset: SingleDataTransferOperand::decoded_from(value),
            destination_register: bits(value, 12, 4) as u8,
            op1_register: bits(value, 16, 4) as u8,
            load: bit(value, 20),
            write_back: bit(value, 21),
            is_byte: bit(value, 22),
            up_down: bit(value, 23),
            is_pre_indexed: bit(value, 24),
            offset_is_register: bit(value, 25),
            condition: condition_of(bits(value, 28, 4)),
            data_type: if bit(value, 22) { DataType::Byte } else { DataType::Word },
        }
    }

    /// Decodes an instruction word.
    pub fn from(value: u32) -> (s: SingleDataTransfer)
        ensures
            s == SingleDataTransfer::decoded_from(value),
    {
        let is_byte = get_bit(value, 22);
        SingleDataTransfer {
            offset: SingleDataTransferOperand::from(value),
            destination_register: get_bits(value, 12, 4) as u8,
            op1_register: get_bits(value, 16, 4) as u8,
            load: get_bit(value, 20),
            write_back: get_bit(value, 21),
            is_byte,
            up_down: get_bit(value, 23),
            is_pre_indexed: get_bit(value, 24),
            offset_is_register: get_bit(value, 25),
            condition: Condition::from(get_bits(value, 28, 4)),
            data_type: if is_byte { DataType::Byte } else { DataType::Word },
        }
    }
}

/// The offset operand of a single data transfer: an 8-bit immediate here.
#[derive(Clone, Copy, Debug, PartialEq, Eq, Structural)]
pub struct SingleDataTransferOperand {
    pub shift: Shift,
    pub rm: u8,
    pub immediate_value: u8,
    pub immediate: bool,
}

impl SingleDataTransferOperand {
    /// The fields that an instruction word holds.
    pub open spec fn decoded_from(value: u32) -> SingleDataTransferOperand {
        SingleDataTransferOperand {
            shift: Shift::decoded_from(value),
            rm: bits(value, 0, 4) as u8,
            immediate_value: bits(value, 0, 8) as u8,
            immediate: bit(value, 25),
        }
    }

    /// Decodes the offset fields of an instruction word.
    pub fn from(value: u32) -> (o: SingleDataTransferOperand)
        ensures
            o == SingleDataTransferOperand::decoded_from(value),
    {
        SingleDataTransferOperand {
            shift: Shift::from(value),
            rm: get_bits(value, 0, 4) as u8,
            immediate_value: get_bits(value, 0, 8) as u8,
            immediate: get_bit(value, 25),
        }
    }
}

} // verus!
