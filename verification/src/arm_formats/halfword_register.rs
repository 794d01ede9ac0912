use vstd::prelude::*;
use crate::bits::{bit, bits, get_bit, get_bits};
use crate::cpu::condition::{condition_of, Condition};
use crate::operations::load_store::DataType;

verus! {

/// A halfword transfer with the offset in a register.
#[derive(Clone, Copy, Debug, PartialEq, Eq, Structural)]
pub struct HalfwordRegisterOffset {
    pub halfword_common: HalfwordCommon,
    pub offset_register: u8,
}

/// A halfword transfer with an 8-bit immediate offset split into two nibbles.
#[derive(Clone, Copy, Debug, PartialEq, Eq, Structural)]
pub struct HalfwordImmediateOffset {
    pub halfword_common: HalfwordCommon,
    pub offset_high_nibble: u8,
    pub offset_low_nibble: u8,
}

/// The fields that both halfword transfer forms share.
#[derive(Clone, Copy, Debug, PartialEq, Eq, Structural)]
pub struct HalfwordCommon {
    pub is_pre_indexed: bool,
    pub up_down_bit: bool,
    pub write_back: bool,
    pub load: bool,
    pub base_register: u8,
    pub destination: u8,
    pub is_signed: bool,
    pub condition: Condition,
    pub data_type: DataType,
}

impl HalfwordCommon {
    /// The fields that an instruction word holds; bit 5 selects halfword over byte.
    pub open spec fn decoded_from(value: u32) -> HalfwordCommon {
        HalfwordCommon {
            is_pre_indexed: bit(value, 24),
            up_down_bit: bit(value, 23),
            write_back: bit(value, 21),
            load: bit(value, 20),
            base_register: bits(value, 16, 4) as u8,
            destination: bits(value, 12, 4) as u8,
            is_signed: bit(value, 6),
            condition: condition_of(bits(value, 28, 4)),
            data_type: if bit(value, 5) { DataType::Halfword } else { DataType::Byte },
        }
    }

    /// Decodes an instruction word.
    pub fn from(value: u32) -> (h: HalfwordCommon)
        ensures
            h == HalfwordCommon::decoded_from(value),
    {
        let is_halfword = get_bit(value, 5);
        HalfwordCommon {
            is_pre_indexed: get_bit(value, 24),
            up_down_bit: get_bit(value, 23),
            write_back: get_bit(value, 21),
            load: get_bit(value, 20),
            base_register: get_bits(value, 16, 4) as u8,
            destination: get_bits(value, 12, 4) as u8,
            is_signed: get_bit(value, 6),
            condition: Condition::from(get_bits(value, 28, 4)),
            data_type: if is_halfword { DataType::Halfword } else { DataType::Byte },
        }
    }
}

impl HalfwordRegisterOffset {
    /// The fields that an instruction word holds.
    pub open spec fn decoded_from(value: u32) -> HalfwordRegisterOffset {
        HalfwordRegisterOffset {
            halfword_common: HalfwordCommon::decoded_from(value),
            offset_register: bits(value, 0, 4) as u8,
        }
    }

    /// Decodes an instruction word.
    pub fn from(value: u32) -> (h: HalfwordRegisterOffset)
        ensures
            h == HalfwordRegisterOffset::decoded_from(value),
    {
        HalfwordRegisterOffset {
            halfword_common: HalfwordCommon::from(value),
            offset_register: get_bits(value, 0, 4) as u8,
        }
    }
}

impl HalfwordImmediateOffset {
    /// The fields that an instruction word holds.
    pub open spec fn decoded_from(value: u32) -> HalfwordImmediateOffset {
        HalfwordImmediateOffset {
            halfword_common: HalfwordCommon::decoded_from(value),
            offset_high_nibble: bits(value, 8, 4) as u8,
            offset_low_nibble: bits(value, 0, 4) as u8,
        }
    }

    /// Decodes an instruction word.
    pub fn from(value: u32) -> (h: HalfwordImmediateOffset)
        ensures
            h == HalfwordImmediateOffset::decoded_from(value),
    {
        HalfwordImmediateOffset {
            halfword_common: HalfwordCommon::from(value),
            offset_high_nibble: get_bits(value, 8, 4) as u8,
            offset_low_nibble: get_bits(value, 0, 4) as u8,
        }
    }
}

} // verus!
