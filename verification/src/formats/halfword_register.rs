use vstd::prelude::*;
use crate::bits::{bit, bits, get_bit, get_bits};
use super::common::{condition_of, Condition};

verus! {

/// A halfword transfer with the offset in a register.
#[derive(Clone, Copy, Debug, PartialEq, Eq, Structural)]
pub struct HalfwordRegisterOffset {
    pub halfword_common: HalfwordCommon,
    pub offset_register: u8,
}

/// A halfword transfer with an 8-bit immediate offset split into two nibbles.
#[derive(Clone, Copy, Debug, PartialEq, Eq, Structural)]
pub struct HalfwordImmediateOffset {
    pub halfword_common: HalfwordCommon,
    pub offset_high_nibble: u8,
    pub offset_low_nibble: u8,
}

/// The fields that both halfword transfer forms share.
#[derive(Clone, Copy, Debug, PartialEq, Eq, Structural)]
pub struct HalfwordCommon {
    pub is_pre_indexed: bool,
    pub up_down_bit: bool,
    pub write_back: bool,
    pub load: bool,
    pub base_register: u8,
    pub destination: u8,
    pub is_signed: bool,
    pub is_halfword: bool,
    pub condition: Condition,
}

impl HalfwordCommon {
    /// The fields that an instruction word holds.
    pub open spec fn decoded_from(value: u32) -> HalfwordCommon {
        HalfwordCommon {
            is_pre_indexed: bit(value, 24),
            up_down_bit: bit(value, 23),
            write_back: bit(value, 21),
            load: bit(value, 20),
            base_register: bits(value, 16, 4) as u8,
            destination: bits(value, 12, 4) as u8,
            is_signed: bit(value, 6),
            is_halfword: bit(value, 5),
            condition: condition_of(bits(value, 28, 4)),
        }
    }

    /// Decodes an instruction word.
    pub fn from(value: u32) -> (h: HalfwordCommon)
        ensures
            h == HalfwordCommon::decoded_from(value),
    {
        HalfwordCommon {
            is_pre_indexed: get_bit(value, 24),
            up_down_bit: get_bit(value, 23),
            write_back: get_bit(value, 21),
            load: get_bit(value, 20),
            base_register: get_bits(value, 16, 4) as u8,
            destination: get_bits(value, 12, 4) as u8,
            is_signed: get_bit(value, 6),
            is_halfword: get_bit(value, 5),
            condition: Condition::from(get_bits(value, 28, 4)),
        }
    }
}

impl HalfwordRegisterOffset {
    /// The fields that an instruction word holds.
    pub open spec fn decoded_from(value: u32) -> HalfwordRegisterOffset {
        HalfwordRegisterOffset {
            halfword_common: HalfwordCommon::decoded_from(value),
            offset_register: bits(value, 0, 4) as u8,
        }
    }

    /// Decodes an instruction word.
    pub fn from(value: u32) -> (h: HalfwordRegisterOffset)
        ensures
            h == HalfwordRegisterOffset::decoded_from(value),
    {
        HalfwordRegisterOffset {
            halfword_common: HalfwordCommon::from(value),
            offset_register: get_bits(value, 0, 4) as u8,
        }
    }
}

impl HalfwordImmediateOffset {
    /// The fields that an instruction word holds.
    pub open spec fn decoded_from(value: u32) -> HalfwordImmediateOffset {
        HalfwordImmediateOffset {
            halfword_common: HalfwordCommon::decoded_from(value),
            offset_high_nibble: bits(value, 8, 4) as u8,
            offset_low_nibble: bits(value, 0, 4) as u8,
        }
    }

    /// Decodes an instruction word.
    pub fn from(value: u32) -> (h: HalfwordImmediateOffset)
        ensures
            h == HalfwordImmediateOffset::decoded_from(value),
    {
        HalfwordImmediateOffset {
            halfword_common: HalfwordCommon::from(value),
            offset_high_nibble: get_bits(value, 8, 4) as u8,
            offset_low_nibble: get_bits(value, 0, 4) as u8,
        }
    }
}

/// A halfword repeated over both halves of a word.
pub open spec fn repeated_halfword(value: u16) -> u32 {
    ((value as u32) << 16u32) | (value as u32)
}

/// A byte repeated over all four bytes of a word.
pub open spec fn repeated_byte(value: u8) -> u32 {
    ((value as u32) << 24u32) | ((value as u32) << 16u32) | ((value as u32) << 8u32) | (value as u32)
}

/// The byte of a memory word that an address selects: the word-aligned address
/// selects bits 31..24, the next address bits 23..16, and so on.
pub open spec fn addressed_byte(base_value: u32, address: u32) -> u32 {
    if address & 3 == 0 {
        bits(base_value, 24, 8)
    } else if address & 3 == 1 {
        bits(base_value, 16, 8)
    } else if address & 3 == 2 {
        bits(base_value, 8, 8)
    } else {
        bits(base_value, 0, 8)
    }
}

/// The halfword of a memory word that an address selects: the word-aligned
/// address selects bits 31..16, an address with bit 1 set bits 15..0.
pub open spec fn addressed_halfword(base_value: u32, address: u32) -> u32 {
    if address & 3 == 0 { bits(base_value, 16, 16) } else { bits(base_value, 0, 16) }
}

/// Repeats a halfword over 32 bits.
pub fn format_halfword_to_store(value_to_store: u16) -> (r: u32)
    ensures
        r == repeated_halfword(value_to_store),
{
    ((value_to_store as u32) << 16) | (value_to_store as u32)
}

/// Repeats a byte over 32 bits.
pub fn format_byte_to_store(value_to_store: u8) -> (r: u32)
    ensures
        r == repeated_byte(value_to_store),
{
    ((value_to_store as u32) << 24) | ((value_to_store as u32) << 16) | ((value_to_store as u32) << 8)
        | (value_to_store as u32)
}

/// The byte that an address selects in a memory word, zero-extended, or
/// sign-extended when `signed` is set.
pub fn get_byte_to_load(base_value: u32, address: u32, signed: bool) -> (r: u32)
    ensures
        r == if signed && addressed_byte(base_value, address) & 0x80 != 0 {
            0xFFFF_FF00u32 | addressed_byte(base_value, address)
        } else {
            addressed_byte(base_value, address)
        },
{
    let data: u32 = if (address & 0x3) == 0 {
        get_bits(base_value, 24, 8)
    } else if (address & 0x3) == 1 {
        get_bits(base_value, 16, 8)
    } else if (address & 0x3) == 2 {
        get_bits(base_value, 8, 8)
    } else {
        get_bits(base_value, 0, 8)
    };
    if !signed || (data & 0x80) == 0 {
        data
    } else {
        0xFFFF_FF00 | data
    }
}

/// The halfword that an address selects in a memory word, zero-extended, or
/// sign-extended when `signed` is set. An address with bits 1..0 equal to 01
/// is not halfword aligned and has no halfword.
pub fn get_halfword_to_load(base_value: u32, address: u32, signed: bool) -> (r: u32)
    requires
        address & 3 == 0 || address & 2 == 2,
    ensures
        r == if signed && addressed_halfword(base_value, address) & 0x8000 != 0 {
            0xFFFF_0000u32 | addressed_halfword(base_value, address)
        } else {
            addressed_halfword(base_value, address)
        },
{
    let data: u32 = if (address & 0x3) == 0 {
        get_bits(base_value, 16, 16)
    } else {
        get_bits(base_value, 0, 16)
    };
    if !signed || (data & 0x8000) == 0 {
        data
    } else {
        0xFFFF_0000 | data
    }
}

/// Adds the offset to the base address, or subtracts it when `add` is clear.
pub fn apply_offset(base_value: u32, offset: u8, add: bool) -> (r: u32)
    requires
        add ==> base_value + offset <= u32::MAX,
        !add ==> offset <= base_value,
    ensures
        r == if add { base_value + offset } else { base_value - offset },
{
    if add {
        base_value + (offset as u32)
    } else {
        base_value - (offset as u32)
    }
}

} // verus!
