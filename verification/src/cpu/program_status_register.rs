use vstd::prelude::*;
use crate::bits::{bit, bits, get_bit, get_bits};

verus! {

/// The N, Z, C and V flags of a program status register.
#[derive(Clone, Copy, Debug, PartialEq, Eq, Structural)]
pub struct ConditionFlags {
    pub negative: bool,
    pub zero: bool,
    pub carry: bool,
    pub signed_overflow: bool,
}

impl ConditionFlags {
    /// The flags that bits 31..28 of a status word hold.
    pub open spec fn decoded_from(value: u32) -> ConditionFlags {
        ConditionFlags {
            negative: bit(value, 31),
            zero: bit(value, 30),
            carry: bit(value, 29),
            signed_overflow: bit(value, 28),
        }
    }

    /// Reads the flags from bits 31..28 of a status word.
    pub fn from(value: u32) -> (f: ConditionFlags)
        ensures
            f == ConditionFlags::decoded_from(value),
    {
        ConditionFlags {
            negative: get_bit(value, 31),
            zero: get_bit(value, 30),
            carry: get_bit(value, 29),
            signed_overflow: get_bit(value, 28),
        }
    }
}

/// The interrupt masks, the state bit and the mode bits of a status register.
#[derive(Clone, Copy, Debug, PartialEq, Eq, Structural)]
pub struct ControlBits {
    pub fiq_disable: bool,
    pub irq_disable: bool,
    pub state_bit: bool,
    pub mode_bits: u8,
}

impl ControlBits {
    /// The control bits that bits 7..0 of a status word hold.
    pub open spec fn decoded_from(value: u32) -> ControlBits {
        ControlBits {
            irq_disable: bit(value, 7),
            fiq_disable: bit(value, 6),
            state_bit: bit(value, 5),
            mode_bits: bits(value, 0, 5) as u8,
        }
    }

    /// Reads the control bits from bits 7..0 of a status word.
    pub fn from(value: u32) -> (c: ControlBits)
        ensures
            c == ControlBits::decoded_from(value),
    {
        ControlBits {
            irq_disable: get_bit(value, 7),
            fiq_disable: get_bit(value, 6),
            state_bit: get_bit(value, 5),
            mode_bits: get_bits(value, 0, 5) as u8,
        }
    }
}

/// A program status register (CPSR or SPSR).
#[derive(Clone, Copy, Debug, PartialEq, Eq, Structural)]
pub struct ProgramStatusRegister {
    pub flags: ConditionFlags,
    pub reserved: u32,
    pub control_bits: ControlBits,
}

/// The status word that a register's flags and control bits make up.
pub open spec fn psr_word(reg: ProgramStatusRegister) -> u32 {
    (if reg.flags.negative { 1u32 << 31u32 } else { 0u32 })
    | (if reg.flags.zero { 1u32 << 30u32 } else { 0u32 })
    | (if reg.flags.carry { 1u32 << 29u32 } else { 0u32 })
    | (if reg.flags.signed_overflow { 1u32 << 28u32 } else { 0u32 })
    | (if reg.control_bits.irq_disable { 1u32 << 7u32 } else { 0u32 })
    | (if reg.control_bits.fiq_disable { 1u32 << 6u32 } else { 0u32 })
    | (if reg.control_bits.state_bit { 1u32 << 5u32 } else { 0u32 })
    | (reg.control_bits.mode_bits as u32)
}

impl ProgramStatusRegister {
    /// The register that a status word describes.
    pub open spec fn decoded_from(value: u32) -> ProgramStatusRegister {
        ProgramStatusRegister {
            flags: ConditionFlags::decoded_from(value),
            reserved: bits(value, 8, 20),
            control_bits: ControlBits::decoded_from(value),
        }
    }

    /// Splits a status word into its fields.
    pub fn from(value: u32) -> (r: ProgramStatusRegister)
        ensures
            r == ProgramStatusRegister::decoded_from(value),
    {
        ProgramStatusRegister {
            flags: ConditionFlags::from(value),
            reserved: get_bits(value, 8, 20),
            control_bits: ControlBits::from(value),
        }
    }

    /// Packs the flags and control bits back into a status word; the reserved
    /// field is not written.
    pub fn to_u32(self) -> (value: u32)
        ensures
            value == psr_word(self),
    {
        (if self.flags.negative { 1u32 << 31u32 } else { 0u32 })
        | (if self.flags.zero { 1u32 << 30u32 } else { 0u32 })
        | (if self.flags.carry { 1u32 << 29u32 } else { 0u32 })
        | (if self.flags.signed_overflow { 1u32 << 28u32 } else { 0u32 })
        | (if self.control_bits.irq_disable { 1u32 << 7u32 } else { 0u32 })
        | (if self.control_bits.fiq_disable { 1u32 << 6u32 } else { 0u32 })
        | (if self.control_bits.state_bit { 1u32 << 5u32 } else { 0u32 })
        | (self.control_bits.mode_bits as u32)
    }
}

/// Packing a status word that was just split gives back its flag, control and
/// mode bits; the reserved bits 27..8 read as zero.
pub proof fn lemma_word_round_trip(value: u32)
    ensures
        psr_word(ProgramStatusRegister::decoded_from(value)) == value & 0xF000_00FFu32,
{
    assert(((if (value >> 31u32) & 1u32 == 1u32 { 1u32 << 31u32 } else { 0u32 })
        | (if (value >> 30u32) & 1u32 == 1u32 { 1u32 << 30u32 } else { 0u32 })
        | (if (value >> 29u32) & 1u32 == 1u32 { 1u32 << 29u32 } else { 0u32 })
        | (if (value >> 28u32) & 1u32 == 1u32 { 1u32 << 28u32 } else { 0u32 })
        | (if (value >> 7u32) & 1u32 == 1u32 { 1u32 << 7u32 } else { 0u32 })
        | (if (value >> 6u32) & 1u32 == 1u32 { 1u32 << 6u32 } else { 0u32 })
        | (if (value >> 5u32) & 1u32 == 1u32 { 1u32 << 5u32 } else { 0u32 })
        | (((value >> 0u32) & !(0xFFFF_FFFFu32 << 5u32)) as u8 as u32)) == value & 0xF000_00FFu32)
        by (bit_vector);
}

/// Splitting a packed status word gives back the register it was packed from,
/// with the reserved field zero, whenever the mode bits fit in five bits.
pub proof fn lemma_register_round_trip(reg: ProgramStatusRegister)
    requires
        reg.control_bits.mode_bits < 32,
    ensures
        ProgramStatusRegister::decoded_from(psr_word(reg)) == (ProgramStatusRegister { reserved: 0, ..reg }),
{
    let n = reg.flags.negative;
    let z = reg.flags.zero;
    let c = reg.flags.carry;
    let v = reg.flags.signed_overflow;
    let i = reg.control_bits.irq_disable;
    let f = reg.control_bits.fiq_disable;
    let t = reg.control_bits.state_bit;
    let m = reg.control_bits.mode_bits;
    let w = psr_word(reg);
    assert(
        ((w >> 31u32) & 1u32 == 1u32) == n
        && ((w >> 30u32) & 1u32 == 1u32) == z
        && ((w >> 29u32) & 1u32 == 1u32) == c
        && ((w >> 28u32) & 1u32 == 1u32) == v
        && ((w >> 7u32) & 1u32 == 1u32) == i
        && ((w >> 6u32) & 1u32 == 1u32) == f
        && ((w >> 5u32) & 1u32 == 1u32) == t
        && ((w >> 0u32) & !(0xFFFF_FFFFu32 << 5u32)) as u8 == m
        && (w >> 8u32) & !(0xFFFF_FFFFu32 << 20u32) == 0u32
    ) by (bit_vector)
        requires
            m < 32,
            w == (if n { 1u32 << 31u32 } else { 0u32 })
                | (if z { 1u32 << 30u32 } else { 0u32 })
                | (if c { 1u32 << 29u32 } else { 0u32 })
                | (if v { 1u32 << 28u32 } else { 0u32 })
                | (if i { 1u32 << 7u32 } else { 0u32 })
                | (if f { 1u32 << 6u32 } else { 0u32 })
                | (if t { 1u32 << 5u32 } else { 0u32 })
                | (m as u32),
    ;
}

} // verus!
