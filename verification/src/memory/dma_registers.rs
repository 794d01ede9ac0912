use vstd::prelude::*;
use crate::bits::{
    bits, get_bits, lemma_bits_of_with_bits, lemma_bits_of_with_other_bits, lemma_fits_mask, set_bits,
    with_bits,
};

verus! {

/// Source address of a DMA channel (DMAxSAD).
#[derive(Clone, Copy, Debug, PartialEq, Eq, Structural)]
pub struct DMASourceAddress {
    pub index: usize,
    pub value: u32,
}

impl DMASourceAddress {
    /// The address written to the register.
    pub fn get_address(&self) -> (a: u32)
        ensures
            a == self.value,
    {
        self.value
    }

    /// A register holding zero.
    pub fn new(index: usize) -> (r: DMASourceAddress)
        ensures
            r.value == 0,
            r.index == index,
    {
        DMASourceAddress { index, value: 0 }
    }

    /// The whole register.
    pub fn get_register(&self) -> (r: u32)
        ensures
            r == self.value,
    {
        self.value
    }

    /// Writes the whole register from the low bits of `value`.
    pub fn set_register(&mut self, value: u32)
        ensures
            final(self).value == value as u32,
            final(self).index == old(self).index,
    {
        self.value = value as u32;
    }
}

/// Destination address of a DMA channel (DMAxDAD).
#[derive(Clone, Copy, Debug, PartialEq, Eq, Structural)]
pub struct DMADestinationAddress {
    pub index: usize,
    pub value: u32,
}

impl DMADestinationAddress {
    /// The address written to the register.
    pub fn get_address(&self) -> (a: u32)
        ensures
            a == self.value,
    {
        self.value
    }

    /// A register holding zero.
    pub fn new(index: usize) -> (r: DMADestinationAddress)
        ensures
            r.value == 0,
            r.index == index,
    {
        DMADestinationAddress { index, value: 0 }
    }

    /// The whole register.
    pub fn get_register(&self) -> (r: u32)
        ensures
            r == self.value,
    {
        self.value
    }

    /// Writes the whole register from the low bits of `value`.
    pub fn set_register(&mut self, value: u32)
        ensures
            final(self).value == value as u32,
            final(self).index == old(self).index,
    {
        self.value = value as u32;
    }
}

/// Number of units a DMA channel moves (DMAxCNT_L).
#[derive(Clone, Copy, Debug, PartialEq, Eq, Structural)]
pub struct DMAWordCount {
    pub index: usize,
    pub value: u16,
}

impl DMAWordCount {
    /// A register holding zero.
    pub fn new(index: usize) -> (r: DMAWordCount)
        ensures
            r.value == 0,
            r.index == index,
    {
        DMAWordCount { index, value: 0 }
    }

    /// The whole register.
    pub fn get_register(&self) -> (r: u16)
        ensures
            r == self.value,
    {
        self.value
    }

    /// Writes the whole register from the low bits of `value`.
    pub fn set_register(&mut self, value: u32)
        ensures
            final(self).value == value as u16,
            final(self).index == old(self).index,
    {
        self.value = value as u16;
    }

    /// Bits 15..0.
    pub open spec fn word_count(self) -> u16 {
        bits(self.value as u32, 0, 16) as u16
    }

    /// Reads bits 15..0.
    pub fn get_word_count(&self) -> (r: u16)
        ensures
            r == self.word_count(),
            r < 65536,
    {
        get_bits(self.value as u32, 0, 16) as u16
    }

    /// Writes bits 15..0 from the low bits of `value`; every other field keeps its value.
    pub fn set_word_count(&mut self, value: u16)
        ensures
            final(self).value == with_bits(old(self).value as u32, 0, 16, value as u32) as u16,
            value < 65536 ==> final(self).word_count() == value,
            final(self).index == old(self).index,
    {
        let old_value = self.value;
        self.value = set_bits(self.value as u32, 0, 16, value as u32) as u16;
        proof {
            lemma_bits_of_with_bits(old_value as u32, 0, 16, value as u32);
            if value < 65536 {
                lemma_fits_mask(value as u32, 16);
            }
        }
    }
}

/// Control of a DMA channel (DMAxCNT_H).
#[derive(Clone, Copy, Debug, PartialEq, Eq, Structural)]
pub struct DMAControl {
    pub index: usize,
    pub value: u16,
}

impl DMAControl {
    /// A register holding zero.
    pub fn new(index: usize) -> (r: DMAControl)
        ensures
            r.value == 0,
            r.index == index,
    {
        DMAControl { index, value: 0 }
    }

    /// The whole register.
    pub fn get_register(&self) -> (r: u16)
        ensures
            r == self.value,
    {
        self.value
    }

    /// Writes the whole register from the low bits of `value`.
    pub fn set_register(&mut self, value: u32)
        ensures
            final(self).value == value as u16,
            final(self).index == old(self).index,
    {
        self.value = value as u16;
    }

    /// Bits 6..5.
    pub open spec fn destination_address_control(self) -> u8 {
        bits(self.value as u32, 5, 2) as u8
    }

    /// Reads bits 6..5.
    pub fn get_destination_address_control(&self) -> (r: u8)
        ensures
            r == self.destination_address_control(),
            r < 4,
    {
        get_bits(self.value as u32, 5, 2) as u8
    }

    /// Writes bits 6..5 from the low bits of `value`; every other field keeps its value.
    pub fn set_destination_address_control(&mut self, value: u8)
        ensures
            final(self).value == with_bits(old(self).value as u32, 5, 2, value as u32) as u16,
            value < 4 ==> final(self).destination_address_control() == value,
            final(self).source_address_control() == old(self).source_address_control(),
            final(self).dma_repeat() == old(self).dma_repeat(),
            final(self).dma_transfer_type() == old(self).dma_transfer_type(),
            final(self).game_pak_drq() == old(self).game_pak_drq(),
            final(self).dma_start_timing() == old(self).dma_start_timing(),
            final(self).irq_upon_end_of_wordcount() == old(self).irq_upon_end_of_wordcount(),
            final(self).dma_enable() == old(self).dma_enable(),
            final(self).index == old(self).index,
    {
        let old_value = self.value;
        self.value = set_bits(self.value as u32, 5, 2, value as u32) as u16;
        proof {
            lemma_bits_of_with_bits(old_value as u32, 5, 2, value as u32);
            if value < 4 {
                lemma_fits_mask(value as u32, 2);
            }
            lemma_bits_of_with_other_bits(old_value as u32, 5, 2, value as u32, 7, 2);
            lemma_bits_of_with_other_bits(old_value as u32, 5, 2, value as u32, 9, 1);
            lemma_bits_of_with_other_bits(old_value as u32, 5, 2, value as u32, 10, 1);
            lemma_bits_of_with_other_bits(old_value as u32, 5, 2, value as u32, 11, 1);
            lemma_bits_of_with_other_bits(old_value as u32, 5, 2, value as u32, 12, 2);
            lemma_bits_of_with_other_bits(old_value as u32, 5, 2, value as u32, 14, 1);
            lemma_bits_of_with_other_bits(old_value as u32, 5, 2, value as u32, 15, 1);
        }
    }

    /// Bits 8..7.
    pub open spec fn source_address_control(self) -> u8 {
        bits(self.value as u32, 7, 2) as u8
    }

    /// Reads bits 8..7.
    pub fn get_source_address_control(&self) -> (r: u8)
        ensures
            r == self.source_address_control(),
            r < 4,
    {
        get_bits(self.value as u32, 7, 2) as u8
    }

    /// Writes bits 8..7 from the low bits of `value`; every other field keeps its value.
    pub fn set_source_address_control(&mut self, value: u8)
        ensures
            final(self).value == with_bits(old(self).value as u32, 7, 2, value as u32) as u16,
            value < 4 ==> final(self).source_address_control() == value,
            final(self).destination_address_control() == old(self).destination_address_control(),
            final(self).dma_repeat() == old(self).dma_repeat(),
            final(self).dma_transfer_type() == old(self).dma_transfer_type(),
            final(self).game_pak_drq() == old(self).game_pak_drq(),
            final(self).dma_start_timing() == old(self).dma_start_timing(),
            final(self).irq_upon_end_of_wordcount() == old(self).irq_upon_end_of_wordcount(),
            final(self).dma_enable() == old(self).dma_enable(),
            final(self).index == old(self).index,
    {
        let old_value = self.value;
        self.value = set_bits(self.value as u32, 7, 2, value as u32) as u16;
        proof {
            lemma_bits_of_with_bits(old_value as u32, 7, 2, value as u32);
            if value < 4 {
                lemma_fits_mask(value as u32, 2);
            }
            lemma_bits_of_with_other_bits(old_value as u32, 7, 2, value as u32, 5, 2);
            lemma_bits_of_with_other_bits(old_value as u32, 7, 2, value as u32, 9, 1);
            lemma_bits_of_with_other_bits(old_value as u32, 7, 2, value as u32, 10, 1);
            lemma_bits_of_with_other_bits(old_value as u32, 7, 2, value as u32, 11, 1);
            lemma_bits_of_with_other_bits(old_value as u32, 7, 2, value as u32, 12, 2);
            lemma_bits_of_with_other_bits(old_value as u32, 7, 2, value as u32, 14, 1);
            lemma_bits_of_with_other_bits(old_value as u32, 7, 2, value as u32, 15, 1);
        }
    }

    /// Bits 9..9.
    pub open spec fn dma_repeat(self) -> u8 {
        bits(self.value as u32, 9, 1) as u8
    }

    /// Reads bits 9..9.
    pub fn get_dma_repeat(&self) -> (r: u8)
        ensures
            r == self.dma_repeat(),
            r < 2,
    {
        get_bits(self.value as u32, 9, 1) as u8
    }

    /// Writes bits 9..9 from the low bits of `value`; every other field keeps its value.
    pub fn set_dma_repeat(&mut self, value: u8)
        ensures
            final(self).value == with_bits(old(self).value as u32, 9, 1, value as u32) as u16,
            value < 2 ==> final(self).dma_repeat() == value,
            final(self).destination_address_control() == old(self).destination_address_control(),
            final(self).source_address_control() == old(self).source_address_control(),
            final(self).dma_transfer_type() == old(self).dma_transfer_type(),
            final(self).game_pak_drq() == old(self).game_pak_drq(),
            final(self).dma_start_timing() == old(self).dma_start_timing(),
            final(self).irq_upon_end_of_wordcount() == old(self).irq_upon_end_of_wordcount(),
            final(self).dma_enable() == old(self).dma_enable(),
            final(self).index == old(self).index,
    {
        let old_value = self.value;
        self.value = set_bits(self.value as u32, 9, 1, value as u32) as u16;
        proof {
            lemma_bits_of_with_bits(old_value as u32, 9, 1, value as u32);
            if value < 2 {
                lemma_fits_mask(value as u32, 1);
            }
            lemma_bits_of_with_other_bits(old_value as u32, 9, 1, value as u32, 5, 2);
            lemma_bits_of_with_other_bits(old_value as u32, 9, 1, value as u32, 7, 2);
            lemma_bits_of_with_other_bits(old_value as u32, 9, 1, value as u32, 10, 1);
            lemma_bits_of_with_other_bits(old_value as u32, 9, 1, value as u32, 11, 1);
            lemma_bits_of_with_other_bits(old_value as u32, 9, 1, value as u32, 12, 2);
            lemma_bits_of_with_other_bits(old_value as u32, 9, 1, value as u32, 14, 1);
            lemma_bits_of_with_other_bits(old_value as u32, 9, 1, value as u32, 15, 1);
        }
    }

    /// Bits 10..10.
    pub open spec fn dma_transfer_type(self) -> u8 {
        bits(self.value as u32, 10, 1) as u8
    }

    /// Reads bits 10..10.
    pub fn get_dma_transfer_type(&self) -> (r: u8)
        ensures
            r == self.dma_transfer_type(),
            r < 2,
    {
        get_bits(self.value as u32, 10, 1) as u8
    }

    /// Writes bits 10..10 from the low bits of `value`; every other field keeps its value.
    pub fn set_dma_transfer_type(&mut self, value: u8)
        ensures
            final(self).value == with_bits(old(self).value as u32, 10, 1, value as u32) as u16,
            value < 2 ==> final(self).dma_transfer_type() == value,
            final(self).destination_address_control() == old(self).destination_address_control(),
            final(self).source_address_control() == old(self).source_address_control(),
            final(self).dma_repeat() == old(self).dma_repeat(),
            final(self).game_pak_drq() == old(self).game_pak_drq(),
            final(self).dma_start_timing() == old(self).dma_start_timing(),
            final(self).irq_upon_end_of_wordcount() == old(self).irq_upon_end_of_wordcount(),
            final(self).dma_enable() == old(self).dma_enable(),
            final(self).index == old(self).index,
    {
        let old_value = self.value;
        self.value = set_bits(self.value as u32, 10, 1, value as u32) as u16;
        proof {
            lemma_bits_of_with_bits(old_value as u32, 10, 1, value as u32);
            if value < 2 {
                lemma_fits_mask(value as u32, 1);
            }
            lemma_bits_of_with_other_bits(old_value as u32, 10, 1, value as u32, 5, 2);
            lemma_bits_of_with_other_bits(old_value as u32, 10, 1, value as u32, 7, 2);
            lemma_bits_of_with_other_bits(old_value as u32, 10, 1, value as u32, 9, 1);
            lemma_bits_of_with_other_bits(old_value as u32, 10, 1, value as u32, 11, 1);
            lemma_bits_of_with_other_bits(old_value as u32, 10, 1, value as u32, 12, 2);
            lemma_bits_of_with_other_bits(old_value as u32, 10, 1, value as u32, 14, 1);
            lemma_bits_of_with_other_bits(old_value as u32, 10, 1, value as u32, 15, 1);
        }
    }

    /// Bits 11..11.
    pub open spec fn game_pak_drq(self) -> u8 {
        bits(self.value as u32, 11, 1) as u8
    }

    /// Reads bits 11..11.
    pub fn get_game_pak_drq(&self) -> (r: u8)
        ensures
            r == self.game_pak_drq(),
            r < 2,
    {
        get_bits(self.value as u32, 11, 1) as u8
    }

    /// Writes bits 11..11 from the low bits of `value`; every other field keeps its value.
    pub fn set_game_pak_drq(&mut self, value: u8)
        ensures
            final(self).value == with_bits(old(self).value as u32, 11, 1, value as u32) as u16,
            value < 2 ==> final(self).game_pak_drq() == value,
            final(self).destination_address_control() == old(self).destination_address_control(),
            final(self).source_address_control() == old(self).source_address_control(),
            final(self).dma_repeat() == old(self).dma_repeat(),
            final(self).dma_transfer_type() == old(self).dma_transfer_type(),
            final(self).dma_start_timing() == old(self).dma_start_timing(),
            final(self).irq_upon_end_of_wordcount() == old(self).irq_upon_end_of_wordcount(),
            final(self).dma_enable() == old(self).dma_enable(),
            final(self).index == old(self).index,
    {
        let old_value = self.value;
        self.value = set_bits(self.value as u32, 11, 1, value as u32) as u16;
        proof {
            lemma_bits_of_with_bits(old_value as u32, 11, 1, value as u32);
            if value < 2 {
                lemma_fits_mask(value as u32, 1);
            }
            lemma_bits_of_with_other_bits(old_value as u32, 11, 1, value as u32, 5, 2);
            lemma_bits_of_with_other_bits(old_value as u32, 11, 1, value as u32, 7, 2);
            lemma_bits_of_with_other_bits(old_value as u32, 11, 1, value as u32, 9, 1);
            lemma_bits_of_with_other_bits(old_value as u32, 11, 1, value as u32, 10, 1);
            lemma_bits_of_with_other_bits(old_value as u32, 11, 1, value as u32, 12, 2);
            lemma_bits_of_with_other_bits(old_value as u32, 11, 1, value as u32, 14, 1);
            lemma_bits_of_with_other_bits(old_value as u32, 11, 1, value as u32, 15, 1);
        }
    }

    /// Bits 13..12.
    pub open spec fn dma_start_timing(self) -> u8 {
        bits(self.value as u32, 12, 2) as u8
    }

    /// Reads bits 13..12.
    pub fn get_dma_start_timing(&self) -> (r: u8)
        ensures
            r == self.dma_start_timing(),
            r < 4,
    {
        get_bits(self.value as u32, 12, 2) as u8
    }

    /// Writes bits 13..12 from the low bits of `value`; every other field keeps its value.
    pub fn set_dma_start_timing(&mut self, value: u8)
        ensures
            final(self).value == with_bits(old(self).value as u32, 12, 2, value as u32) as u16,
            value < 4 ==> final(self).dma_start_timing() == value,
            final(self).destination_address_control() == old(self).destination_address_control(),
            final(self).source_address_control() == old(self).source_address_control(),
            final(self).dma_repeat() == old(self).dma_repeat(),
            final(self).dma_transfer_type() == old(self).dma_transfer_type(),
            final(self).game_pak_drq() == old(self).game_pak_drq(),
            final(self).irq_upon_end_of_wordcount() == old(self).irq_upon_end_of_wordcount(),
            final(self).dma_enable() == old(self).dma_enable(),
            final(self).index == old(self).index,
    {
        let old_value = self.value;
        self.value = set_bits(self.value as u32, 12, 2, value as u32) as u16;
        proof {
            lemma_bits_of_with_bits(old_value as u32, 12, 2, value as u32);
            if value < 4 {
                lemma_fits_mask(value as u32, 2);
            }
            lemma_bits_of_with_other_bits(old_value as u32, 12, 2, value as u32, 5, 2);
            lemma_bits_of_with_other_bits(old_value as u32, 12, 2, value as u32, 7, 2);
            lemma_bits_of_with_other_bits(old_value as u32, 12, 2, value as u32, 9, 1);
            lemma_bits_of_with_other_bits(old_value as u32, 12, 2, value as u32, 10, 1);
            lemma_bits_of_with_other_bits(old_value as u32, 12, 2, value as u32, 11, 1);
            lemma_bits_of_with_other_bits(old_value as u32, 12, 2, value as u32, 14, 1);
            lemma_bits_of_with_other_bits(old_value as u32, 12, 2, value as u32, 15, 1);
        }
    }

    /// Bits 14..14.
    pub open spec fn irq_upon_end_of_wordcount(self) -> u8 {
        bits(self.value as u32, 14, 1) as u8
    }

    /// Reads bits 14..14.
    pub fn get_irq_upon_end_of_wordcount(&self) -> (r: u8)
        ensures
            r == self.irq_upon_end_of_wordcount(),
            r < 2,
    {
        get_bits(self.value as u32, 14, 1) as u8
    }

    /// Writes bits 14..14 from the low bits of `value`; every other field keeps its value.
    pub fn set_irq_upon_end_of_wordcount(&mut self, value: u8)
        ensures
            final(self).value == with_bits(old(self).value as u32, 14, 1, value as u32) as u16,
            value < 2 ==> final(self).irq_upon_end_of_wordcount() == value,
            final(self).destination_address_control() == old(self).destination_address_control(),
            final(self).source_address_control() == old(self).source_address_control(),
            final(self).dma_repeat() == old(self).dma_repeat(),
            final(self).dma_transfer_type() == old(self).dma_transfer_type(),
            final(self).game_pak_drq() == old(self).game_pak_drq(),
            final(self).dma_start_timing() == old(self).dma_start_timing(),
            final(self).dma_enable() == old(self).dma_enable(),
            final(self).index == old(self).index,
    {
        let old_value = self.value;
        self.value = set_bits(self.value as u32, 14, 1, value as u32) as u16;
        proof {
            lemma_bits_of_with_bits(old_value as u32, 14, 1, value as u32);
            if value < 2 {
                lemma_fits_mask(value as u32, 1);
            }
            lemma_bits_of_with_other_bits(old_value as u32, 14, 1, value as u32, 5, 2);
            lemma_bits_of_with_other_bits(old_value as u32, 14, 1, value as u32, 7, 2);
            lemma_bits_of_with_other_bits(old_value as u32, 14, 1, value as u32, 9, 1);
            lemma_bits_of_with_other_bits(old_value as u32, 14, 1, value as u32, 10, 1);
            lemma_bits_of_with_other_bits(old_value as u32, 14, 1, value as u32, 11, 1);
            lemma_bits_of_with_other_bits(old_value as u32, 14, 1, value as u32, 12, 2);
            lemma_bits_of_with_other_bits(old_value as u32, 14, 1, value as u32, 15, 1);
        }
    }

    /// Bits 15..15.
    pub open spec fn dma_enable(self) -> u8 {
        bits(self.value as u32, 15, 1) as u8
    }

    /// Reads bits 15..15.
    pub fn get_dma_enable(&self) -> (r: u8)
        ensures
            r == self.dma_enable(),
            r < 2,
    {
        get_bits(self.value as u32, 15, 1) as u8
    }

    /// Writes bits 15..15 from the low bits of `value`; every other field keeps its value.
    pub fn set_dma_enable(&mut self, value: u8)
        ensures
            final(self).value == with_bits(old(self).value as u32, 15, 1, value as u32) as u16,
            value < 2 ==> final(self).dma_enable() == value,
            final(self).destination_address_control() == old(self).destination_address_control(),
            final(self).source_address_control() == old(self).source_address_control(),
            final(self).dma_repeat() == old(self).dma_repeat(),
            final(self).dma_transfer_type() == old(self).dma_transfer_type(),
            final(self).game_pak_drq() == old(self).game_pak_drq(),
            final(self).dma_start_timing() == old(self).dma_start_timing(),
            final(self).irq_upon_end_of_wordcount() == old(self).irq_upon_end_of_wordcount(),
            final(self).index == old(self).index,
    {
        let old_value = self.value;
        self.value = set_bits(self.value as u32, 15, 1, value as u32) as u16;
        proof {
            lemma_bits_of_with_bits(old_value as u32, 15, 1, value as u32);
            if value < 2 {
                lemma_fits_mask(value as u32, 1);
            }
            lemma_bits_of_with_other_bits(old_value as u32, 15, 1, value as u32, 5, 2);
            lemma_bits_of_with_other_bits(old_value as u32, 15, 1, value as u32, 7, 2);
            lemma_bits_of_with_other_bits(old_value as u32, 15, 1, value as u32, 9, 1);
            lemma_bits_of_with_other_bits(old_value as u32, 15, 1, value as u32, 10, 1);
            lemma_bits_of_with_other_bits(old_value as u32, 15, 1, value as u32, 11, 1);
            lemma_bits_of_with_other_bits(old_value as u32, 15, 1, value as u32, 12, 2);
            lemma_bits_of_with_other_bits(old_value as u32, 15, 1, value as u32, 14, 1);
        }
    }
}

} // verus!
