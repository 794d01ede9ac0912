#![allow(non_camel_case_types)]
use vstd::prelude::*;
use crate::bits::{
    bits, get_bits, lemma_bits_of_with_bits, lemma_bits_of_with_other_bits, lemma_fits_mask, set_bits,
    with_bits,
};

use crate::memory::lcd_io_registers::PixelFormat;

verus! {

/// Control of a background (BG0CNT-BG3CNT): priority, tile and map blocks, colour depth and size.
#[derive(Clone, Copy, Debug, PartialEq, Eq, Structural)]
pub struct BG_Control {
    pub index: usize,
    pub value: u16,
}

impl BG_Control {
    /// A register holding zero.
    pub fn new(index: usize) -> (r: BG_Control)
        ensures
            r.value == 0,
            r.index == index,
    {
        BG_Control { index, value: 0 }
    }

    /// The whole register.
    pub fn get_register(&self) -> (r: u16)
        ensures
            r == self.value,
    {
        self.value
    }

    /// Writes the whole register from the low bits of `value`.
    pub fn set_register(&mut self, value: u32)
        ensures
            final(self).value == value as u16,
            final(self).index == old(self).index,
    {
        self.value = value as u16;
    }

    /// Bits 1..0.
    pub open spec fn bg_priority(self) -> u8 {
        bits(self.value as u32, 0, 2) as u8
    }

    /// Reads bits 1..0.
    pub fn get_bg_priority(&self) -> (r: u8)
        ensures
            r == self.bg_priority(),
            r < 4,
    {
        get_bits(self.value as u32, 0, 2) as u8
    }

    /// Writes bits 1..0 from the low bits of `value`; every other field keeps its value.
    pub fn set_bg_priority(&mut self, value: u8)
        ensures
            final(self).value == with_bits(old(self).value as u32, 0, 2, value as u32) as u16,
            value < 4 ==> final(self).bg_priority() == value,
            final(self).character_base_block() == old(self).character_base_block(),
            final(self).mosaic() == old(self).mosaic(),
            final(self).colors() == old(self).colors(),
            final(self).screen_base_block() == old(self).screen_base_block(),
            final(self).display_area_overflow() == old(self).display_area_overflow(),
            final(self).screen_size() == old(self).screen_size(),
            final(self).index == old(self).index,
    {
        let old_value = self.value;
        self.value = set_bits(self.value as u32, 0, 2, value as u32) as u16;
        proof {
            lemma_bits_of_with_bits(old_value as u32, 0, 2, value as u32);
            if value < 4 {
                lemma_fits_mask(value as u32, 2);
            }
            lemma_bits_of_with_other_bits(old_value as u32, 0, 2, value as u32, 2, 2);
            lemma_bits_of_with_other_bits(old_value as u32, 0, 2, value as u32, 6, 1);
            lemma_bits_of_with_other_bits(old_value as u32, 0, 2, value as u32, 7, 1);
            lemma_bits_of_with_other_bits(old_value as u32, 0, 2, value as u32, 8, 4);
            lemma_bits_of_with_other_bits(old_value as u32, 0, 2, value as u32, 13, 1);
            lemma_bits_of_with_other_bits(old_value as u32, 0, 2, value as u32, 14, 2);
        }
    }

    /// Bits 3..2.
    pub open spec fn character_base_block(self) -> u8 {
        bits(self.value as u32, 2, 2) as u8
    }

    /// Reads bits 3..2.
    pub fn get_character_base_block(&self) -> (r: u8)
        ensures
            r == self.character_base_block(),
            r < 4,
    {
        get_bits(self.value as u32, 2, 2) as u8
    }

    /// Writes bits 3..2 from the low bits of `value`; every other field keeps its value.
    pub fn set_character_base_block(&mut self, value: u8)
        ensures
            final(self).value == with_bits(old(self).value as u32, 2, 2, value as u32) as u16,
            value < 4 ==> final(self).character_base_block() == value,
            final(self).bg_priority() == old(self).bg_priority(),
            final(self).mosaic() == old(self).mosaic(),
            final(self).colors() == old(self).colors(),
            final(self).screen_base_block() == old(self).screen_base_block(),
            final(self).display_area_overflow() == old(self).display_area_overflow(),
            final(self).screen_size() == old(self).screen_size(),
            final(self).index == old(self).index,
    {
        let old_value = self.value;
        self.value = set_bits(self.value as u32, 2, 2, value as u32) as u16;
        proof {
            lemma_bits_of_with_bits(old_value as u32, 2, 2, value as u32);
            if value < 4 {
                lemma_fits_mask(value as u32, 2);
            }
            lemma_bits_of_with_other_bits(old_value as u32, 2, 2, value as u32, 0, 2);
            lemma_bits_of_with_other_bits(old_value as u32, 2, 2, value as u32, 6, 1);
            lemma_bits_of_with_other_bits(old_value as u32, 2, 2, value as u32, 7, 1);
            lemma_bits_of_with_other_bits(old_value as u32, 2, 2, value as u32, 8, 4);
            lemma_bits_of_with_other_bits(old_value as u32, 2, 2, value as u32, 13, 1);
            lemma_bits_of_with_other_bits(old_value as u32, 2, 2, value as u32, 14, 2);
        }
    }

    /// Bits 6..6.
    pub open spec fn mosaic(self) -> u8 {
        bits(self.value as u32, 6, 1) as u8
    }

    /// Reads bits 6..6.
    pub fn get_mosaic(&self) -> (r: u8)
        ensures
            r == self.mosaic(),
            r < 2,
    {
        get_bits(self.value as u32, 6, 1) as u8
    }

    /// Writes bits 6..6 from the low bits of `value`; every other field keeps its value.
    pub fn set_mosaic(&mut self, value: u8)
        ensures
            final(self).value == with_bits(old(self).value as u32, 6, 1, value as u32) as u16,
            value < 2 ==> final(self).mosaic() == value,
            final(self).bg_priority() == old(self).bg_priority(),
            final(self).character_base_block() == old(self).character_base_block(),
            final(self).colors() == old(self).colors(),
            final(self).screen_base_block() == old(self).screen_base_block(),
            final(self).display_area_overflow() == old(self).display_area_overflow(),
            final(self).screen_size() == old(self).screen_size(),
            final(self).index == old(self).index,
    {
        let old_value = self.value;
        self.value = set_bits(self.value as u32, 6, 1, value as u32) as u16;
        proof {
            lemma_bits_of_with_bits(old_value as u32, 6, 1, value as u32);
            if value < 2 {
                lemma_fits_mask(value as u32, 1);
            }
            lemma_bits_of_with_other_bits(old_value as u32, 6, 1, value as u32, 0, 2);
            lemma_bits_of_with_other_bits(old_value as u32, 6, 1, value as u32, 2, 2);
            lemma_bits_of_with_other_bits(old_value as u32, 6, 1, value as u32, 7, 1);
            lemma_bits_of_with_other_bits(old_value as u32, 6, 1, value as u32, 8, 4);
            lemma_bits_of_with_other_bits(old_value as u32, 6, 1, value as u32, 13, 1);
            lemma_bits_of_with_other_bits(old_value as u32, 6, 1, value as u32, 14, 2);
        }
    }

    /// Bits 7..7.
    pub open spec fn colors(self) -> u8 {
        bits(self.value as u32, 7, 1) as u8
    }

    /// Reads bits 7..7.
    pub fn get_colors(&self) -> (r: u8)
        ensures
            r == self.colors(),
            r < 2,
    {
        get_bits(self.value as u32, 7, 1) as u8
    }

    /// Writes bits 7..7 from the low bits of `value`; every other field keeps its value.
    pub fn set_colors(&mut self, value: u8)
        ensures
            final(self).value == with_bits(old(self).value as u32, 7, 1, value as u32) as u16,
            value < 2 ==> final(self).colors() == value,
            final(self).bg_priority() == old(self).bg_priority(),
            final(self).character_base_block() == old(self).character_base_block(),
            final(self).mosaic() == old(self).mosaic(),
            final(self).screen_base_block() == old(self).screen_base_block(),
            final(self).display_area_overflow() == old(self).display_area_overflow(),
            final(self).screen_size() == old(self).screen_size(),
            final(self).index == old(self).index,
    {
        let old_value = self.value;
        self.value = set_bits(self.value as u32, 7, 1, value as u32) as u16;
        proof {
            lemma_bits_of_with_bits(old_value as u32, 7, 1, value as u32);
            if value < 2 {
                lemma_fits_mask(value as u32, 1);
            }
            lemma_bits_of_with_other_bits(old_value as u32, 7, 1, value as u32, 0, 2);
            lemma_bits_of_with_other_bits(old_value as u32, 7, 1, value as u32, 2, 2);
            lemma_bits_of_with_other_bits(old_value as u32, 7, 1, value as u32, 6, 1);
            lemma_bits_of_with_other_bits(old_value as u32, 7, 1, value as u32, 8, 4);
            lemma_bits_of_with_other_bits(old_value as u32, 7, 1, value as u32, 13, 1);
            lemma_bits_of_with_other_bits(old_value as u32, 7, 1, value as u32, 14, 2);
        }
    }

    /// Bits 11..8.
    pub open spec fn screen_base_block(self) -> u8 {
        bits(self.value as u32, 8, 4) as u8
    }

    /// Reads bits 11..8.
    pub fn get_screen_base_block(&self) -> (r: u8)
        ensures
            r == self.screen_base_block(),
            r < 16,
    {
        get_bits(self.value as u32, 8, 4) as u8
    }

    /// Writes bits 11..8 from the low bits of `value`; every other field keeps its value.
    pub fn set_screen_base_block(&mut self, value: u8)
        ensures
            final(self).value == with_bits(old(self).value as u32, 8, 4, value as u32) as u16,
            value < 16 ==> final(self).screen_base_block() == value,
            final(self).bg_priority() == old(self).bg_priority(),
            final(self).character_base_block() == old(self).character_base_block(),
            final(self).mosaic() == old(self).mosaic(),
            final(self).colors() == old(self).colors(),
            final(self).display_area_overflow() == old(self).display_area_overflow(),
            final(self).screen_size() == old(self).screen_size(),
            final(self).index == old(self).index,
    {
        let old_value = self.value;
        self.value = set_bits(self.value as u32, 8, 4, value as u32) as u16;
        proof {
            lemma_bits_of_with_bits(old_value as u32, 8, 4, value as u32);
            if value < 16 {
                lemma_fits_mask(value as u32, 4);
            }
            lemma_bits_of_with_other_bits(old_value as u32, 8, 4, value as u32, 0, 2);
            lemma_bits_of_with_other_bits(old_value as u32, 8, 4, value as u32, 2, 2);
            lemma_bits_of_with_other_bits(old_value as u32, 8, 4, value as u32, 6, 1);
            lemma_bits_of_with_other_bits(old_value as u32, 8, 4, value as u32, 7, 1);
            lemma_bits_of_with_other_bits(old_value as u32, 8, 4, value as u32, 13, 1);
            lemma_bits_of_with_other_bits(old_value as u32, 8, 4, value as u32, 14, 2);
        }
    }

    /// Bits 13..13.
    pub open spec fn display_area_overflow(self) -> u8 {
        bits(self.value as u32, 13, 1) as u8
    }

    /// Reads bits 13..13.
    pub fn get_display_area_overflow(&self) -> (r: u8)
        ensures
            r == self.display_area_overflow(),
            r < 2,
    {
        get_bits(self.value as u32, 13, 1) as u8
    }

    /// Writes bits 13..13 from the low bits of `value`; every other field keeps its value.
    pub fn set_display_area_overflow(&mut self, value: u8)
        ensures
            final(self).value == with_bits(old(self).value as u32, 13, 1, value as u32) as u16,
            value < 2 ==> final(self).display_area_overflow() == value,
            final(self).bg_priority() == old(self).bg_priority(),
            final(self).character_base_block() == old(self).character_base_block(),
            final(self).mosaic() == old(self).mosaic(),
            final(self).colors() == old(self).colors(),
            final(self).screen_base_block() == old(self).screen_base_block(),
            final(self).screen_size() == old(self).screen_size(),
            final(self).index == old(self).index,
    {
        let old_value = self.value;
        self.value = set_bits(self.value as u32, 13, 1, value as u32) as u16;
        proof {
            lemma_bits_of_with_bits(old_value as u32, 13, 1, value as u32);
            if value < 2 {
                lemma_fits_mask(value as u32, 1);
            }
            lemma_bits_of_with_other_bits(old_value as u32, 13, 1, value as u32, 0, 2);
            lemma_bits_of_with_other_bits(old_value as u32, 13, 1, value as u32, 2, 2);
            lemma_bits_of_with_other_bits(old_value as u32, 13, 1, value as u32, 6, 1);
            lemma_bits_of_with_other_bits(old_value as u32, 13, 1, value as u32, 7, 1);
            lemma_bits_of_with_other_bits(old_value as u32, 13, 1, value as u32, 8, 4);
            lemma_bits_of_with_other_bits(old_value as u32, 13, 1, value as u32, 14, 2);
        }
    }

    /// Bits 15..14.
    pub open spec fn screen_size(self) -> u8 {
        bits(self.value as u32, 14, 2) as u8
    }

    /// Reads bits 15..14.
    pub fn get_screen_size(&self) -> (r: u8)
        ensures
            r == self.screen_size(),
            r < 4,
    {
        get_bits(self.value as u32, 14, 2) as u8
    }

    /// Writes bits 15..14 from the low bits of `value`; every other field keeps its value.
    pub fn set_screen_size(&mut self, value: u8)
        ensures
            final(self).value == with_bits(old(self).value as u32, 14, 2, value as u32) as u16,
            value < 4 ==> final(self).screen_size() == value,
            final(self).bg_priority() == old(self).bg_priority(),
            final(self).character_base_block() == old(self).character_base_block(),
            final(self).mosaic() == old(self).mosaic(),
            final(self).colors() == old(self).colors(),
            final(self).screen_base_block() == old(self).screen_base_block(),
            final(self).display_area_overflow() == old(self).display_area_overflow(),
            final(self).index == old(self).index,
    {
        let old_value = self.value;
        self.value = set_bits(self.value as u32, 14, 2, value as u32) as u16;
        proof {
            lemma_bits_of_with_bits(old_value as u32, 14, 2, value as u32);
            if value < 4 {
                lemma_fits_mask(value as u32, 2);
            }
            lemma_bits_of_with_other_bits(old_value as u32, 14, 2, value as u32, 0, 2);
            lemma_bits_of_with_other_bits(old_value as u32, 14, 2, value as u32, 2, 2);
            lemma_bits_of_with_other_bits(old_value as u32, 14, 2, value as u32, 6, 1);
            lemma_bits_of_with_other_bits(old_value as u32, 14, 2, value as u32, 7, 1);
            lemma_bits_of_with_other_bits(old_value as u32, 14, 2, value as u32, 8, 4);
            lemma_bits_of_with_other_bits(old_value as u32, 14, 2, value as u32, 13, 1);
        }
    }
}

/// Scroll offset of a text background (BGxHOFS / BGxVOFS), nine bits.
#[derive(Clone, Copy, Debug, PartialEq, Eq, Structural)]
pub struct BGOffset {
    pub index: usize,
    pub value: u16,
}

impl BGOffset {
    /// A register holding zero.
    pub fn new(index: usize) -> (r: BGOffset)
        ensures
            r.value == 0,
            r.index == index,
    {
        BGOffset { index, value: 0 }
    }

    /// The whole register.
    pub fn get_register(&self) -> (r: u16)
        ensures
            r == self.value,
    {
        self.value
    }

    /// Writes the whole register from the low bits of `value`.
    pub fn set_register(&mut self, value: u32)
        ensures
            final(self).value == value as u16,
            final(self).index == old(self).index,
    {
        self.value = value as u16;
    }

    /// Bits 8..0.
    pub open spec fn offset(self) -> u16 {
        bits(self.value as u32, 0, 9) as u16
    }

    /// Reads bits 8..0.
    pub fn get_offset(&self) -> (r: u16)
        ensures
            r == self.offset(),
            r < 512,
    {
        get_bits(self.value as u32, 0, 9) as u16
    }

    /// Writes bits 8..0 from the low bits of `value`; every other field keeps its value.
    pub fn set_offset(&mut self, value: u16)
        ensures
            final(self).value == with_bits(old(self).value as u32, 0, 9, value as u32) as u16,
            value < 512 ==> final(self).offset() == value,
            final(self).index == old(self).index,
    {
        let old_value = self.value;
        self.value = set_bits(self.value as u32, 0, 9, value as u32) as u16;
        proof {
            lemma_bits_of_with_bits(old_value as u32, 0, 9, value as u32);
            if value < 512 {
                lemma_fits_mask(value as u32, 9);
            }
        }
    }
}

/// A rotation/scaling parameter of an affine background (BG2PA-BG3PD): a signed 8.8 fixed-point number.
#[derive(Clone, Copy, Debug, PartialEq, Eq, Structural)]
pub struct BGRotScaleParam {
    pub index: usize,
    pub value: u16,
}

impl BGRotScaleParam {
    /// A register holding zero.
    pub fn new(index: usize) -> (r: BGRotScaleParam)
        ensures
            r.value == 0,
            r.index == index,
    {
        BGRotScaleParam { index, value: 0 }
    }

    /// The whole register.
    pub fn get_register(&self) -> (r: u16)
        ensures
            r == self.value,
    {
        self.value
    }

    /// Writes the whole register from the low bits of `value`.
    pub fn set_register(&mut self, value: u32)
        ensures
            final(self).value == value as u16,
            final(self).index == old(self).index,
    {
        self.value = value as u16;
    }

    /// Bits 15..0.
    pub open spec fn aff_param(self) -> u16 {
        bits(self.value as u32, 0, 16) as u16
    }

    /// Reads bits 15..0.
    pub fn get_aff_param(&self) -> (r: u16)
        ensures
            r == self.aff_param(),
            r < 65536,
    {
        get_bits(self.value as u32, 0, 16) as u16
    }

    /// Writes bits 15..0 from the low bits of `value`; every other field keeps its value.
    pub fn set_aff_param(&mut self, value: u16)
        ensures
            final(self).value == with_bits(old(self).value as u32, 0, 16, value as u32) as u16,
            value < 65536 ==> final(self).aff_param() == value,
            final(self).index == old(self).index,
    {
        let old_value = self.value;
        self.value = set_bits(self.value as u32, 0, 16, value as u32) as u16;
        proof {
            lemma_bits_of_with_bits(old_value as u32, 0, 16, value as u32);
            if value < 65536 {
                lemma_fits_mask(value as u32, 16);
            }
        }
    }
}

impl BG_Control {
    /// The address of the background's map: screen base blocks of 2 KiB from
    /// the start of video RAM.
    pub open spec fn tilemap_location(self) -> u32 {
        (0x0600_0000 + 0x800 * self.screen_base_block()) as u32
    }

    /// The address of the background's tiles: character base blocks of
    /// 16 KiB from the start of video RAM.
    pub open spec fn tileset_location(self) -> u32 {
        (0x0600_0000 + 0x4000 * self.character_base_block()) as u32
    }

    /// The width and height in pixels of a text background: 256x256,
    /// 512x256, 256x512 or 512x512 for screen sizes 0-3.
    pub open spec fn background_dimensions(self) -> (u32, u32) {
        let s = self.screen_size();
        if s == 0 { (256, 256) } else if s == 1 { (512, 256) } else if s == 2 { (256, 512) } else { (512, 512) }
    }

    /// The width and height of a text background (see `background_dimensions`).
    pub fn get_background_dimensions(&self) -> (dims: (u32, u32))
        ensures
            dims == self.background_dimensions(),
    {
        match self.get_screen_size() {
            0 => (256, 256),
            1 => (512, 256),
            2 => (256, 512),
            _ => (512, 512),
        }
    }

    /// The pixel format the colour bit selects: 4 bits when clear, 8 when set.
    pub fn get_pixel_format(&self) -> (format: PixelFormat)
        ensures
            format == (if self.colors() == 0 { PixelFormat::FourBit } else { PixelFormat::EightBit }),
    {
        if self.get_colors() == 0 {
            PixelFormat::FourBit
        } else {
            PixelFormat::EightBit
        }
    }

    /// The bytes an 8x8 tile takes: 0x20 at 4 bits per pixel, 0x40 at 8.
    pub fn get_tilesize(&self) -> (size: u32)
        ensures
            size == (if self.colors() == 0 { 0x20u32 } else { 0x40u32 }),
    {
        if self.get_colors() == 0 {
            0x20
        } else {
            0x40
        }
    }

    /// The address of the background's map.
    pub fn get_tilemap_location(&self) -> (address: u32)
        ensures
            address == self.tilemap_location(),
            address <= 0x0600_F800,
    {
        0x0600_0000 + 0x800 * (self.get_screen_base_block() as u32)
    }

    /// The address of the background's tiles.
    pub fn get_tileset_location(&self) -> (address: u32)
        ensures
            address == self.tileset_location(),
            address <= 0x0600_C000,
    {
        0x0600_0000 + 0x4000 * (self.get_character_base_block() as u32)
    }
}

impl BGRotScaleParam {
    /// The parameter as a signed number (in 1/256 steps).
    pub fn signed_value(&self) -> (v: i32)
        ensures
            v == self.value as i16 as i32,
            -32768 <= v < 32768,
    {
        self.value as i16 as i32
    }
}

} // verus!
