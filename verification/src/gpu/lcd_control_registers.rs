use vstd::prelude::*;
use crate::bits::{
    bits, get_bits, lemma_bits_of_with_bits, lemma_bits_of_with_other_bits, lemma_fits_mask, set_bits,
    with_bits,
};

verus! {

/// LCD control (DISPCNT): video mode, frame select and the layers and windows shown.
#[derive(Clone, Copy, Debug, PartialEq, Eq, Structural)]
pub struct DisplayControl {
    pub value: u16,
}

impl DisplayControl {
    /// The size of the register in bytes.
    pub const SEGMENT_SIZE: usize = 2;

    /// A register holding zero.
    pub fn new() -> (r: DisplayControl)
        ensures
            r.value == 0,
    {
        DisplayControl { value: 0 }
    }

    /// The whole register.
    pub fn get_register(&self) -> (r: u16)
        ensures
            r == self.value,
    {
        self.value
    }

    /// Writes the whole register from the low bits of `value`.
    pub fn set_register(&mut self, value: u32)
        ensures
            final(self).value == value as u16,
    {
        self.value = value as u16;
    }

    /// Bits 2..0.
    pub open spec fn bg_mode(self) -> u8 {
        bits(self.value as u32, 0, 3) as u8
    }

    /// Reads bits 2..0.
    pub fn get_bg_mode(&self) -> (r: u8)
        ensures
            r == self.bg_mode(),
            r < 8,
    {
        get_bits(self.value as u32, 0, 3) as u8
    }

    /// Writes bits 2..0 from the low bits of `value`; every other field keeps its value.
    pub fn set_bg_mode(&mut self, value: u8)
        ensures
            final(self).value == with_bits(old(self).value as u32, 0, 3, value as u32) as u16,
            value < 8 ==> final(self).bg_mode() == value,
            final(self).cgb_mode() == old(self).cgb_mode(),
            final(self).display_frame_select() == old(self).display_frame_select(),
            final(self).hblank_interval_free() == old(self).hblank_interval_free(),
            final(self).obj_charcter_vram_mapping() == old(self).obj_charcter_vram_mapping(),
            final(self).forced_blank() == old(self).forced_blank(),
            final(self).screen_display_bg0() == old(self).screen_display_bg0(),
            final(self).screen_display_bg1() == old(self).screen_display_bg1(),
            final(self).screen_display_bg2() == old(self).screen_display_bg2(),
            final(self).screen_display_bg3() == old(self).screen_display_bg3(),
            final(self).screen_display_obj() == old(self).screen_display_obj(),
            final(self).window_0_display_flag() == old(self).window_0_display_flag(),
            final(self).window_1_display_flag() == old(self).window_1_display_flag(),
            final(self).obj_window_display_flag() == old(self).obj_window_display_flag(),
    {
        let old_value = self.value;
        self.value = set_bits(self.value as u32, 0, 3, value as u32) as u16;
        proof {
            lemma_bits_of_with_bits(old_value as u32, 0, 3, value as u32);
            if value < 8 {
                lemma_fits_mask(value as u32, 3);
            }
            lemma_bits_of_with_other_bits(old_value as u32, 0, 3, value as u32, 3, 1);
            lemma_bits_of_with_other_bits(old_value as u32, 0, 3, value as u32, 4, 1);
            lemma_bits_of_with_other_bits(old_value as u32, 0, 3, value as u32, 5, 1);
            lemma_bits_of_with_other_bits(old_value as u32, 0, 3, value as u32, 6, 1);
            lemma_bits_of_with_other_bits(old_value as u32, 0, 3, value as u32, 7, 1);
            lemma_bits_of_with_other_bits(old_value as u32, 0, 3, value as u32, 8, 1);
            lemma_bits_of_with_other_bits(old_value as u32, 0, 3, value as u32, 9, 1);
            lemma_bits_of_with_other_bits(old_value as u32, 0, 3, value as u32, 10, 1);
            lemma_bits_of_with_other_bits(old_value as u32, 0, 3, value as u32, 11, 1);
            lemma_bits_of_with_other_bits(old_value as u32, 0, 3, value as u32, 12, 1);
            lemma_bits_of_with_other_bits(old_value as u32, 0, 3, value as u32, 13, 1);
            lemma_bits_of_with_other_bits(old_value as u32, 0, 3, value as u32, 14, 1);
            lemma_bits_of_with_other_bits(old_value as u32, 0, 3, value as u32, 15, 1);
        }
    }

    /// Bits 3..3.
    pub open spec fn cgb_mode(self) -> u8 {
        bits(self.value as u32, 3, 1) as u8
    }

    /// Reads bits 3..3.
    pub fn get_cgb_mode(&self) -> (r: u8)
        ensures
            r == self.cgb_mode(),
            r < 2,
    {
        get_bits(self.value as u32, 3, 1) as u8
    }

    /// Writes bits 3..3 from the low bits of `value`; every other field keeps its value.
    pub fn set_cgb_mode(&mut self, value: u8)
        ensures
            final(self).value == with_bits(old(self).value as u32, 3, 1, value as u32) as u16,
            value < 2 ==> final(self).cgb_mode() == value,
            final(self).bg_mode() == old(self).bg_mode(),
            final(self).display_frame_select() == old(self).display_frame_select(),
            final(self).hblank_interval_free() == old(self).hblank_interval_free(),
            final(self).obj_charcter_vram_mapping() == old(self).obj_charcter_vram_mapping(),
            final(self).forced_blank() == old(self).forced_blank(),
            final(self).screen_display_bg0() == old(self).screen_display_bg0(),
            final(self).screen_display_bg1() == old(self).screen_display_bg1(),
            final(self).screen_display_bg2() == old(self).screen_display_bg2(),
            final(self).screen_display_bg3() == old(self).screen_display_bg3(),
            final(self).screen_display_obj() == old(self).screen_display_obj(),
            final(self).window_0_display_flag() == old(self).window_0_display_flag(),
            final(self).window_1_display_flag() == old(self).window_1_display_flag(),
            final(self).obj_window_display_flag() == old(self).obj_window_display_flag(),
    {
        let old_value = self.value;
        self.value = set_bits(self.value as u32, 3, 1, value as u32) as u16;
        proof {
            lemma_bits_of_with_bits(old_value as u32, 3, 1, value as u32);
            if value < 2 {
                lemma_fits_mask(value as u32, 1);
            }
            lemma_bits_of_with_other_bits(old_value as u32, 3, 1, value as u32, 0, 3);
            lemma_bits_of_with_other_bits(old_value as u32, 3, 1, value as u32, 4, 1);
            lemma_bits_of_with_other_bits(old_value as u32, 3, 1, value as u32, 5, 1);
            lemma_bits_of_with_other_bits(old_value as u32, 3, 1, value as u32, 6, 1);
            lemma_bits_of_with_other_bits(old_value as u32, 3, 1, value as u32, 7, 1);
            lemma_bits_of_with_other_bits(old_value as u32, 3, 1, value as u32, 8, 1);
            lemma_bits_of_with_other_bits(old_value as u32, 3, 1, value as u32, 9, 1);
            lemma_bits_of_with_other_bits(old_value as u32, 3, 1, value as u32, 10, 1);
            lemma_bits_of_with_other_bits(old_value as u32, 3, 1, value as u32, 11, 1);
            lemma_bits_of_with_other_bits(old_value as u32, 3, 1, value as u32, 12, 1);
            lemma_bits_of_with_other_bits(old_value as u32, 3, 1, value as u32, 13, 1);
            lemma_bits_of_with_other_bits(old_value as u32, 3, 1, value as u32, 14, 1);
            lemma_bits_of_with_other_bits(old_value as u32, 3, 1, value as u32, 15, 1);
        }
    }

    /// Bits 4..4.
    pub open spec fn display_frame_select(self) -> u8 {
        bits(self.value as u32, 4, 1) as u8
    }

    /// Reads bits 4..4.
    pub fn get_display_frame_select(&self) -> (r: u8)
        ensures
            r == self.display_frame_select(),
            r < 2,
    {
        get_bits(self.value as u32, 4, 1) as u8
    }

    /// Writes bits 4..4 from the low bits of `value`; every other field keeps its value.
    pub fn set_display_frame_select(&mut self, value: u8)
        ensures
            final(self).value == with_bits(old(self).value as u32, 4, 1, value as u32) as u16,
            value < 2 ==> final(self).display_frame_select() == value,
            final(self).bg_mode() == old(self).bg_mode(),
            final(self).cgb_mode() == old(self).cgb_mode(),
            final(self).hblank_interval_free() == old(self).hblank_interval_free(),
            final(self).obj_charcter_vram_mapping() == old(self).obj_charcter_vram_mapping(),
            final(self).forced_blank() == old(self).forced_blank(),
            final(self).screen_display_bg0() == old(self).screen_display_bg0(),
            final(self).screen_display_bg1() == old(self).screen_display_bg1(),
            final(self).screen_display_bg2() == old(self).screen_display_bg2(),
            final(self).screen_display_bg3() == old(self).screen_display_bg3(),
            final(self).screen_display_obj() == old(self).screen_display_obj(),
            final(self).window_0_display_flag() == old(self).window_0_display_flag(),
            final(self).window_1_display_flag() == old(self).window_1_display_flag(),
            final(self).obj_window_display_flag() == old(self).obj_window_display_flag(),
    {
        let old_value = self.value;
        self.value = set_bits(self.value as u32, 4, 1, value as u32) as u16;
        proof {
            lemma_bits_of_with_bits(old_value as u32, 4, 1, value as u32);
            if value < 2 {
                lemma_fits_mask(value as u32, 1);
            }
            lemma_bits_of_with_other_bits(old_value as u32, 4, 1, value as u32, 0, 3);
            lemma_bits_of_with_other_bits(old_value as u32, 4, 1, value as u32, 3, 1);
            lemma_bits_of_with_other_bits(old_value as u32, 4, 1, value as u32, 5, 1);
            lemma_bits_of_with_other_bits(old_value as u32, 4, 1, value as u32, 6, 1);
            lemma_bits_of_with_other_bits(old_value as u32, 4, 1, value as u32, 7, 1);
            lemma_bits_of_with_other_bits(old_value as u32, 4, 1, value as u32, 8, 1);
            lemma_bits_of_with_other_bits(old_value as u32, 4, 1, value as u32, 9, 1);
            lemma_bits_of_with_other_bits(old_value as u32, 4, 1, value as u32, 10, 1);
            lemma_bits_of_with_other_bits(old_value as u32, 4, 1, value as u32, 11, 1);
            lemma_bits_of_with_other_bits(old_value as u32, 4, 1, value as u32, 12, 1);
            lemma_bits_of_with_other_bits(old_value as u32, 4, 1, value as u32, 13, 1);
            lemma_bits_of_with_other_bits(old_value as u32, 4, 1, value as u32, 14, 1);
            lemma_bits_of_with_other_bits(old_value as u32, 4, 1, value as u32, 15, 1);
        }
    }

    /// Bits 5..5.
    pub open spec fn hblank_interval_free(self) -> u8 {
        bits(self.value as u32, 5, 1) as u8
    }

    /// Reads bits 5..5.
    pub fn get_hblank_interval_free(&self) -> (r: u8)
        ensures
            r == self.hblank_interval_free(),
            r < 2,
    {
        get_bits(self.value as u32, 5, 1) as u8
    }

    /// Writes bits 5..5 from the low bits of `value`; every other field keeps its value.
    pub fn set_hblank_interval_free(&mut self, value: u8)
        ensures
            final(self).value == with_bits(old(self).value as u32, 5, 1, value as u32) as u16,
            value < 2 ==> final(self).hblank_interval_free() == value,
            final(self).bg_mode() == old(self).bg_mode(),
            final(self).cgb_mode() == old(self).cgb_mode(),
            final(self).display_frame_select() == old(self).display_frame_select(),
            final(self).obj_charcter_vram_mapping() == old(self).obj_charcter_vram_mapping(),
            final(self).forced_blank() == old(self).forced_blank(),
            final(self).screen_display_bg0() == old(self).screen_display_bg0(),
            final(self).screen_display_bg1() == old(self).screen_display_bg1(),
            final(self).screen_display_bg2() == old(self).screen_display_bg2(),
            final(self).screen_display_bg3() == old(self).screen_display_bg3(),
            final(self).screen_display_obj() == old(self).screen_display_obj(),
            final(self).window_0_display_flag() == old(self).window_0_display_flag(),
            final(self).window_1_display_flag() == old(self).window_1_display_flag(),
            final(self).obj_window_display_flag() == old(self).obj_window_display_flag(),
    {
        let old_value = self.value;
        self.value = set_bits(self.value as u32, 5, 1, value as u32) as u16;
        proof {
            lemma_bits_of_with_bits(old_value as u32, 5, 1, value as u32);
            if value < 2 {
                lemma_fits_mask(value as u32, 1);
            }
            lemma_bits_of_with_other_bits(old_value as u32, 5, 1, value as u32, 0, 3);
            lemma_bits_of_with_other_bits(old_value as u32, 5, 1, value as u32, 3, 1);
            lemma_bits_of_with_other_bits(old_value as u32, 5, 1, value as u32, 4, 1);
            lemma_bits_of_with_other_bits(old_value as u32, 5, 1, value as u32, 6, 1);
            lemma_bits_of_with_other_bits(old_value as u32, 5, 1, value as u32, 7, 1);
            lemma_bits_of_with_other_bits(old_value as u32, 5, 1, value as u32, 8, 1);
            lemma_bits_of_with_other_bits(old_value as u32, 5, 1, value as u32, 9, 1);
            lemma_bits_of_with_other_bits(old_value as u32, 5, 1, value as u32, 10, 1);
            lemma_bits_of_with_other_bits(old_value as u32, 5, 1, value as u32, 11, 1);
            lemma_bits_of_with_other_bits(old_value as u32, 5, 1, value as u32, 12, 1);
            lemma_bits_of_with_other_bits(old_value as u32, 5, 1, value as u32, 13, 1);
            lemma_bits_of_with_other_bits(old_value as u32, 5, 1, value as u32, 14, 1);
            lemma_bits_of_with_other_bits(old_value as u32, 5, 1, value as u32, 15, 1);
        }
    }

    /// Bits 6..6.
    pub open spec fn obj_charcter_vram_mapping(self) -> u8 {
        bits(self.value as u32, 6, 1) as u8
    }

    /// Reads bits 6..6.
    pub fn get_obj_charcter_vram_mapping(&self) -> (r: u8)
        ensures
            r == self.obj_charcter_vram_mapping(),
            r < 2,
    {
        get_bits(self.value as u32, 6, 1) as u8
    }

    /// Writes bits 6..6 from the low bits of `value`; every other field keeps its value.
    pub fn set_obj_charcter_vram_mapping(&mut self, value: u8)
        ensures
            final(self).value == with_bits(old(self).value as u32, 6, 1, value as u32) as u16,
            value < 2 ==> final(self).obj_charcter_vram_mapping() == value,
            final(self).bg_mode() == old(self).bg_mode(),
            final(self).cgb_mode() == old(self).cgb_mode(),
            final(self).display_frame_select() == old(self).display_frame_select(),
            final(self).hblank_interval_free() == old(self).hblank_interval_free(),
            final(self).forced_blank() == old(self).forced_blank(),
            final(self).screen_display_bg0() == old(self).screen_display_bg0(),
            final(self).screen_display_bg1() == old(self).screen_display_bg1(),
            final(self).screen_display_bg2() == old(self).screen_display_bg2(),
            final(self).screen_display_bg3() == old(self).screen_display_bg3(),
            final(self).screen_display_obj() == old(self).screen_display_obj(),
            final(self).window_0_display_flag() == old(self).window_0_display_flag(),
            final(self).window_1_display_flag() == old(self).window_1_display_flag(),
            final(self).obj_window_display_flag() == old(self).obj_window_display_flag(),
    {
        let old_value = self.value;
        self.value = set_bits(self.value as u32, 6, 1, value as u32) as u16;
        proof {
            lemma_bits_of_with_bits(old_value as u32, 6, 1, value as u32);
            if value < 2 {
                lemma_fits_mask(value as u32, 1);
            }
            lemma_bits_of_with_other_bits(old_value as u32, 6, 1, value as u32, 0, 3);
            lemma_bits_of_with_other_bits(old_value as u32, 6, 1, value as u32, 3, 1);
            lemma_bits_of_with_other_bits(old_value as u32, 6, 1, value as u32, 4, 1);
            lemma_bits_of_with_other_bits(old_value as u32, 6, 1, value as u32, 5, 1);
            lemma_bits_of_with_other_bits(old_value as u32, 6, 1, value as u32, 7, 1);
            lemma_bits_of_with_other_bits(old_value as u32, 6, 1, value as u32, 8, 1);
            lemma_bits_of_with_other_bits(old_value as u32, 6, 1, value as u32, 9, 1);
            lemma_bits_of_with_other_bits(old_value as u32, 6, 1, value as u32, 10, 1);
            lemma_bits_of_with_other_bits(old_value as u32, 6, 1, value as u32, 11, 1);
            lemma_bits_of_with_other_bits(old_value as u32, 6, 1, value as u32, 12, 1);
            lemma_bits_of_with_other_bits(old_value as u32, 6, 1, value as u32, 13, 1);
            lemma_bits_of_with_other_bits(old_value as u32, 6, 1, value as u32, 14, 1);
            lemma_bits_of_with_other_bits(old_value as u32, 6, 1, value as u32, 15, 1);
        }
    }

    /// Bits 7..7.
    pub open spec fn forced_blank(self) -> u8 {
        bits(self.value as u32, 7, 1) as u8
    }

    /// Reads bits 7..7.
    pub fn get_forced_blank(&self) -> (r: u8)
        ensures
            r == self.forced_blank(),
            r < 2,
    {
        get_bits(self.value as u32, 7, 1) as u8
    }

    /// Writes bits 7..7 from the low bits of `value`; every other field keeps its value.
    pub fn set_forced_blank(&mut self, value: u8)
        ensures
            final(self).value == with_bits(old(self).value as u32, 7, 1, value as u32) as u16,
            value < 2 ==> final(self).forced_blank() == value,
            final(self).bg_mode() == old(self).bg_mode(),
            final(self).cgb_mode() == old(self).cgb_mode(),
            final(self).display_frame_select() == old(self).display_frame_select(),
            final(self).hblank_interval_free() == old(self).hblank_interval_free(),
            final(self).obj_charcter_vram_mapping() == old(self).obj_charcter_vram_mapping(),
            final(self).screen_display_bg0() == old(self).screen_display_bg0(),
            final(self).screen_display_bg1() == old(self).screen_display_bg1(),
            final(self).screen_display_bg2() == old(self).screen_display_bg2(),
            final(self).screen_display_bg3() == old(self).screen_display_bg3(),
            final(self).screen_display_obj() == old(self).screen_display_obj(),
            final(self).window_0_display_flag() == old(self).window_0_display_flag(),
            final(self).window_1_display_flag() == old(self).window_1_display_flag(),
            final(self).obj_window_display_flag() == old(self).obj_window_display_flag(),
    {
        let old_value = self.value;
        self.value = set_bits(self.value as u32, 7, 1, value as u32) as u16;
        proof {
            lemma_bits_of_with_bits(old_value as u32, 7, 1, value as u32);
            if value < 2 {
                lemma_fits_mask(value as u32, 1);
            }
            lemma_bits_of_with_other_bits(old_value as u32, 7, 1, value as u32, 0, 3);
            lemma_bits_of_with_other_bits(old_value as u32, 7, 1, value as u32, 3, 1);
            lemma_bits_of_with_other_bits(old_value as u32, 7, 1, value as u32, 4, 1);
            lemma_bits_of_with_other_bits(old_value as u32, 7, 1, value as u32, 5, 1);
            lemma_bits_of_with_other_bits(old_value as u32, 7, 1, value as u32, 6, 1);
            lemma_bits_of_with_other_bits(old_value as u32, 7, 1, value as u32, 8, 1);
            lemma_bits_of_with_other_bits(old_value as u32, 7, 1, value as u32, 9, 1);
            lemma_bits_of_with_other_bits(old_value as u32, 7, 1, value as u32, 10, 1);
            lemma_bits_of_with_other_bits(old_value as u32, 7, 1, value as u32, 11, 1);
            lemma_bits_of_with_other_bits(old_value as u32, 7, 1, value as u32, 12, 1);
            lemma_bits_of_with_other_bits(old_value as u32, 7, 1, value as u32, 13, 1);
            lemma_bits_of_with_other_bits(old_value as u32, 7, 1, value as u32, 14, 1);
            lemma_bits_of_with_other_bits(old_value as u32, 7, 1, value as u32, 15, 1);
        }
    }

    /// Bits 8..8.
    pub open spec fn screen_display_bg0(self) -> u8 {
        bits(self.value as u32, 8, 1) as u8
    }

    /// Reads bits 8..8.
    pub fn get_screen_display_bg0(&self) -> (r: u8)
        ensures
            r == self.screen_display_bg0(),
            r < 2,
    {
        get_bits(self.value as u32, 8, 1) as u8
    }

    /// Writes bits 8..8 from the low bits of `value`; every other field keeps its value.
    pub fn set_screen_display_bg0(&mut self, value: u8)
        ensures
            final(self).value == with_bits(old(self).value as u32, 8, 1, value as u32) as u16,
            value < 2 ==> final(self).screen_display_bg0() == value,
            final(self).bg_mode() == old(self).bg_mode(),
            final(self).cgb_mode() == old(self).cgb_mode(),
            final(self).display_frame_select() == old(self).display_frame_select(),
            final(self).hblank_interval_free() == old(self).hblank_interval_free(),
            final(self).obj_charcter_vram_mapping() == old(self).obj_charcter_vram_mapping(),
            final(self).forced_blank() == old(self).forced_blank(),
            final(self).screen_display_bg1() == old(self).screen_display_bg1(),
            final(self).screen_display_bg2() == old(self).screen_display_bg2(),
            final(self).screen_display_bg3() == old(self).screen_display_bg3(),
            final(self).screen_display_obj() == old(self).screen_display_obj(),
            final(self).window_0_display_flag() == old(self).window_0_display_flag(),
            final(self).window_1_display_flag() == old(self).window_1_display_flag(),
            final(self).obj_window_display_flag() == old(self).obj_window_display_flag(),
    {
        let old_value = self.value;
        self.value = set_bits(self.value as u32, 8, 1, value as u32) as u16;
        proof {
            lemma_bits_of_with_bits(old_value as u32, 8, 1, value as u32);
            if value < 2 {
                lemma_fits_mask(value as u32, 1);
            }
            lemma_bits_of_with_other_bits(old_value as u32, 8, 1, value as u32, 0, 3);
            lemma_bits_of_with_other_bits(old_value as u32, 8, 1, value as u32, 3, 1);
            lemma_bits_of_with_other_bits(old_value as u32, 8, 1, value as u32, 4, 1);
            lemma_bits_of_with_other_bits(old_value as u32, 8, 1, value as u32, 5, 1);
            lemma_bits_of_with_other_bits(old_value as u32, 8, 1, value as u32, 6, 1);
            lemma_bits_of_with_other_bits(old_value as u32, 8, 1, value as u32, 7, 1);
            lemma_bits_of_with_other_bits(old_value as u32, 8, 1, value as u32, 9, 1);
            lemma_bits_of_with_other_bits(old_value as u32, 8, 1, value as u32, 10, 1);
            lemma_bits_of_with_other_bits(old_value as u32, 8, 1, value as u32, 11, 1);
            lemma_bits_of_with_other_bits(old_value as u32, 8, 1, value as u32, 12, 1);
            lemma_bits_of_with_other_bits(old_value as u32, 8, 1, value as u32, 13, 1);
            lemma_bits_of_with_other_bits(old_value as u32, 8, 1, value as u32, 14, 1);
            lemma_bits_of_with_other_bits(old_value as u32, 8, 1, value as u32, 15, 1);
        }
    }

    /// Bits 9..9.
    pub open spec fn screen_display_bg1(self) -> u8 {
        bits(self.value as u32, 9, 1) as u8
    }

    /// Reads bits 9..9.
    pub fn get_screen_display_bg1(&self) -> (r: u8)
        ensures
            r == self.screen_display_bg1(),
            r < 2,
    {
        get_bits(self.value as u32, 9, 1) as u8
    }

    /// Writes bits 9..9 from the low bits of `value`; every other field keeps its value.
    pub fn set_screen_display_bg1(&mut self, value: u8)
        ensures
            final(self).value == with_bits(old(self).value as u32, 9, 1, value as u32) as u16,
            value < 2 ==> final(self).screen_display_bg1() == value,
            final(self).bg_mode() == old(self).bg_mode(),
            final(self).cgb_mode() == old(self).cgb_mode(),
            final(self).display_frame_select() == old(self).display_frame_select(),
            final(self).hblank_interval_free() == old(self).hblank_interval_free(),
            final(self).obj_charcter_vram_mapping() == old(self).obj_charcter_vram_mapping(),
            final(self).forced_blank() == old(self).forced_blank(),
            final(self).screen_display_bg0() == old(self).screen_display_bg0(),
            final(self).screen_display_bg2() == old(self).screen_display_bg2(),
            final(self).screen_display_bg3() == old(self).screen_display_bg3(),
            final(self).screen_display_obj() == old(self).screen_display_obj(),
            final(self).window_0_display_flag() == old(self).window_0_display_flag(),
            final(self).window_1_display_flag() == old(self).window_1_display_flag(),
            final(self).obj_window_display_flag() == old(self).obj_window_display_flag(),
    {
        let old_value = self.value;
        self.value = set_bits(self.value as u32, 9, 1, value as u32) as u16;
        proof {
            lemma_bits_of_with_bits(old_value as u32, 9, 1, value as u32);
            if value < 2 {
                lemma_fits_mask(value as u32, 1);
            }
            lemma_bits_of_with_other_bits(old_value as u32, 9, 1, value as u32, 0, 3);
            lemma_bits_of_with_other_bits(old_value as u32, 9, 1, value as u32, 3, 1);
            lemma_bits_of_with_other_bits(old_value as u32, 9, 1, value as u32, 4, 1);
            lemma_bits_of_with_other_bits(old_value as u32, 9, 1, value as u32, 5, 1);
            lemma_bits_of_with_other_bits(old_value as u32, 9, 1, value as u32, 6, 1);
            lemma_bits_of_with_other_bits(old_value as u32, 9, 1, value as u32, 7, 1);
            lemma_bits_of_with_other_bits(old_value as u32, 9, 1, value as u32, 8, 1);
            lemma_bits_of_with_other_bits(old_value as u32, 9, 1, value as u32, 10, 1);
            lemma_bits_of_with_other_bits(old_value as u32, 9, 1, value as u32, 11, 1);
            lemma_bits_of_with_other_bits(old_value as u32, 9, 1, value as u32, 12, 1);
            lemma_bits_of_with_other_bits(old_value as u32, 9, 1, value as u32, 13, 1);
            lemma_bits_of_with_other_bits(old_value as u32, 9, 1, value as u32, 14, 1);
            lemma_bits_of_with_other_bits(old_value as u32, 9, 1, value as u32, 15, 1);
        }
    }

    /// Bits 10..10.
    pub open spec fn screen_display_bg2(self) -> u8 {
        bits(self.value as u32, 10, 1) as u8
    }

    /// Reads bits 10..10.
    pub fn get_screen_display_bg2(&self) -> (r: u8)
        ensures
            r == self.screen_display_bg2(),
            r < 2,
    {
        get_bits(self.value as u32, 10, 1) as u8
    }

    /// Writes bits 10..10 from the low bits of `value`; every other field keeps its value.
    pub fn set_screen_display_bg2(&mut self, value: u8)
        ensures
            final(self).value == with_bits(old(self).value as u32, 10, 1, value as u32) as u16,
            value < 2 ==> final(self).screen_display_bg2() == value,
            final(self).bg_mode() == old(self).bg_mode(),
            final(self).cgb_mode() == old(self).cgb_mode(),
            final(self).display_frame_select() == old(self).display_frame_select(),
            final(self).hblank_interval_free() == old(self).hblank_interval_free(),
            final(self).obj_charcter_vram_mapping() == old(self).obj_charcter_vram_mapping(),
            final(self).forced_blank() == old(self).forced_blank(),
            final(self).screen_display_bg0() == old(self).screen_display_bg0(),
            final(self).screen_display_bg1() == old(self).screen_display_bg1(),
            final(self).screen_display_bg3() == old(self).screen_display_bg3(),
            final(self).screen_display_obj() == old(self).screen_display_obj(),
            final(self).window_0_display_flag() == old(self).window_0_display_flag(),
            final(self).window_1_display_flag() == old(self).window_1_display_flag(),
            final(self).obj_window_display_flag() == old(self).obj_window_display_flag(),
    {
        let old_value = self.value;
        self.value = set_bits(self.value as u32, 10, 1, value as u32) as u16;
        proof {
            lemma_bits_of_with_bits(old_value as u32, 10, 1, value as u32);
            if value < 2 {
                lemma_fits_mask(value as u32, 1);
            }
            lemma_bits_of_with_other_bits(old_value as u32, 10, 1, value as u32, 0, 3);
            lemma_bits_of_with_other_bits(old_value as u32, 10, 1, value as u32, 3, 1);
            lemma_bits_of_with_other_bits(old_value as u32, 10, 1, value as u32, 4, 1);
            lemma_bits_of_with_other_bits(old_value as u32, 10, 1, value as u32, 5, 1);
            lemma_bits_of_with_other_bits(old_value as u32, 10, 1, value as u32, 6, 1);
            lemma_bits_of_with_other_bits(old_value as u32, 10, 1, value as u32, 7, 1);
            lemma_bits_of_with_other_bits(old_value as u32, 10, 1, value as u32, 8, 1);
            lemma_bits_of_with_other_bits(old_value as u32, 10, 1, value as u32, 9, 1);
            lemma_bits_of_with_other_bits(old_value as u32, 10, 1, value as u32, 11, 1);
            lemma_bits_of_with_other_bits(old_value as u32, 10, 1, value as u32, 12, 1);
            lemma_bits_of_with_other_bits(old_value as u32, 10, 1, value as u32, 13, 1);
            lemma_bits_of_with_other_bits(old_value as u32, 10, 1, value as u32, 14, 1);
            lemma_bits_of_with_other_bits(old_value as u32, 10, 1, value as u32, 15, 1);
        }
    }

    /// Bits 11..11.
    pub open spec fn screen_display_bg3(self) -> u8 {
        bits(self.value as u32, 11, 1) as u8
    }

    /// Reads bits 11..11.
    pub fn get_screen_display_bg3(&self) -> (r: u8)
        ensures
            r == self.screen_display_bg3(),
            r < 2,
    {
        get_bits(self.value as u32, 11, 1) as u8
    }

    /// Writes bits 11..11 from the low bits of `value`; every other field keeps its value.
    pub fn set_screen_display_bg3(&mut self, value: u8)
        ensures
            final(self).value == with_bits(old(self).value as u32, 11, 1, value as u32) as u16,
            value < 2 ==> final(self).screen_display_bg3() == value,
            final(self).bg_mode() == old(self).bg_mode(),
            final(self).cgb_mode() == old(self).cgb_mode(),
            final(self).display_frame_select() == old(self).display_frame_select(),
            final(self).hblank_interval_free() == old(self).hblank_interval_free(),
            final(self).obj_charcter_vram_mapping() == old(self).obj_charcter_vram_mapping(),
            final(self).forced_blank() == old(self).forced_blank(),
            final(self).screen_display_bg0() == old(self).screen_display_bg0(),
            final(self).screen_display_bg1() == old(self).screen_display_bg1(),
            final(self).screen_display_bg2() == old(self).screen_display_bg2(),
            final(self).screen_display_obj() == old(self).screen_display_obj(),
            final(self).window_0_display_flag() == old(self).window_0_display_flag(),
            final(self).window_1_display_flag() == old(self).window_1_display_flag(),
            final(self).obj_window_display_flag() == old(self).obj_window_display_flag(),
    {
        let old_value = self.value;
        self.value = set_bits(self.value as u32, 11, 1, value as u32) as u16;
        proof {
            lemma_bits_of_with_bits(old_value as u32, 11, 1, value as u32);
            if value < 2 {
                lemma_fits_mask(value as u32, 1);
            }
            lemma_bits_of_with_other_bits(old_value as u32, 11, 1, value as u32, 0, 3);
            lemma_bits_of_with_other_bits(old_value as u32, 11, 1, value as u32, 3, 1);
            lemma_bits_of_with_other_bits(old_value as u32, 11, 1, value as u32, 4, 1);
            lemma_bits_of_with_other_bits(old_value as u32, 11, 1, value as u32, 5, 1);
            lemma_bits_of_with_other_bits(old_value as u32, 11, 1, value as u32, 6, 1);
            lemma_bits_of_with_other_bits(old_value as u32, 11, 1, value as u32, 7, 1);
            lemma_bits_of_with_other_bits(old_value as u32, 11, 1, value as u32, 8, 1);
            lemma_bits_of_with_other_bits(old_value as u32, 11, 1, value as u32, 9, 1);
            lemma_bits_of_with_other_bits(old_value as u32, 11, 1, value as u32, 10, 1);
            lemma_bits_of_with_other_bits(old_value as u32, 11, 1, value as u32, 12, 1);
            lemma_bits_of_with_other_bits(old_value as u32, 11, 1, value as u32, 13, 1);
            lemma_bits_of_with_other_bits(old_value as u32, 11, 1, value as u32, 14, 1);
            lemma_bits_of_with_other_bits(old_value as u32, 11, 1, value as u32, 15, 1);
        }
    }

    /// Bits 12..12.
    pub open spec fn screen_display_obj(self) -> u8 {
        bits(self.value as u32, 12, 1) as u8
    }

    /// Reads bits 12..12.
    pub fn get_screen_display_obj(&self) -> (r: u8)
        ensures
            r == self.screen_display_obj(),
            r < 2,
    {
        get_bits(self.value as u32, 12, 1) as u8
    }

    /// Writes bits 12..12 from the low bits of `value`; every other field keeps its value.
    pub fn set_screen_display_obj(&mut self, value: u8)
        ensures
            final(self).value == with_bits(old(self).value as u32, 12, 1, value as u32) as u16,
            value < 2 ==> final(self).screen_display_obj() == value,
            final(self).bg_mode() == old(self).bg_mode(),
            final(self).cgb_mode() == old(self).cgb_mode(),
            final(self).display_frame_select() == old(self).display_frame_select(),
            final(self).hblank_interval_free() == old(self).hblank_interval_free(),
            final(self).obj_charcter_vram_mapping() == old(self).obj_charcter_vram_mapping(),
            final(self).forced_blank() == old(self).forced_blank(),
            final(self).screen_display_bg0() == old(self).screen_display_bg0(),
            final(self).screen_display_bg1() == old(self).screen_display_bg1(),
            final(self).screen_display_bg2() == old(self).screen_display_bg2(),
            final(self).screen_display_bg3() == old(self).screen_display_bg3(),
            final(self).window_0_display_flag() == old(self).window_0_display_flag(),
            final(self).window_1_display_flag() == old(self).window_1_display_flag(),
            final(self).obj_window_display_flag() == old(self).obj_window_display_flag(),
    {
        let old_value = self.value;
        self.value = set_bits(self.value as u32, 12, 1, value as u32) as u16;
        proof {
            lemma_bits_of_with_bits(old_value as u32, 12, 1, value as u32);
            if value < 2 {
                lemma_fits_mask(value as u32, 1);
            }
            lemma_bits_of_with_other_bits(old_value as u32, 12, 1, value as u32, 0, 3);
            lemma_bits_of_with_other_bits(old_value as u32, 12, 1, value as u32, 3, 1);
            lemma_bits_of_with_other_bits(old_value as u32, 12, 1, value as u32, 4, 1);
            lemma_bits_of_with_other_bits(old_value as u32, 12, 1, value as u32, 5, 1);
            lemma_bits_of_with_other_bits(old_value as u32, 12, 1, value as u32, 6, 1);
            lemma_bits_of_with_other_bits(old_value as u32, 12, 1, value as u32, 7, 1);
            lemma_bits_of_with_other_bits(old_value as u32, 12, 1, value as u32, 8, 1);
            lemma_bits_of_with_other_bits(old_value as u32, 12, 1, value as u32, 9, 1);
            lemma_bits_of_with_other_bits(old_value as u32, 12, 1, value as u32, 10, 1);
            lemma_bits_of_with_other_bits(old_value as u32, 12, 1, value as u32, 11, 1);
            lemma_bits_of_with_other_bits(old_value as u32, 12, 1, value as u32, 13, 1);
            lemma_bits_of_with_other_bits(old_value as u32, 12, 1, value as u32, 14, 1);
            lemma_bits_of_with_other_bits(old_value as u32, 12, 1, value as u32, 15, 1);
        }
    }

    /// Bits 13..13.
    pub open spec fn window_0_display_flag(self) -> u8 {
        bits(self.value as u32, 13, 1) as u8
    }

    /// Reads bits 13..13.
    pub fn get_window_0_display_flag(&self) -> (r: u8)
        ensures
            r == self.window_0_display_flag(),
            r < 2,
    {
        get_bits(self.value as u32, 13, 1) as u8
    }

    /// Writes bits 13..13 from the low bits of `value`; every other field keeps its value.
    pub fn set_window_0_display_flag(&mut self, value: u8)
        ensures
            final(self).value == with_bits(old(self).value as u32, 13, 1, value as u32) as u16,
            value < 2 ==> final(self).window_0_display_flag() == value,
            final(self).bg_mode() == old(self).bg_mode(),
            final(self).cgb_mode() == old(self).cgb_mode(),
            final(self).display_frame_select() == old(self).display_frame_select(),
            final(self).hblank_interval_free() == old(self).hblank_interval_free(),
            final(self).obj_charcter_vram_mapping() == old(self).obj_charcter_vram_mapping(),
            final(self).forced_blank() == old(self).forced_blank(),
            final(self).screen_display_bg0() == old(self).screen_display_bg0(),
            final(self).screen_display_bg1() == old(self).screen_display_bg1(),
            final(self).screen_display_bg2() == old(self).screen_display_bg2(),
            final(self).screen_display_bg3() == old(self).screen_display_bg3(),
            final(self).screen_display_obj() == old(self).screen_display_obj(),
            final(self).window_1_display_flag() == old(self).window_1_display_flag(),
            final(self).obj_window_display_flag() == old(self).obj_window_display_flag(),
    {
        let old_value = self.value;
        self.value = set_bits(self.value as u32, 13, 1, value as u32) as u16;
        proof {
            lemma_bits_of_with_bits(old_value as u32, 13, 1, value as u32);
            if value < 2 {
                lemma_fits_mask(value as u32, 1);
            }
            lemma_bits_of_with_other_bits(old_value as u32, 13, 1, value as u32, 0, 3);
            lemma_bits_of_with_other_bits(old_value as u32, 13, 1, value as u32, 3, 1);
            lemma_bits_of_with_other_bits(old_value as u32, 13, 1, value as u32, 4, 1);
            lemma_bits_of_with_other_bits(old_value as u32, 13, 1, value as u32, 5, 1);
            lemma_bits_of_with_other_bits(old_value as u32, 13, 1, value as u32, 6, 1);
            lemma_bits_of_with_other_bits(old_value as u32, 13, 1, value as u32, 7, 1);
            lemma_bits_of_with_other_bits(old_value as u32, 13, 1, value as u32, 8, 1);
            lemma_bits_of_with_other_bits(old_value as u32, 13, 1, value as u32, 9, 1);
            lemma_bits_of_with_other_bits(old_value as u32, 13, 1, value as u32, 10, 1);
            lemma_bits_of_with_other_bits(old_value as u32, 13, 1, value as u32, 11, 1);
            lemma_bits_of_with_other_bits(old_value as u32, 13, 1, value as u32, 12, 1);
            lemma_bits_of_with_other_bits(old_value as u32, 13, 1, value as u32, 14, 1);
            lemma_bits_of_with_other_bits(old_value as u32, 13, 1, value as u32, 15, 1);
        }
    }

    /// Bits 14..14.
    pub open spec fn window_1_display_flag(self) -> u8 {
        bits(self.value as u32, 14, 1) as u8
    }

    /// Reads bits 14..14.
    pub fn get_window_1_display_flag(&self) -> (r: u8)
        ensures
            r == self.window_1_display_flag(),
            r < 2,
    {
        get_bits(self.value as u32, 14, 1) as u8
    }

    /// Writes bits 14..14 from the low bits of `value`; every other field keeps its value.
    pub fn set_window_1_display_flag(&mut self, value: u8)
        ensures
            final(self).value == with_bits(old(self).value as u32, 14, 1, value as u32) as u16,
            value < 2 ==> final(self).window_1_display_flag() == value,
            final(self).bg_mode() == old(self).bg_mode(),
            final(self).cgb_mode() == old(self).cgb_mode(),
            final(self).display_frame_select() == old(self).display_frame_select(),
            final(self).hblank_interval_free() == old(self).hblank_interval_free(),
            final(self).obj_charcter_vram_mapping() == old(self).obj_charcter_vram_mapping(),
            final(self).forced_blank() == old(self).forced_blank(),
            final(self).screen_display_bg0() == old(self).screen_display_bg0(),
            final(self).screen_display_bg1() == old(self).screen_display_bg1(),
            final(self).screen_display_bg2() == old(self).screen_display_bg2(),
            final(self).screen_display_bg3() == old(self).screen_display_bg3(),
            final(self).screen_display_obj() == old(self).screen_display_obj(),
            final(self).window_0_display_flag() == old(self).window_0_display_flag(),
            final(self).obj_window_display_flag() == old(self).obj_window_display_flag(),
    {
        let old_value = self.value;
        self.value = set_bits(self.value as u32, 14, 1, value as u32) as u16;
        proof {
            lemma_bits_of_with_bits(old_value as u32, 14, 1, value as u32);
            if value < 2 {
                lemma_fits_mask(value as u32, 1);
            }
            lemma_bits_of_with_other_bits(old_value as u32, 14, 1, value as u32, 0, 3);
            lemma_bits_of_with_other_bits(old_value as u32, 14, 1, value as u32, 3, 1);
            lemma_bits_of_with_other_bits(old_value as u32, 14, 1, value as u32, 4, 1);
            lemma_bits_of_with_other_bits(old_value as u32, 14, 1, value as u32, 5, 1);
            lemma_bits_of_with_other_bits(old_value as u32, 14, 1, value as u32, 6, 1);
            lemma_bits_of_with_other_bits(old_value as u32, 14, 1, value as u32, 7, 1);
            lemma_bits_of_with_other_bits(old_value as u32, 14, 1, value as u32, 8, 1);
            lemma_bits_of_with_other_bits(old_value as u32, 14, 1, value as u32, 9, 1);
            lemma_bits_of_with_other_bits(old_value as u32, 14, 1, value as u32, 10, 1);
            lemma_bits_of_with_other_bits(old_value as u32, 14, 1, value as u32, 11, 1);
            lemma_bits_of_with_other_bits(old_value as u32, 14, 1, value as u32, 12, 1);
            lemma_bits_of_with_other_bits(old_value as u32, 14, 1, value as u32, 13, 1);
            lemma_bits_of_with_other_bits(old_value as u32, 14, 1, value as u32, 15, 1);
        }
    }

    /// Bits 15..15.
    pub open spec fn obj_window_display_flag(self) -> u8 {
        bits(self.value as u32, 15, 1) as u8
    }

    /// Reads bits 15..15.
    pub fn get_obj_window_display_flag(&self) -> (r: u8)
        ensures
            r == self.obj_window_display_flag(),
            r < 2,
    {
        get_bits(self.value as u32, 15, 1) as u8
    }

    /// Writes bits 15..15 from the low bits of `value`; every other field keeps its value.
    pub fn set_obj_window_display_flag(&mut self, value: u8)
        ensures
            final(self).value == with_bits(old(self).value as u32, 15, 1, value as u32) as u16,
            value < 2 ==> final(self).obj_window_display_flag() == value,
            final(self).bg_mode() == old(self).bg_mode(),
            final(self).cgb_mode() == old(self).cgb_mode(),
            final(self).display_frame_select() == old(self).display_frame_select(),
            final(self).hblank_interval_free() == old(self).hblank_interval_free(),
            final(self).obj_charcter_vram_mapping() == old(self).obj_charcter_vram_mapping(),
            final(self).forced_blank() == old(self).forced_blank(),
            final(self).screen_display_bg0() == old(self).screen_display_bg0(),
            final(self).screen_display_bg1() == old(self).screen_display_bg1(),
            final(self).screen_display_bg2() == old(self).screen_display_bg2(),
            final(self).screen_display_bg3() == old(self).screen_display_bg3(),
            final(self).screen_display_obj() == old(self).screen_display_obj(),
            final(self).window_0_display_flag() == old(self).window_0_display_flag(),
            final(self).window_1_display_flag() == old(self).window_1_display_flag(),
    {
        let old_value = self.value;
        self.value = set_bits(self.value as u32, 15, 1, value as u32) as u16;
        proof {
            lemma_bits_of_with_bits(old_value as u32, 15, 1, value as u32);
            if value < 2 {
                lemma_fits_mask(value as u32, 1);
            }
            lemma_bits_of_with_other_bits(old_value as u32, 15, 1, value as u32, 0, 3);
            lemma_bits_of_with_other_bits(old_value as u32, 15, 1, value as u32, 3, 1);
            lemma_bits_of_with_other_bits(old_value as u32, 15, 1, value as u32, 4, 1);
            lemma_bits_of_with_other_bits(old_value as u32, 15, 1, value as u32, 5, 1);
            lemma_bits_of_with_other_bits(old_value as u32, 15, 1, value as u32, 6, 1);
            lemma_bits_of_with_other_bits(old_value as u32, 15, 1, value as u32, 7, 1);
            lemma_bits_of_with_other_bits(old_value as u32, 15, 1, value as u32, 8, 1);
            lemma_bits_of_with_other_bits(old_value as u32, 15, 1, value as u32, 9, 1);
            lemma_bits_of_with_other_bits(old_value as u32, 15, 1, value as u32, 10, 1);
            lemma_bits_of_with_other_bits(old_value as u32, 15, 1, value as u32, 11, 1);
            lemma_bits_of_with_other_bits(old_value as u32, 15, 1, value as u32, 12, 1);
            lemma_bits_of_with_other_bits(old_value as u32, 15, 1, value as u32, 13, 1);
            lemma_bits_of_with_other_bits(old_value as u32, 15, 1, value as u32, 14, 1);
        }
    }
}

/// Undocumented green swap (GREENSWP).
#[derive(Clone, Copy, Debug, PartialEq, Eq, Structural)]
pub struct GreenSwap {
    pub value: u16,
}

impl GreenSwap {
    /// The size of the register in bytes.
    pub const SEGMENT_SIZE: usize = 2;

    /// A register holding zero.
    pub fn new() -> (r: GreenSwap)
        ensures
            r.value == 0,
    {
        GreenSwap { value: 0 }
    }

    /// The whole register.
    pub fn get_register(&self) -> (r: u16)
        ensures
            r == self.value,
    {
        self.value
    }

    /// Writes the whole register from the low bits of `value`.
    pub fn set_register(&mut self, value: u32)
        ensures
            final(self).value == value as u16,
    {
        self.value = value as u16;
    }

    /// Bits 0..0.
    pub open spec fn green_swap(self) -> u8 {
        bits(self.value as u32, 0, 1) as u8
    }

    /// Reads bits 0..0.
    pub fn get_green_swap(&self) -> (r: u8)
        ensures
            r == self.green_swap(),
            r < 2,
    {
        get_bits(self.value as u32, 0, 1) as u8
    }

    /// Writes bits 0..0 from the low bits of `value`; every other field keeps its value.
    pub fn set_green_swap(&mut self, value: u8)
        ensures
            final(self).value == with_bits(old(self).value as u32, 0, 1, value as u32) as u16,
            value < 2 ==> final(self).green_swap() == value,
    {
        let old_value = self.value;
        self.value = set_bits(self.value as u32, 0, 1, value as u32) as u16;
        proof {
            lemma_bits_of_with_bits(old_value as u32, 0, 1, value as u32);
            if value < 2 {
                lemma_fits_mask(value as u32, 1);
            }
        }
    }
}

/// LCD status (DISPSTAT): blanking flags, interrupt enables and the V-count setting.
#[derive(Clone, Copy, Debug, PartialEq, Eq, Structural)]
pub struct DisplayStatus {
    pub value: u16,
}

impl DisplayStatus {
    /// The size of the register in bytes.
    pub const SEGMENT_SIZE: usize = 2;

    /// A register holding zero.
    pub fn new() -> (r: DisplayStatus)
        ensures
            r.value == 0,
    {
        DisplayStatus { value: 0 }
    }

    /// The whole register.
    pub fn get_register(&self) -> (r: u16)
        ensures
            r == self.value,
    {
        self.value
    }

    /// Writes the whole register from the low bits of `value`.
    pub fn set_register(&mut self, value: u32)
        ensures
            final(self).value == value as u16,
    {
        self.value = value as u16;
    }

    /// Bits 0..0.
    pub open spec fn vblank_flag(self) -> u8 {
        bits(self.value as u32, 0, 1) as u8
    }

    /// Reads bits 0..0.
    pub fn get_vblank_flag(&self) -> (r: u8)
        ensures
            r == self.vblank_flag(),
            r < 2,
    {
        get_bits(self.value as u32, 0, 1) as u8
    }

    /// Writes bits 0..0 from the low bits of `value`; every other field keeps its value.
    pub fn set_vblank_flag(&mut self, value: u8)
        ensures
            final(self).value == with_bits(old(self).value as u32, 0, 1, value as u32) as u16,
            value < 2 ==> final(self).vblank_flag() == value,
            final(self).hblank_flag() == old(self).hblank_flag(),
            final(self).vcounter_flag() == old(self).vcounter_flag(),
            final(self).vblank_irq_enable() == old(self).vblank_irq_enable(),
            final(self).hblank_irq_enable() == old(self).hblank_irq_enable(),
            final(self).vcounter_irq_enable() == old(self).vcounter_irq_enable(),
            final(self).vcount_setting() == old(self).vcount_setting(),
    {
        let old_value = self.value;
        self.value = set_bits(self.value as u32, 0, 1, value as u32) as u16;
        proof {
            lemma_bits_of_with_bits(old_value as u32, 0, 1, value as u32);
            if value < 2 {
                lemma_fits_mask(value as u32, 1);
            }
            lemma_bits_of_with_other_bits(old_value as u32, 0, 1, value as u32, 1, 1);
            lemma_bits_of_with_other_bits(old_value as u32, 0, 1, value as u32, 2, 1);
            lemma_bits_of_with_other_bits(old_value as u32, 0, 1, value as u32, 3, 1);
            lemma_bits_of_with_other_bits(old_value as u32, 0, 1, value as u32, 4, 1);
            lemma_bits_of_with_other_bits(old_value as u32, 0, 1, value as u32, 5, 1);
            lemma_bits_of_with_other_bits(old_value as u32, 0, 1, value as u32, 8, 8);
        }
    }

    /// Bits 1..1.
    pub open spec fn hblank_flag(self) -> u8 {
        bits(self.value as u32, 1, 1) as u8
    }

    /// Reads bits 1..1.
    pub fn get_hblank_flag(&self) -> (r: u8)
        ensures
            r == self.hblank_flag(),
            r < 2,
    {
        get_bits(self.value as u32, 1, 1) as u8
    }

    /// Writes bits 1..1 from the low bits of `value`; every other field keeps its value.
    pub fn set_hblank_flag(&mut self, value: u8)
        ensures
            final(self).value == with_bits(old(self).value as u32, 1, 1, value as u32) as u16,
            value < 2 ==> final(self).hblank_flag() == value,
            final(self).vblank_flag() == old(self).vblank_flag(),
            final(self).vcounter_flag() == old(self).vcounter_flag(),
            final(self).vblank_irq_enable() == old(self).vblank_irq_enable(),
            final(self).hblank_irq_enable() == old(self).hblank_irq_enable(),
            final(self).vcounter_irq_enable() == old(self).vcounter_irq_enable(),
            final(self).vcount_setting() == old(self).vcount_setting(),
    {
        let old_value = self.value;
        self.value = set_bits(self.value as u32, 1, 1, value as u32) as u16;
        proof {
            lemma_bits_of_with_bits(old_value as u32, 1, 1, value as u32);
            if value < 2 {
                lemma_fits_mask(value as u32, 1);
            }
            lemma_bits_of_with_other_bits(old_value as u32, 1, 1, value as u32, 0, 1);
            lemma_bits_of_with_other_bits(old_value as u32, 1, 1, value as u32, 2, 1);
            lemma_bits_of_with_other_bits(old_value as u32, 1, 1, value as u32, 3, 1);
            lemma_bits_of_with_other_bits(old_value as u32, 1, 1, value as u32, 4, 1);
            lemma_bits_of_with_other_bits(old_value as u32, 1, 1, value as u32, 5, 1);
            lemma_bits_of_with_other_bits(old_value as u32, 1, 1, value as u32, 8, 8);
        }
    }

    /// Bits 2..2.
    pub open spec fn vcounter_flag(self) -> u8 {
        bits(self.value as u32, 2, 1) as u8
    }

    /// Reads bits 2..2.
    pub fn get_vcounter_flag(&self) -> (r: u8)
        ensures
            r == self.vcounter_flag(),
            r < 2,
    {
        get_bits(self.value as u32, 2, 1) as u8
    }

    /// Writes bits 2..2 from the low bits of `value`; every other field keeps its value.
    pub fn set_vcounter_flag(&mut self, value: u8)
        ensures
            final(self).value == with_bits(old(self).value as u32, 2, 1, value as u32) as u16,
            value < 2 ==> final(self).vcounter_flag() == value,
            final(self).vblank_flag() == old(self).vblank_flag(),
            final(self).hblank_flag() == old(self).hblank_flag(),
            final(self).vblank_irq_enable() == old(self).vblank_irq_enable(),
            final(self).hblank_irq_enable() == old(self).hblank_irq_enable(),
            final(self).vcounter_irq_enable() == old(self).vcounter_irq_enable(),
            final(self).vcount_setting() == old(self).vcount_setting(),
    {
        let old_value = self.value;
        self.value = set_bits(self.value as u32, 2, 1, value as u32) as u16;
        proof {
            lemma_bits_of_with_bits(old_value as u32, 2, 1, value as u32);
            if value < 2 {
                lemma_fits_mask(value as u32, 1);
            }
            lemma_bits_of_with_other_bits(old_value as u32, 2, 1, value as u32, 0, 1);
            lemma_bits_of_with_other_bits(old_value as u32, 2, 1, value as u32, 1, 1);
            lemma_bits_of_with_other_bits(old_value as u32, 2, 1, value as u32, 3, 1);
            lemma_bits_of_with_other_bits(old_value as u32, 2, 1, value as u32, 4, 1);
            lemma_bits_of_with_other_bits(old_value as u32, 2, 1, value as u32, 5, 1);
            lemma_bits_of_with_other_bits(old_value as u32, 2, 1, value as u32, 8, 8);
        }
    }

    /// Bits 3..3.
    pub open spec fn vblank_irq_enable(self) -> u8 {
        bits(self.value as u32, 3, 1) as u8
    }

    /// Reads bits 3..3.
    pub fn get_vblank_irq_enable(&self) -> (r: u8)
        ensures
            r == self.vblank_irq_enable(),
            r < 2,
    {
        get_bits(self.value as u32, 3, 1) as u8
    }

    /// Writes bits 3..3 from the low bits of `value`; every other field keeps its value.
    pub fn set_vblank_irq_enable(&mut self, value: u8)
        ensures
            final(self).value == with_bits(old(self).value as u32, 3, 1, value as u32) as u16,
            value < 2 ==> final(self).vblank_irq_enable() == value,
            final(self).vblank_flag() == old(self).vblank_flag(),
            final(self).hblank_flag() == old(self).hblank_flag(),
            final(self).vcounter_flag() == old(self).vcounter_flag(),
            final(self).hblank_irq_enable() == old(self).hblank_irq_enable(),
            final(self).vcounter_irq_enable() == old(self).vcounter_irq_enable(),
            final(self).vcount_setting() == old(self).vcount_setting(),
    {
        let old_value = self.value;
        self.value = set_bits(self.value as u32, 3, 1, value as u32) as u16;
        proof {
            lemma_bits_of_with_bits(old_value as u32, 3, 1, value as u32);
            if value < 2 {
                lemma_fits_mask(value as u32, 1);
            }
            lemma_bits_of_with_other_bits(old_value as u32, 3, 1, value as u32, 0, 1);
            lemma_bits_of_with_other_bits(old_value as u32, 3, 1, value as u32, 1, 1);
            lemma_bits_of_with_other_bits(old_value as u32, 3, 1, value as u32, 2, 1);
            lemma_bits_of_with_other_bits(old_value as u32, 3, 1, value as u32, 4, 1);
            lemma_bits_of_with_other_bits(old_value as u32, 3, 1, value as u32, 5, 1);
            lemma_bits_of_with_other_bits(old_value as u32, 3, 1, value as u32, 8, 8);
        }
    }

    /// Bits 4..4.
    pub open spec fn hblank_irq_enable(self) -> u8 {
        bits(self.value as u32, 4, 1) as u8
    }

    /// Reads bits 4..4.
    pub fn get_hblank_irq_enable(&self) -> (r: u8)
        ensures
            r == self.hblank_irq_enable(),
            r < 2,
    {
        get_bits(self.value as u32, 4, 1) as u8
    }

    /// Writes bits 4..4 from the low bits of `value`; every other field keeps its value.
    pub fn set_hblank_irq_enable(&mut self, value: u8)
        ensures
            final(self).value == with_bits(old(self).value as u32, 4, 1, value as u32) as u16,
            value < 2 ==> final(self).hblank_irq_enable() == value,
            final(self).vblank_flag() == old(self).vblank_flag(),
            final(self).hblank_flag() == old(self).hblank_flag(),
            final(self).vcounter_flag() == old(self).vcounter_flag(),
            final(self).vblank_irq_enable() == old(self).vblank_irq_enable(),
            final(self).vcounter_irq_enable() == old(self).vcounter_irq_enable(),
            final(self).vcount_setting() == old(self).vcount_setting(),
    {
        let old_value = self.value;
        self.value = set_bits(self.value as u32, 4, 1, value as u32) as u16;
        proof {
            lemma_bits_of_with_bits(old_value as u32, 4, 1, value as u32);
            if value < 2 {
                lemma_fits_mask(value as u32, 1);
            }
            lemma_bits_of_with_other_bits(old_value as u32, 4, 1, value as u32, 0, 1);
            lemma_bits_of_with_other_bits(old_value as u32, 4, 1, value as u32, 1, 1);
            lemma_bits_of_with_other_bits(old_value as u32, 4, 1, value as u32, 2, 1);
            lemma_bits_of_with_other_bits(old_value as u32, 4, 1, value as u32, 3, 1);
            lemma_bits_of_with_other_bits(old_value as u32, 4, 1, value as u32, 5, 1);
            lemma_bits_of_with_other_bits(old_value as u32, 4, 1, value as u32, 8, 8);
        }
    }

    /// Bits 5..5.
    pub open spec fn vcounter_irq_enable(self) -> u8 {
        bits(self.value as u32, 5, 1) as u8
    }

    /// Reads bits 5..5.
    pub fn get_vcounter_irq_enable(&self) -> (r: u8)
        ensures
            r == self.vcounter_irq_enable(),
            r < 2,
    {
        get_bits(self.value as u32, 5, 1) as u8
    }

    /// Writes bits 5..5 from the low bits of `value`; every other field keeps its value.
    pub fn set_vcounter_irq_enable(&mut self, value: u8)
        ensures
            final(self).value == with_bits(old(self).value as u32, 5, 1, value as u32) as u16,
            value < 2 ==> final(self).vcounter_irq_enable() == value,
            final(self).vblank_flag() == old(self).vblank_flag(),
            final(self).hblank_flag() == old(self).hblank_flag(),
            final(self).vcounter_flag() == old(self).vcounter_flag(),
            final(self).vblank_irq_enable() == old(self).vblank_irq_enable(),
            final(self).hblank_irq_enable() == old(self).hblank_irq_enable(),
            final(self).vcount_setting() == old(self).vcount_setting(),
    {
        let old_value = self.value;
        self.value = set_bits(self.value as u32, 5, 1, value as u32) as u16;
        proof {
            lemma_bits_of_with_bits(old_value as u32, 5, 1, value as u32);
            if value < 2 {
                lemma_fits_mask(value as u32, 1);
            }
            lemma_bits_of_with_other_bits(old_value as u32, 5, 1, value as u32, 0, 1);
            lemma_bits_of_with_other_bits(old_value as u32, 5, 1, value as u32, 1, 1);
            lemma_bits_of_with_other_bits(old_value as u32, 5, 1, value as u32, 2, 1);
            lemma_bits_of_with_other_bits(old_value as u32, 5, 1, value as u32, 3, 1);
            lemma_bits_of_with_other_bits(old_value as u32, 5, 1, value as u32, 4, 1);
            lemma_bits_of_with_other_bits(old_value as u32, 5, 1, value as u32, 8, 8);
        }
    }

    /// Bits 15..8.
    pub open spec fn vcount_setting(self) -> u8 {
        bits(self.value as u32, 8, 8) as u8
    }

    /// Reads bits 15..8.
    pub fn get_vcount_setting(&self) -> (r: u8)
        ensures
            r == self.vcount_setting(),
            r < 256,
    {
        get_bits(self.value as u32, 8, 8) as u8
    }

    /// Writes bits 15..8 from the low bits of `value`; every other field keeps its value.
    pub fn set_vcount_setting(&mut self, value: u8)
        ensures
            final(self).value == with_bits(old(self).value as u32, 8, 8, value as u32) as u16,
            value < 256 ==> final(self).vcount_setting() == value,
            final(self).vblank_flag() == old(self).vblank_flag(),
            final(self).hblank_flag() == old(self).hblank_flag(),
            final(self).vcounter_flag() == old(self).vcounter_flag(),
            final(self).vblank_irq_enable() == old(self).vblank_irq_enable(),
            final(self).hblank_irq_enable() == old(self).hblank_irq_enable(),
            final(self).vcounter_irq_enable() == old(self).vcounter_irq_enable(),
    {
        let old_value = self.value;
        self.value = set_bits(self.value as u32, 8, 8, value as u32) as u16;
        proof {
            lemma_bits_of_with_bits(old_value as u32, 8, 8, value as u32);
            if value < 256 {
                lemma_fits_mask(value as u32, 8);
            }
            lemma_bits_of_with_other_bits(old_value as u32, 8, 8, value as u32, 0, 1);
            lemma_bits_of_with_other_bits(old_value as u32, 8, 8, value as u32, 1, 1);
            lemma_bits_of_with_other_bits(old_value as u32, 8, 8, value as u32, 2, 1);
            lemma_bits_of_with_other_bits(old_value as u32, 8, 8, value as u32, 3, 1);
            lemma_bits_of_with_other_bits(old_value as u32, 8, 8, value as u32, 4, 1);
            lemma_bits_of_with_other_bits(old_value as u32, 8, 8, value as u32, 5, 1);
        }
    }
}

/// The scanline being drawn (VCOUNT).
#[derive(Clone, Copy, Debug, PartialEq, Eq, Structural)]
pub struct VerticalCount {
    pub value: u16,
}

impl VerticalCount {
    /// The size of the register in bytes.
    pub const SEGMENT_SIZE: usize = 2;

    /// A register holding zero.
    pub fn new() -> (r: VerticalCount)
        ensures
            r.value == 0,
    {
        VerticalCount { value: 0 }
    }

    /// The whole register.
    pub fn get_register(&self) -> (r: u16)
        ensures
            r == self.value,
    {
        self.value
    }

    /// Writes the whole register from the low bits of `value`.
    pub fn set_register(&mut self, value: u32)
        ensures
            final(self).value == value as u16,
    {
        self.value = value as u16;
    }

    /// Bits 7..0.
    pub open spec fn current_scanline(self) -> u8 {
        bits(self.value as u32, 0, 8) as u8
    }

    /// Reads bits 7..0.
    pub fn get_current_scanline(&self) -> (r: u8)
        ensures
            r == self.current_scanline(),
            r < 256,
    {
        get_bits(self.value as u32, 0, 8) as u8
    }

    /// Writes bits 7..0 from the low bits of `value`; every other field keeps its value.
    pub fn set_current_scanline(&mut self, value: u8)
        ensures
            final(self).value == with_bits(old(self).value as u32, 0, 8, value as u32) as u16,
            value < 256 ==> final(self).current_scanline() == value,
    {
        let old_value = self.value;
        self.value = set_bits(self.value as u32, 0, 8, value as u32) as u16;
        proof {
            lemma_bits_of_with_bits(old_value as u32, 0, 8, value as u32);
            if value < 256 {
                lemma_fits_mask(value as u32, 8);
            }
        }
    }
}

/// Control of background 0 (BG0CNT).
#[derive(Clone, Copy, Debug, PartialEq, Eq, Structural)]
pub struct BG0Control {
    pub value: u16,
}

impl BG0Control {
    /// The size of the register in bytes.
    pub const SEGMENT_SIZE: usize = 2;

    /// A register holding zero.
    pub fn new() -> (r: BG0Control)
        ensures
            r.value == 0,
    {
        BG0Control { value: 0 }
    }

    /// The whole register.
    pub fn get_register(&self) -> (r: u16)
        ensures
            r == self.value,
    {
        self.value
    }

    /// Writes the whole register from the low bits of `value`.
    pub fn set_register(&mut self, value: u32)
        ensures
            final(self).value == value as u16,
    {
        self.value = value as u16;
    }

    /// Bits 1..0.
    pub open spec fn bg_priority(self) -> u8 {
        bits(self.value as u32, 0, 2) as u8
    }

    /// Reads bits 1..0.
    pub fn get_bg_priority(&self) -> (r: u8)
        ensures
            r == self.bg_priority(),
            r < 4,
    {
        get_bits(self.value as u32, 0, 2) as u8
    }

    /// Writes bits 1..0 from the low bits of `value`; every other field keeps its value.
    pub fn set_bg_priority(&mut self, value: u8)
        ensures
            final(self).value == with_bits(old(self).value as u32, 0, 2, value as u32) as u16,
            value < 4 ==> final(self).bg_priority() == value,
            final(self).character_base_block() == old(self).character_base_block(),
            final(self).mosaic() == old(self).mosaic(),
            final(self).colors() == old(self).colors(),
            final(self).screen_base_block() == old(self).screen_base_block(),
            final(self).screen_size() == old(self).screen_size(),
    {
        let old_value = self.value;
        self.value = set_bits(self.value as u32, 0, 2, value as u32) as u16;
        proof {
            lemma_bits_of_with_bits(old_value as u32, 0, 2, value as u32);
            if value < 4 {
                lemma_fits_mask(value as u32, 2);
            }
            lemma_bits_of_with_other_bits(old_value as u32, 0, 2, value as u32, 2, 2);
            lemma_bits_of_with_other_bits(old_value as u32, 0, 2, value as u32, 6, 1);
            lemma_bits_of_with_other_bits(old_value as u32, 0, 2, value as u32, 7, 1);
            lemma_bits_of_with_other_bits(old_value as u32, 0, 2, value as u32, 8, 4);
            lemma_bits_of_with_other_bits(old_value as u32, 0, 2, value as u32, 14, 2);
        }
    }

    /// Bits 3..2.
    pub open spec fn character_base_block(self) -> u8 {
        bits(self.value as u32, 2, 2) as u8
    }

    /// Reads bits 3..2.
    pub fn get_character_base_block(&self) -> (r: u8)
        ensures
            r == self.character_base_block(),
            r < 4,
    {
        get_bits(self.value as u32, 2, 2) as u8
    }

    /// Writes bits 3..2 from the low bits of `value`; every other field keeps its value.
    pub fn set_character_base_block(&mut self, value: u8)
        ensures
            final(self).value == with_bits(old(self).value as u32, 2, 2, value as u32) as u16,
            value < 4 ==> final(self).character_base_block() == value,
            final(self).bg_priority() == old(self).bg_priority(),
            final(self).mosaic() == old(self).mosaic(),
            final(self).colors() == old(self).colors(),
            final(self).screen_base_block() == old(self).screen_base_block(),
            final(self).screen_size() == old(self).screen_size(),
    {
        let old_value = self.value;
        self.value = set_bits(self.value as u32, 2, 2, value as u32) as u16;
        proof {
            lemma_bits_of_with_bits(old_value as u32, 2, 2, value as u32);
            if value < 4 {
                lemma_fits_mask(value as u32, 2);
            }
            lemma_bits_of_with_other_bits(old_value as u32, 2, 2, value as u32, 0, 2);
            lemma_bits_of_with_other_bits(old_value as u32, 2, 2, value as u32, 6, 1);
            lemma_bits_of_with_other_bits(old_value as u32, 2, 2, value as u32, 7, 1);
            lemma_bits_of_with_other_bits(old_value as u32, 2, 2, value as u32, 8, 4);
            lemma_bits_of_with_other_bits(old_value as u32, 2, 2, value as u32, 14, 2);
        }
    }

    /// Bits 6..6.
    pub open spec fn mosaic(self) -> u8 {
        bits(self.value as u32, 6, 1) as u8
    }

    /// Reads bits 6..6.
    pub fn get_mosaic(&self) -> (r: u8)
        ensures
            r == self.mosaic(),
            r < 2,
    {
        get_bits(self.value as u32, 6, 1) as u8
    }

    /// Writes bits 6..6 from the low bits of `value`; every other field keeps its value.
    pub fn set_mosaic(&mut self, value: u8)
        ensures
            final(self).value == with_bits(old(self).value as u32, 6, 1, value as u32) as u16,
            value < 2 ==> final(self).mosaic() == value,
            final(self).bg_priority() == old(self).bg_priority(),
            final(self).character_base_block() == old(self).character_base_block(),
            final(self).colors() == old(self).colors(),
            final(self).screen_base_block() == old(self).screen_base_block(),
            final(self).screen_size() == old(self).screen_size(),
    {
        let old_value = self.value;
        self.value = set_bits(self.value as u32, 6, 1, value as u32) as u16;
        proof {
            lemma_bits_of_with_bits(old_value as u32, 6, 1, value as u32);
            if value < 2 {
                lemma_fits_mask(value as u32, 1);
            }
            lemma_bits_of_with_other_bits(old_value as u32, 6, 1, value as u32, 0, 2);
            lemma_bits_of_with_other_bits(old_value as u32, 6, 1, value as u32, 2, 2);
            lemma_bits_of_with_other_bits(old_value as u32, 6, 1, value as u32, 7, 1);
            lemma_bits_of_with_other_bits(old_value as u32, 6, 1, value as u32, 8, 4);
            lemma_bits_of_with_other_bits(old_value as u32, 6, 1, value as u32, 14, 2);
        }
    }

    /// Bits 7..7.
    pub open spec fn colors(self) -> u8 {
        bits(self.value as u32, 7, 1) as u8
    }

    /// Reads bits 7..7.
    pub fn get_colors(&self) -> (r: u8)
        ensures
            r == self.colors(),
            r < 2,
    {
        get_bits(self.value as u32, 7, 1) as u8
    }

    /// Writes bits 7..7 from the low bits of `value`; every other field keeps its value.
    pub fn set_colors(&mut self, value: u8)
        ensures
            final(self).value == with_bits(old(self).value as u32, 7, 1, value as u32) as u16,
            value < 2 ==> final(self).colors() == value,
            final(self).bg_priority() == old(self).bg_priority(),
            final(self).character_base_block() == old(self).character_base_block(),
            final(self).mosaic() == old(self).mosaic(),
            final(self).screen_base_block() == old(self).screen_base_block(),
            final(self).screen_size() == old(self).screen_size(),
    {
        let old_value = self.value;
        self.value = set_bits(self.value as u32, 7, 1, value as u32) as u16;
        proof {
            lemma_bits_of_with_bits(old_value as u32, 7, 1, value as u32);
            if value < 2 {
                lemma_fits_mask(value as u32, 1);
            }
            lemma_bits_of_with_other_bits(old_value as u32, 7, 1, value as u32, 0, 2);
            lemma_bits_of_with_other_bits(old_value as u32, 7, 1, value as u32, 2, 2);
            lemma_bits_of_with_other_bits(old_value as u32, 7, 1, value as u32, 6, 1);
            lemma_bits_of_with_other_bits(old_value as u32, 7, 1, value as u32, 8, 4);
            lemma_bits_of_with_other_bits(old_value as u32, 7, 1, value as u32, 14, 2);
        }
    }

    /// Bits 11..8.
    pub open spec fn screen_base_block(self) -> u8 {
        bits(self.value as u32, 8, 4) as u8
    }

    /// Reads bits 11..8.
    pub fn get_screen_base_block(&self) -> (r: u8)
        ensures
            r == self.screen_base_block(),
            r < 16,
    {
        get_bits(self.value as u32, 8, 4) as u8
    }

    /// Writes bits 11..8 from the low bits of `value`; every other field keeps its value.
    pub fn set_screen_base_block(&mut self, value: u8)
        ensures
            final(self).value == with_bits(old(self).value as u32, 8, 4, value as u32) as u16,
            value < 16 ==> final(self).screen_base_block() == value,
            final(self).bg_priority() == old(self).bg_priority(),
            final(self).character_base_block() == old(self).character_base_block(),
            final(self).mosaic() == old(self).mosaic(),
            final(self).colors() == old(self).colors(),
            final(self).screen_size() == old(self).screen_size(),
    {
        let old_value = self.value;
        self.value = set_bits(self.value as u32, 8, 4, value as u32) as u16;
        proof {
            lemma_bits_of_with_bits(old_value as u32, 8, 4, value as u32);
            if value < 16 {
                lemma_fits_mask(value as u32, 4);
            }
            lemma_bits_of_with_other_bits(old_value as u32, 8, 4, value as u32, 0, 2);
            lemma_bits_of_with_other_bits(old_value as u32, 8, 4, value as u32, 2, 2);
            lemma_bits_of_with_other_bits(old_value as u32, 8, 4, value as u32, 6, 1);
            lemma_bits_of_with_other_bits(old_value as u32, 8, 4, value as u32, 7, 1);
            lemma_bits_of_with_other_bits(old_value as u32, 8, 4, value as u32, 14, 2);
        }
    }

    /// Bits 15..14.
    pub open spec fn screen_size(self) -> u8 {
        bits(self.value as u32, 14, 2) as u8
    }

    /// Reads bits 15..14.
    pub fn get_screen_size(&self) -> (r: u8)
        ensures
            r == self.screen_size(),
            r < 4,
    {
        get_bits(self.value as u32, 14, 2) as u8
    }

    /// Writes bits 15..14 from the low bits of `value`; every other field keeps its value.
    pub fn set_screen_size(&mut self, value: u8)
        ensures
            final(self).value == with_bits(old(self).value as u32, 14, 2, value as u32) as u16,
            value < 4 ==> final(self).screen_size() == value,
            final(self).bg_priority() == old(self).bg_priority(),
            final(self).character_base_block() == old(self).character_base_block(),
            final(self).mosaic() == old(self).mosaic(),
            final(self).colors() == old(self).colors(),
            final(self).screen_base_block() == old(self).screen_base_block(),
    {
        let old_value = self.value;
        self.value = set_bits(self.value as u32, 14, 2, value as u32) as u16;
        proof {
            lemma_bits_of_with_bits(old_value as u32, 14, 2, value as u32);
            if value < 4 {
                lemma_fits_mask(value as u32, 2);
            }
            lemma_bits_of_with_other_bits(old_value as u32, 14, 2, value as u32, 0, 2);
            lemma_bits_of_with_other_bits(old_value as u32, 14, 2, value as u32, 2, 2);
            lemma_bits_of_with_other_bits(old_value as u32, 14, 2, value as u32, 6, 1);
            lemma_bits_of_with_other_bits(old_value as u32, 14, 2, value as u32, 7, 1);
            lemma_bits_of_with_other_bits(old_value as u32, 14, 2, value as u32, 8, 4);
        }
    }
}

/// Control of background 1 (BG1CNT).
#[derive(Clone, Copy, Debug, PartialEq, Eq, Structural)]
pub struct BG1Control {
    pub value: u16,
}

impl BG1Control {
    /// The size of the register in bytes.
    pub const SEGMENT_SIZE: usize = 2;

    /// A register holding zero.
    pub fn new() -> (r: BG1Control)
        ensures
            r.value == 0,
    {
        BG1Control { value: 0 }
    }

    /// The whole register.
    pub fn get_register(&self) -> (r: u16)
        ensures
            r == self.value,
    {
        self.value
    }

    /// Writes the whole register from the low bits of `value`.
    pub fn set_register(&mut self, value: u32)
        ensures
            final(self).value == value as u16,
    {
        self.value = value as u16;
    }

    /// Bits 1..0.
    pub open spec fn bg_priority(self) -> u8 {
        bits(self.value as u32, 0, 2) as u8
    }

    /// Reads bits 1..0.
    pub fn get_bg_priority(&self) -> (r: u8)
        ensures
            r == self.bg_priority(),
            r < 4,
    {
        get_bits(self.value as u32, 0, 2) as u8
    }

    /// Writes bits 1..0 from the low bits of `value`; every other field keeps its value.
    pub fn set_bg_priority(&mut self, value: u8)
        ensures
            final(self).value == with_bits(old(self).value as u32, 0, 2, value as u32) as u16,
            value < 4 ==> final(self).bg_priority() == value,
            final(self).character_base_block() == old(self).character_base_block(),
            final(self).mosaic() == old(self).mosaic(),
            final(self).colors() == old(self).colors(),
            final(self).screen_base_block() == old(self).screen_base_block(),
            final(self).screen_size() == old(self).screen_size(),
    {
        let old_value = self.value;
        self.value = set_bits(self.value as u32, 0, 2, value as u32) as u16;
        proof {
            lemma_bits_of_with_bits(old_value as u32, 0, 2, value as u32);
            if value < 4 {
                lemma_fits_mask(value as u32, 2);
            }
            lemma_bits_of_with_other_bits(old_value as u32, 0, 2, value as u32, 2, 2);
            lemma_bits_of_with_other_bits(old_value as u32, 0, 2, value as u32, 6, 1);
            lemma_bits_of_with_other_bits(old_value as u32, 0, 2, value as u32, 7, 1);
            lemma_bits_of_with_other_bits(old_value as u32, 0, 2, value as u32, 8, 4);
            lemma_bits_of_with_other_bits(old_value as u32, 0, 2, value as u32, 14, 2);
        }
    }

    /// Bits 3..2.
    pub open spec fn character_base_block(self) -> u8 {
        bits(self.value as u32, 2, 2) as u8
    }

    /// Reads bits 3..2.
    pub fn get_character_base_block(&self) -> (r: u8)
        ensures
            r == self.character_base_block(),
            r < 4,
    {
        get_bits(self.value as u32, 2, 2) as u8
    }

    /// Writes bits 3..2 from the low bits of `value`; every other field keeps its value.
    pub fn set_character_base_block(&mut self, value: u8)
        ensures
            final(self).value == with_bits(old(self).value as u32, 2, 2, value as u32) as u16,
            value < 4 ==> final(self).character_base_block() == value,
            final(self).bg_priority() == old(self).bg_priority(),
            final(self).mosaic() == old(self).mosaic(),
            final(self).colors() == old(self).colors(),
            final(self).screen_base_block() == old(self).screen_base_block(),
            final(self).screen_size() == old(self).screen_size(),
    {
        let old_value = self.value;
        self.value = set_bits(self.value as u32, 2, 2, value as u32) as u16;
        proof {
            lemma_bits_of_with_bits(old_value as u32, 2, 2, value as u32);
            if value < 4 {
                lemma_fits_mask(value as u32, 2);
            }
            lemma_bits_of_with_other_bits(old_value as u32, 2, 2, value as u32, 0, 2);
            lemma_bits_of_with_other_bits(old_value as u32, 2, 2, value as u32, 6, 1);
            lemma_bits_of_with_other_bits(old_value as u32, 2, 2, value as u32, 7, 1);
            lemma_bits_of_with_other_bits(old_value as u32, 2, 2, value as u32, 8, 4);
            lemma_bits_of_with_other_bits(old_value as u32, 2, 2, value as u32, 14, 2);
        }
    }

    /// Bits 6..6.
    pub open spec fn mosaic(self) -> u8 {
        bits(self.value as u32, 6, 1) as u8
    }

    /// Reads bits 6..6.
    pub fn get_mosaic(&self) -> (r: u8)
        ensures
            r == self.mosaic(),
            r < 2,
    {
        get_bits(self.value as u32, 6, 1) as u8
    }

    /// Writes bits 6..6 from the low bits of `value`; every other field keeps its value.
    pub fn set_mosaic(&mut self, value: u8)
        ensures
            final(self).value == with_bits(old(self).value as u32, 6, 1, value as u32) as u16,
            value < 2 ==> final(self).mosaic() == value,
            final(self).bg_priority() == old(self).bg_priority(),
            final(self).character_base_block() == old(self).character_base_block(),
            final(self).colors() == old(self).colors(),
            final(self).screen_base_block() == old(self).screen_base_block(),
            final(self).screen_size() == old(self).screen_size(),
    {
        let old_value = self.value;
        self.value = set_bits(self.value as u32, 6, 1, value as u32) as u16;
        proof {
            lemma_bits_of_with_bits(old_value as u32, 6, 1, value as u32);
            if value < 2 {
                lemma_fits_mask(value as u32, 1);
            }
            lemma_bits_of_with_other_bits(old_value as u32, 6, 1, value as u32, 0, 2);
            lemma_bits_of_with_other_bits(old_value as u32, 6, 1, value as u32, 2, 2);
            lemma_bits_of_with_other_bits(old_value as u32, 6, 1, value as u32, 7, 1);
            lemma_bits_of_with_other_bits(old_value as u32, 6, 1, value as u32, 8, 4);
            lemma_bits_of_with_other_bits(old_value as u32, 6, 1, value as u32, 14, 2);
        }
    }

    /// Bits 7..7.
    pub open spec fn colors(self) -> u8 {
        bits(self.value as u32, 7, 1) as u8
    }

    /// Reads bits 7..7.
    pub fn get_colors(&self) -> (r: u8)
        ensures
            r == self.colors(),
            r < 2,
    {
        get_bits(self.value as u32, 7, 1) as u8
    }

    /// Writes bits 7..7 from the low bits of `value`; every other field keeps its value.
    pub fn set_colors(&mut self, value: u8)
        ensures
            final(self).value == with_bits(old(self).value as u32, 7, 1, value as u32) as u16,
            value < 2 ==> final(self).colors() == value,
            final(self).bg_priority() == old(self).bg_priority(),
            final(self).character_base_block() == old(self).character_base_block(),
            final(self).mosaic() == old(self).mosaic(),
            final(self).screen_base_block() == old(self).screen_base_block(),
            final(self).screen_size() == old(self).screen_size(),
    {
        let old_value = self.value;
        self.value = set_bits(self.value as u32, 7, 1, value as u32) as u16;
        proof {
            lemma_bits_of_with_bits(old_value as u32, 7, 1, value as u32);
            if value < 2 {
                lemma_fits_mask(value as u32, 1);
            }
            lemma_bits_of_with_other_bits(old_value as u32, 7, 1, value as u32, 0, 2);
            lemma_bits_of_with_other_bits(old_value as u32, 7, 1, value as u32, 2, 2);
            lemma_bits_of_with_other_bits(old_value as u32, 7, 1, value as u32, 6, 1);
            lemma_bits_of_with_other_bits(old_value as u32, 7, 1, value as u32, 8, 4);
            lemma_bits_of_with_other_bits(old_value as u32, 7, 1, value as u32, 14, 2);
        }
    }

    /// Bits 11..8.
    pub open spec fn screen_base_block(self) -> u8 {
        bits(self.value as u32, 8, 4) as u8
    }

    /// Reads bits 11..8.
    pub fn get_screen_base_block(&self) -> (r: u8)
        ensures
            r == self.screen_base_block(),
            r < 16,
    {
        get_bits(self.value as u32, 8, 4) as u8
    }

    /// Writes bits 11..8 from the low bits of `value`; every other field keeps its value.
    pub fn set_screen_base_block(&mut self, value: u8)
        ensures
            final(self).value == with_bits(old(self).value as u32, 8, 4, value as u32) as u16,
            value < 16 ==> final(self).screen_base_block() == value,
            final(self).bg_priority() == old(self).bg_priority(),
            final(self).character_base_block() == old(self).character_base_block(),
            final(self).mosaic() == old(self).mosaic(),
            final(self).colors() == old(self).colors(),
            final(self).screen_size() == old(self).screen_size(),
    {
        let old_value = self.value;
        self.value = set_bits(self.value as u32, 8, 4, value as u32) as u16;
        proof {
            lemma_bits_of_with_bits(old_value as u32, 8, 4, value as u32);
            if value < 16 {
                lemma_fits_mask(value as u32, 4);
            }
            lemma_bits_of_with_other_bits(old_value as u32, 8, 4, value as u32, 0, 2);
            lemma_bits_of_with_other_bits(old_value as u32, 8, 4, value as u32, 2, 2);
            lemma_bits_of_with_other_bits(old_value as u32, 8, 4, value as u32, 6, 1);
            lemma_bits_of_with_other_bits(old_value as u32, 8, 4, value as u32, 7, 1);
            lemma_bits_of_with_other_bits(old_value as u32, 8, 4, value as u32, 14, 2);
        }
    }

    /// Bits 15..14.
    pub open spec fn screen_size(self) -> u8 {
        bits(self.value as u32, 14, 2) as u8
    }

    /// Reads bits 15..14.
    pub fn get_screen_size(&self) -> (r: u8)
        ensures
            r == self.screen_size(),
            r < 4,
    {
        get_bits(self.value as u32, 14, 2) as u8
    }

    /// Writes bits 15..14 from the low bits of `value`; every other field keeps its value.
    pub fn set_screen_size(&mut self, value: u8)
        ensures
            final(self).value == with_bits(old(self).value as u32, 14, 2, value as u32) as u16,
            value < 4 ==> final(self).screen_size() == value,
            final(self).bg_priority() == old(self).bg_priority(),
            final(self).character_base_block() == old(self).character_base_block(),
            final(self).mosaic() == old(self).mosaic(),
            final(self).colors() == old(self).colors(),
            final(self).screen_base_block() == old(self).screen_base_block(),
    {
        let old_value = self.value;
        self.value = set_bits(self.value as u32, 14, 2, value as u32) as u16;
        proof {
            lemma_bits_of_with_bits(old_value as u32, 14, 2, value as u32);
            if value < 4 {
                lemma_fits_mask(value as u32, 2);
            }
            lemma_bits_of_with_other_bits(old_value as u32, 14, 2, value as u32, 0, 2);
            lemma_bits_of_with_other_bits(old_value as u32, 14, 2, value as u32, 2, 2);
            lemma_bits_of_with_other_bits(old_value as u32, 14, 2, value as u32, 6, 1);
            lemma_bits_of_with_other_bits(old_value as u32, 14, 2, value as u32, 7, 1);
            lemma_bits_of_with_other_bits(old_value as u32, 14, 2, value as u32, 8, 4);
        }
    }
}

/// Control of background 2 (BG2CNT).
#[derive(Clone, Copy, Debug, PartialEq, Eq, Structural)]
pub struct BG2Control {
    pub value: u16,
}

impl BG2Control {
    /// The size of the register in bytes.
    pub const SEGMENT_SIZE: usize = 2;

    /// A register holding zero.
    pub fn new() -> (r: BG2Control)
        ensures
            r.value == 0,
    {
        BG2Control { value: 0 }
    }

    /// The whole register.
    pub fn get_register(&self) -> (r: u16)
        ensures
            r == self.value,
    {
        self.value
    }

    /// Writes the whole register from the low bits of `value`.
    pub fn set_register(&mut self, value: u32)
        ensures
            final(self).value == value as u16,
    {
        self.value = value as u16;
    }

    /// Bits 1..0.
    pub open spec fn bg_priority(self) -> u8 {
        bits(self.value as u32, 0, 2) as u8
    }

    /// Reads bits 1..0.
    pub fn get_bg_priority(&self) -> (r: u8)
        ensures
            r == self.bg_priority(),
            r < 4,
    {
        get_bits(self.value as u32, 0, 2) as u8
    }

    /// Writes bits 1..0 from the low bits of `value`; every other field keeps its value.
    pub fn set_bg_priority(&mut self, value: u8)
        ensures
            final(self).value == with_bits(old(self).value as u32, 0, 2, value as u32) as u16,
            value < 4 ==> final(self).bg_priority() == value,
            final(self).character_base_block() == old(self).character_base_block(),
            final(self).mosaic() == old(self).mosaic(),
            final(self).colors() == old(self).colors(),
            final(self).screen_base_block() == old(self).screen_base_block(),
            final(self).display_area_overflow() == old(self).display_area_overflow(),
            final(self).screen_size() == old(self).screen_size(),
    {
        let old_value = self.value;
        self.value = set_bits(self.value as u32, 0, 2, value as u32) as u16;
        proof {
            lemma_bits_of_with_bits(old_value as u32, 0, 2, value as u32);
            if value < 4 {
                lemma_fits_mask(value as u32, 2);
            }
            lemma_bits_of_with_other_bits(old_value as u32, 0, 2, value as u32, 2, 2);
            lemma_bits_of_with_other_bits(old_value as u32, 0, 2, value as u32, 6, 1);
            lemma_bits_of_with_other_bits(old_value as u32, 0, 2, value as u32, 7, 1);
            lemma_bits_of_with_other_bits(old_value as u32, 0, 2, value as u32, 8, 4);
            lemma_bits_of_with_other_bits(old_value as u32, 0, 2, value as u32, 13, 1);
            lemma_bits_of_with_other_bits(old_value as u32, 0, 2, value as u32, 14, 2);
        }
    }

    /// Bits 3..2.
    pub open spec fn character_base_block(self) -> u8 {
        bits(self.value as u32, 2, 2) as u8
    }

    /// Reads bits 3..2.
    pub fn get_character_base_block(&self) -> (r: u8)
        ensures
            r == self.character_base_block(),
            r < 4,
    {
        get_bits(self.value as u32, 2, 2) as u8
    }

    /// Writes bits 3..2 from the low bits of `value`; every other field keeps its value.
    pub fn set_character_base_block(&mut self, value: u8)
        ensures
            final(self).value == with_bits(old(self).value as u32, 2, 2, value as u32) as u16,
            value < 4 ==> final(self).character_base_block() == value,
            final(self).bg_priority() == old(self).bg_priority(),
            final(self).mosaic() == old(self).mosaic(),
            final(self).colors() == old(self).colors(),
            final(self).screen_base_block() == old(self).screen_base_block(),
            final(self).display_area_overflow() == old(self).display_area_overflow(),
            final(self).screen_size() == old(self).screen_size(),
    {
        let old_value = self.value;
        self.value = set_bits(self.value as u32, 2, 2, value as u32) as u16;
        proof {
            lemma_bits_of_with_bits(old_value as u32, 2, 2, value as u32);
            if value < 4 {
                lemma_fits_mask(value as u32, 2);
            }
            lemma_bits_of_with_other_bits(old_value as u32, 2, 2, value as u32, 0, 2);
            lemma_bits_of_with_other_bits(old_value as u32, 2, 2, value as u32, 6, 1);
            lemma_bits_of_with_other_bits(old_value as u32, 2, 2, value as u32, 7, 1);
            lemma_bits_of_with_other_bits(old_value as u32, 2, 2, value as u32, 8, 4);
            lemma_bits_of_with_other_bits(old_value as u32, 2, 2, value as u32, 13, 1);
            lemma_bits_of_with_other_bits(old_value as u32, 2, 2, value as u32, 14, 2);
        }
    }

    /// Bits 6..6.
    pub open spec fn mosaic(self) -> u8 {
        bits(self.value as u32, 6, 1) as u8
    }

    /// Reads bits 6..6.
    pub fn get_mosaic(&self) -> (r: u8)
        ensures
            r == self.mosaic(),
            r < 2,
    {
        get_bits(self.value as u32, 6, 1) as u8
    }

    /// Writes bits 6..6 from the low bits of `value`; every other field keeps its value.
    pub fn set_mosaic(&mut self, value: u8)
        ensures
            final(self).value == with_bits(old(self).value as u32, 6, 1, value as u32) as u16,
            value < 2 ==> final(self).mosaic() == value,
            final(self).bg_priority() == old(self).bg_priority(),
            final(self).character_base_block() == old(self).character_base_block(),
            final(self).colors() == old(self).colors(),
            final(self).screen_base_block() == old(self).screen_base_block(),
            final(self).display_area_overflow() == old(self).display_area_overflow(),
            final(self).screen_size() == old(self).screen_size(),
    {
        let old_value = self.value;
        self.value = set_bits(self.value as u32, 6, 1, value as u32) as u16;
        proof {
            lemma_bits_of_with_bits(old_value as u32, 6, 1, value as u32);
            if value < 2 {
                lemma_fits_mask(value as u32, 1);
            }
            lemma_bits_of_with_other_bits(old_value as u32, 6, 1, value as u32, 0, 2);
            lemma_bits_of_with_other_bits(old_value as u32, 6, 1, value as u32, 2, 2);
            lemma_bits_of_with_other_bits(old_value as u32, 6, 1, value as u32, 7, 1);
            lemma_bits_of_with_other_bits(old_value as u32, 6, 1, value as u32, 8, 4);
            lemma_bits_of_with_other_bits(old_value as u32, 6, 1, value as u32, 13, 1);
            lemma_bits_of_with_other_bits(old_value as u32, 6, 1, value as u32, 14, 2);
        }
    }

    /// Bits 7..7.
    pub open spec fn colors(self) -> u8 {
        bits(self.value as u32, 7, 1) as u8
    }

    /// Reads bits 7..7.
    pub fn get_colors(&self) -> (r: u8)
        ensures
            r == self.colors(),
            r < 2,
    {
        get_bits(self.value as u32, 7, 1) as u8
    }

    /// Writes bits 7..7 from the low bits of `value`; every other field keeps its value.
    pub fn set_colors(&mut self, value: u8)
        ensures
            final(self).value == with_bits(old(self).value as u32, 7, 1, value as u32) as u16,
            value < 2 ==> final(self).colors() == value,
            final(self).bg_priority() == old(self).bg_priority(),
            final(self).character_base_block() == old(self).character_base_block(),
            final(self).mosaic() == old(self).mosaic(),
            final(self).screen_base_block() == old(self).screen_base_block(),
            final(self).display_area_overflow() == old(self).display_area_overflow(),
            final(self).screen_size() == old(self).screen_size(),
    {
        let old_value = self.value;
        self.value = set_bits(self.value as u32, 7, 1, value as u32) as u16;
        proof {
            lemma_bits_of_with_bits(old_value as u32, 7, 1, value as u32);
            if value < 2 {
                lemma_fits_mask(value as u32, 1);
            }
            lemma_bits_of_with_other_bits(old_value as u32, 7, 1, value as u32, 0, 2);
            lemma_bits_of_with_other_bits(old_value as u32, 7, 1, value as u32, 2, 2);
            lemma_bits_of_with_other_bits(old_value as u32, 7, 1, value as u32, 6, 1);
            lemma_bits_of_with_other_bits(old_value as u32, 7, 1, value as u32, 8, 4);
            lemma_bits_of_with_other_bits(old_value as u32, 7, 1, value as u32, 13, 1);
            lemma_bits_of_with_other_bits(old_value as u32, 7, 1, value as u32, 14, 2);
        }
    }

    /// Bits 11..8.
    pub open spec fn screen_base_block(self) -> u8 {
        bits(self.value as u32, 8, 4) as u8
    }

    /// Reads bits 11..8.
    pub fn get_screen_base_block(&self) -> (r: u8)
        ensures
            r == self.screen_base_block(),
            r < 16,
    {
        get_bits(self.value as u32, 8, 4) as u8
    }

    /// Writes bits 11..8 from the low bits of `value`; every other field keeps its value.
    pub fn set_screen_base_block(&mut self, value: u8)
        ensures
            final(self).value == with_bits(old(self).value as u32, 8, 4, value as u32) as u16,
            value < 16 ==> final(self).screen_base_block() == value,
            final(self).bg_priority() == old(self).bg_priority(),
            final(self).character_base_block() == old(self).character_base_block(),
            final(self).mosaic() == old(self).mosaic(),
            final(self).colors() == old(self).colors(),
            final(self).display_area_overflow() == old(self).display_area_overflow(),
            final(self).screen_size() == old(self).screen_size(),
    {
        let old_value = self.value;
        self.value = set_bits(self.value as u32, 8, 4, value as u32) as u16;
        proof {
            lemma_bits_of_with_bits(old_value as u32, 8, 4, value as u32);
            if value < 16 {
                lemma_fits_mask(value as u32, 4);
            }
            lemma_bits_of_with_other_bits(old_value as u32, 8, 4, value as u32, 0, 2);
            lemma_bits_of_with_other_bits(old_value as u32, 8, 4, value as u32, 2, 2);
            lemma_bits_of_with_other_bits(old_value as u32, 8, 4, value as u32, 6, 1);
            lemma_bits_of_with_other_bits(old_value as u32, 8, 4, value as u32, 7, 1);
            lemma_bits_of_with_other_bits(old_value as u32, 8, 4, value as u32, 13, 1);
            lemma_bits_of_with_other_bits(old_value as u32, 8, 4, value as u32, 14, 2);
        }
    }

    /// Bits 13..13.
    pub open spec fn display_area_overflow(self) -> u8 {
        bits(self.value as u32, 13, 1) as u8
    }

    /// Reads bits 13..13.
    pub fn get_display_area_overflow(&self) -> (r: u8)
        ensures
            r == self.display_area_overflow(),
            r < 2,
    {
        get_bits(self.value as u32, 13, 1) as u8
    }

    /// Writes bits 13..13 from the low bits of `value`; every other field keeps its value.
    pub fn set_display_area_overflow(&mut self, value: u8)
        ensures
            final(self).value == with_bits(old(self).value as u32, 13, 1, value as u32) as u16,
            value < 2 ==> final(self).display_area_overflow() == value,
            final(self).bg_priority() == old(self).bg_priority(),
            final(self).character_base_block() == old(self).character_base_block(),
            final(self).mosaic() == old(self).mosaic(),
            final(self).colors() == old(self).colors(),
            final(self).screen_base_block() == old(self).screen_base_block(),
            final(self).screen_size() == old(self).screen_size(),
    {
        let old_value = self.value;
        self.value = set_bits(self.value as u32, 13, 1, value as u32) as u16;
        proof {
            lemma_bits_of_with_bits(old_value as u32, 13, 1, value as u32);
            if value < 2 {
                lemma_fits_mask(value as u32, 1);
            }
            lemma_bits_of_with_other_bits(old_value as u32, 13, 1, value as u32, 0, 2);
            lemma_bits_of_with_other_bits(old_value as u32, 13, 1, value as u32, 2, 2);
            lemma_bits_of_with_other_bits(old_value as u32, 13, 1, value as u32, 6, 1);
            lemma_bits_of_with_other_bits(old_value as u32, 13, 1, value as u32, 7, 1);
            lemma_bits_of_with_other_bits(old_value as u32, 13, 1, value as u32, 8, 4);
            lemma_bits_of_with_other_bits(old_value as u32, 13, 1, value as u32, 14, 2);
        }
    }

    /// Bits 15..14.
    pub open spec fn screen_size(self) -> u8 {
        bits(self.value as u32, 14, 2) as u8
    }

    /// Reads bits 15..14.
    pub fn get_screen_size(&self) -> (r: u8)
        ensures
            r == self.screen_size(),
            r < 4,
    {
        get_bits(self.value as u32, 14, 2) as u8
    }

    /// Writes bits 15..14 from the low bits of `value`; every other field keeps its value.
    pub fn set_screen_size(&mut self, value: u8)
        ensures
            final(self).value == with_bits(old(self).value as u32, 14, 2, value as u32) as u16,
            value < 4 ==> final(self).screen_size() == value,
            final(self).bg_priority() == old(self).bg_priority(),
            final(self).character_base_block() == old(self).character_base_block(),
            final(self).mosaic() == old(self).mosaic(),
            final(self).colors() == old(self).colors(),
            final(self).screen_base_block() == old(self).screen_base_block(),
            final(self).display_area_overflow() == old(self).display_area_overflow(),
    {
        let old_value = self.value;
        self.value = set_bits(self.value as u32, 14, 2, value as u32) as u16;
        proof {
            lemma_bits_of_with_bits(old_value as u32, 14, 2, value as u32);
            if value < 4 {
                lemma_fits_mask(value as u32, 2);
            }
            lemma_bits_of_with_other_bits(old_value as u32, 14, 2, value as u32, 0, 2);
            lemma_bits_of_with_other_bits(old_value as u32, 14, 2, value as u32, 2, 2);
            lemma_bits_of_with_other_bits(old_value as u32, 14, 2, value as u32, 6, 1);
            lemma_bits_of_with_other_bits(old_value as u32, 14, 2, value as u32, 7, 1);
            lemma_bits_of_with_other_bits(old_value as u32, 14, 2, value as u32, 8, 4);
            lemma_bits_of_with_other_bits(old_value as u32, 14, 2, value as u32, 13, 1);
        }
    }
}

/// Control of background 3 (BG3CNT).
#[derive(Clone, Copy, Debug, PartialEq, Eq, Structural)]
pub struct BG3Control {
    pub value: u16,
}

impl BG3Control {
    /// The size of the register in bytes.
    pub const SEGMENT_SIZE: usize = 2;

    /// A register holding zero.
    pub fn new() -> (r: BG3Control)
        ensures
            r.value == 0,
    {
        BG3Control { value: 0 }
    }

    /// The whole register.
    pub fn get_register(&self) -> (r: u16)
        ensures
            r == self.value,
    {
        self.value
    }

    /// Writes the whole register from the low bits of `value`.
    pub fn set_register(&mut self, value: u32)
        ensures
            final(self).value == value as u16,
    {
        self.value = value as u16;
    }

    /// Bits 1..0.
    pub open spec fn bg_priority(self) -> u8 {
        bits(self.value as u32, 0, 2) as u8
    }

    /// Reads bits 1..0.
    pub fn get_bg_priority(&self) -> (r: u8)
        ensures
            r == self.bg_priority(),
            r < 4,
    {
        get_bits(self.value as u32, 0, 2) as u8
    }

    /// Writes bits 1..0 from the low bits of `value`; every other field keeps its value.
    pub fn set_bg_priority(&mut self, value: u8)
        ensures
            final(self).value == with_bits(old(self).value as u32, 0, 2, value as u32) as u16,
            value < 4 ==> final(self).bg_priority() == value,
            final(self).character_base_block() == old(self).character_base_block(),
            final(self).mosaic() == old(self).mosaic(),
            final(self).colors() == old(self).colors(),
            final(self).screen_base_block() == old(self).screen_base_block(),
            final(self).display_area_overflow() == old(self).display_area_overflow(),
            final(self).screen_size() == old(self).screen_size(),
    {
        let old_value = self.value;
        self.value = set_bits(self.value as u32, 0, 2, value as u32) as u16;
        proof {
            lemma_bits_of_with_bits(old_value as u32, 0, 2, value as u32);
            if value < 4 {
                lemma_fits_mask(value as u32, 2);
            }
            lemma_bits_of_with_other_bits(old_value as u32, 0, 2, value as u32, 2, 2);
            lemma_bits_of_with_other_bits(old_value as u32, 0, 2, value as u32, 6, 1);
            lemma_bits_of_with_other_bits(old_value as u32, 0, 2, value as u32, 7, 1);
            lemma_bits_of_with_other_bits(old_value as u32, 0, 2, value as u32, 8, 4);
            lemma_bits_of_with_other_bits(old_value as u32, 0, 2, value as u32, 13, 1);
            lemma_bits_of_with_other_bits(old_value as u32, 0, 2, value as u32, 14, 2);
        }
    }

    /// Bits 3..2.
    pub open spec fn character_base_block(self) -> u8 {
        bits(self.value as u32, 2, 2) as u8
    }

    /// Reads bits 3..2.
    pub fn get_character_base_block(&self) -> (r: u8)
        ensures
            r == self.character_base_block(),
            r < 4,
    {
        get_bits(self.value as u32, 2, 2) as u8
    }

    /// Writes bits 3..2 from the low bits of `value`; every other field keeps its value.
    pub fn set_character_base_block(&mut self, value: u8)
        ensures
            final(self).value == with_bits(old(self).value as u32, 2, 2, value as u32) as u16,
            value < 4 ==> final(self).character_base_block() == value,
            final(self).bg_priority() == old(self).bg_priority(),
            final(self).mosaic() == old(self).mosaic(),
            final(self).colors() == old(self).colors(),
            final(self).screen_base_block() == old(self).screen_base_block(),
            final(self).display_area_overflow() == old(self).display_area_overflow(),
            final(self).screen_size() == old(self).screen_size(),
    {
        let old_value = self.value;
        self.value = set_bits(self.value as u32, 2, 2, value as u32) as u16;
        proof {
            lemma_bits_of_with_bits(old_value as u32, 2, 2, value as u32);
            if value < 4 {
                lemma_fits_mask(value as u32, 2);
            }
            lemma_bits_of_with_other_bits(old_value as u32, 2, 2, value as u32, 0, 2);
            lemma_bits_of_with_other_bits(old_value as u32, 2, 2, value as u32, 6, 1);
            lemma_bits_of_with_other_bits(old_value as u32, 2, 2, value as u32, 7, 1);
            lemma_bits_of_with_other_bits(old_value as u32, 2, 2, value as u32, 8, 4);
            lemma_bits_of_with_other_bits(old_value as u32, 2, 2, value as u32, 13, 1);
            lemma_bits_of_with_other_bits(old_value as u32, 2, 2, value as u32, 14, 2);
        }
    }

    /// Bits 6..6.
    pub open spec fn mosaic(self) -> u8 {
        bits(self.value as u32, 6, 1) as u8
    }

    /// Reads bits 6..6.
    pub fn get_mosaic(&self) -> (r: u8)
        ensures
            r == self.mosaic(),
            r < 2,
    {
        get_bits(self.value as u32, 6, 1) as u8
    }

    /// Writes bits 6..6 from the low bits of `value`; every other field keeps its value.
    pub fn set_mosaic(&mut self, value: u8)
        ensures
            final(self).value == with_bits(old(self).value as u32, 6, 1, value as u32) as u16,
            value < 2 ==> final(self).mosaic() == value,
            final(self).bg_priority() == old(self).bg_priority(),
            final(self).character_base_block() == old(self).character_base_block(),
            final(self).colors() == old(self).colors(),
            final(self).screen_base_block() == old(self).screen_base_block(),
            final(self).display_area_overflow() == old(self).display_area_overflow(),
            final(self).screen_size() == old(self).screen_size(),
    {
        let old_value = self.value;
        self.value = set_bits(self.value as u32, 6, 1, value as u32) as u16;
        proof {
            lemma_bits_of_with_bits(old_value as u32, 6, 1, value as u32);
            if value < 2 {
                lemma_fits_mask(value as u32, 1);
            }
            lemma_bits_of_with_other_bits(old_value as u32, 6, 1, value as u32, 0, 2);
            lemma_bits_of_with_other_bits(old_value as u32, 6, 1, value as u32, 2, 2);
            lemma_bits_of_with_other_bits(old_value as u32, 6, 1, value as u32, 7, 1);
            lemma_bits_of_with_other_bits(old_value as u32, 6, 1, value as u32, 8, 4);
            lemma_bits_of_with_other_bits(old_value as u32, 6, 1, value as u32, 13, 1);
            lemma_bits_of_with_other_bits(old_value as u32, 6, 1, value as u32, 14, 2);
        }
    }

    /// Bits 7..7.
    pub open spec fn colors(self) -> u8 {
        bits(self.value as u32, 7, 1) as u8
    }

    /// Reads bits 7..7.
    pub fn get_colors(&self) -> (r: u8)
        ensures
            r == self.colors(),
            r < 2,
    {
        get_bits(self.value as u32, 7, 1) as u8
    }

    /// Writes bits 7..7 from the low bits of `value`; every other field keeps its value.
    pub fn set_colors(&mut self, value: u8)
        ensures
            final(self).value == with_bits(old(self).value as u32, 7, 1, value as u32) as u16,
            value < 2 ==> final(self).colors() == value,
            final(self).bg_priority() == old(self).bg_priority(),
            final(self).character_base_block() == old(self).character_base_block(),
            final(self).mosaic() == old(self).mosaic(),
            final(self).screen_base_block() == old(self).screen_base_block(),
            final(self).display_area_overflow() == old(self).display_area_overflow(),
            final(self).screen_size() == old(self).screen_size(),
    {
        let old_value = self.value;
        self.value = set_bits(self.value as u32, 7, 1, value as u32) as u16;
        proof {
            lemma_bits_of_with_bits(old_value as u32, 7, 1, value as u32);
            if value < 2 {
                lemma_fits_mask(value as u32, 1);
            }
            lemma_bits_of_with_other_bits(old_value as u32, 7, 1, value as u32, 0, 2);
            lemma_bits_of_with_other_bits(old_value as u32, 7, 1, value as u32, 2, 2);
            lemma_bits_of_with_other_bits(old_value as u32, 7, 1, value as u32, 6, 1);
            lemma_bits_of_with_other_bits(old_value as u32, 7, 1, value as u32, 8, 4);
            lemma_bits_of_with_other_bits(old_value as u32, 7, 1, value as u32, 13, 1);
            lemma_bits_of_with_other_bits(old_value as u32, 7, 1, value as u32, 14, 2);
        }
    }

    /// Bits 11..8.
    pub open spec fn screen_base_block(self) -> u8 {
        bits(self.value as u32, 8, 4) as u8
    }

    /// Reads bits 11..8.
    pub fn get_screen_base_block(&self) -> (r: u8)
        ensures
            r == self.screen_base_block(),
            r < 16,
    {
        get_bits(self.value as u32, 8, 4) as u8
    }

    /// Writes bits 11..8 from the low bits of `value`; every other field keeps its value.
    pub fn set_screen_base_block(&mut self, value: u8)
        ensures
            final(self).value == with_bits(old(self).value as u32, 8, 4, value as u32) as u16,
            value < 16 ==> final(self).screen_base_block() == value,
            final(self).bg_priority() == old(self).bg_priority(),
            final(self).character_base_block() == old(self).character_base_block(),
            final(self).mosaic() == old(self).mosaic(),
            final(self).colors() == old(self).colors(),
            final(self).display_area_overflow() == old(self).display_area_overflow(),
            final(self).screen_size() == old(self).screen_size(),
    {
        let old_value = self.value;
        self.value = set_bits(self.value as u32, 8, 4, value as u32) as u16;
        proof {
            lemma_bits_of_with_bits(old_value as u32, 8, 4, value as u32);
            if value < 16 {
                lemma_fits_mask(value as u32, 4);
            }
            lemma_bits_of_with_other_bits(old_value as u32, 8, 4, value as u32, 0, 2);
            lemma_bits_of_with_other_bits(old_value as u32, 8, 4, value as u32, 2, 2);
            lemma_bits_of_with_other_bits(old_value as u32, 8, 4, value as u32, 6, 1);
            lemma_bits_of_with_other_bits(old_value as u32, 8, 4, value as u32, 7, 1);
            lemma_bits_of_with_other_bits(old_value as u32, 8, 4, value as u32, 13, 1);
            lemma_bits_of_with_other_bits(old_value as u32, 8, 4, value as u32, 14, 2);
        }
    }

    /// Bits 13..13.
    pub open spec fn display_area_overflow(self) -> u8 {
        bits(self.value as u32, 13, 1) as u8
    }

    /// Reads bits 13..13.
    pub fn get_display_area_overflow(&self) -> (r: u8)
        ensures
            r == self.display_area_overflow(),
            r < 2,
    {
        get_bits(self.value as u32, 13, 1) as u8
    }

    /// Writes bits 13..13 from the low bits of `value`; every other field keeps its value.
    pub fn set_display_area_overflow(&mut self, value: u8)
        ensures
            final(self).value == with_bits(old(self).value as u32, 13, 1, value as u32) as u16,
            value < 2 ==> final(self).display_area_overflow() == value,
            final(self).bg_priority() == old(self).bg_priority(),
            final(self).character_base_block() == old(self).character_base_block(),
            final(self).mosaic() == old(self).mosaic(),
            final(self).colors() == old(self).colors(),
            final(self).screen_base_block() == old(self).screen_base_block(),
            final(self).screen_size() == old(self).screen_size(),
    {
        let old_value = self.value;
        self.value = set_bits(self.value as u32, 13, 1, value as u32) as u16;
        proof {
            lemma_bits_of_with_bits(old_value as u32, 13, 1, value as u32);
            if value < 2 {
                lemma_fits_mask(value as u32, 1);
            }
            lemma_bits_of_with_other_bits(old_value as u32, 13, 1, value as u32, 0, 2);
            lemma_bits_of_with_other_bits(old_value as u32, 13, 1, value as u32, 2, 2);
            lemma_bits_of_with_other_bits(old_value as u32, 13, 1, value as u32, 6, 1);
            lemma_bits_of_with_other_bits(old_value as u32, 13, 1, value as u32, 7, 1);
            lemma_bits_of_with_other_bits(old_value as u32, 13, 1, value as u32, 8, 4);
            lemma_bits_of_with_other_bits(old_value as u32, 13, 1, value as u32, 14, 2);
        }
    }

    /// Bits 15..14.
    pub open spec fn screen_size(self) -> u8 {
        bits(self.value as u32, 14, 2) as u8
    }

    /// Reads bits 15..14.
    pub fn get_screen_size(&self) -> (r: u8)
        ensures
            r == self.screen_size(),
            r < 4,
    {
        get_bits(self.value as u32, 14, 2) as u8
    }

    /// Writes bits 15..14 from the low bits of `value`; every other field keeps its value.
    pub fn set_screen_size(&mut self, value: u8)
        ensures
            final(self).value == with_bits(old(self).value as u32, 14, 2, value as u32) as u16,
            value < 4 ==> final(self).screen_size() == value,
            final(self).bg_priority() == old(self).bg_priority(),
            final(self).character_base_block() == old(self).character_base_block(),
            final(self).mosaic() == old(self).mosaic(),
            final(self).colors() == old(self).colors(),
            final(self).screen_base_block() == old(self).screen_base_block(),
            final(self).display_area_overflow() == old(self).display_area_overflow(),
    {
        let old_value = self.value;
        self.value = set_bits(self.value as u32, 14, 2, value as u32) as u16;
        proof {
            lemma_bits_of_with_bits(old_value as u32, 14, 2, value as u32);
            if value < 4 {
                lemma_fits_mask(value as u32, 2);
            }
            lemma_bits_of_with_other_bits(old_value as u32, 14, 2, value as u32, 0, 2);
            lemma_bits_of_with_other_bits(old_value as u32, 14, 2, value as u32, 2, 2);
            lemma_bits_of_with_other_bits(old_value as u32, 14, 2, value as u32, 6, 1);
            lemma_bits_of_with_other_bits(old_value as u32, 14, 2, value as u32, 7, 1);
            lemma_bits_of_with_other_bits(old_value as u32, 14, 2, value as u32, 8, 4);
            lemma_bits_of_with_other_bits(old_value as u32, 14, 2, value as u32, 13, 1);
        }
    }
}

} // verus!
