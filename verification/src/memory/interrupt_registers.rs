use vstd::prelude::*;
use crate::bits::{
    bits, get_bits, lemma_bits_of_with_bits, lemma_bits_of_with_other_bits, lemma_fits_mask, set_bits,
    with_bits,
};

verus! {

/// Master switch of the interrupt controller (IME).
#[derive(Clone, Copy, Debug, PartialEq, Eq, Structural)]
pub struct InterruptMasterEnableRegister {
    pub value: u16,
}

impl InterruptMasterEnableRegister {
    /// A register holding zero.
    pub fn new() -> (r: InterruptMasterEnableRegister)
        ensures
            r.value == 0,
    {
        InterruptMasterEnableRegister { value: 0 }
    }

    /// The whole register.
    pub fn get_register(&self) -> (r: u16)
        ensures
            r == self.value,
    {
        self.value
    }

    /// Writes the whole register from the low bits of `value`.
    pub fn set_register(&mut self, value: u32)
        ensures
            final(self).value == value as u16,
    {
        self.value = value as u16;
    }

    /// Bits 0..0.
    pub open spec fn interrupt_master_enable(self) -> u8 {
        bits(self.value as u32, 0, 1) as u8
    }

    /// Reads bits 0..0.
    pub fn get_interrupt_master_enable(&self) -> (r: u8)
        ensures
            r == self.interrupt_master_enable(),
            r < 2,
    {
        get_bits(self.value as u32, 0, 1) as u8
    }

    /// Writes bits 0..0 from the low bits of `value`; every other field keeps its value.
    pub fn set_interrupt_master_enable(&mut self, value: u8)
        ensures
            final(self).value == with_bits(old(self).value as u32, 0, 1, value as u32) as u16,
            value < 2 ==> final(self).interrupt_master_enable() == value,
    {
        let old_value = self.value;
        self.value = set_bits(self.value as u32, 0, 1, value as u32) as u16;
        proof {
            lemma_bits_of_with_bits(old_value as u32, 0, 1, value as u32);
            if value < 2 {
                lemma_fits_mask(value as u32, 1);
            }
        }
    }
}

/// The interrupt sources that may raise an interrupt (IE).
#[derive(Clone, Copy, Debug, PartialEq, Eq, Structural)]
pub struct InterruptEnableRegister {
    pub value: u16,
}

impl InterruptEnableRegister {
    /// A register holding zero.
    pub fn new() -> (r: InterruptEnableRegister)
        ensures
            r.value == 0,
    {
        InterruptEnableRegister { value: 0 }
    }

    /// The whole register.
    pub fn get_register(&self) -> (r: u16)
        ensures
            r == self.value,
    {
        self.value
    }

    /// Writes the whole register from the low bits of `value`.
    pub fn set_register(&mut self, value: u32)
        ensures
            final(self).value == value as u16,
    {
        self.value = value as u16;
    }

    /// Bits 0..0.
    pub open spec fn lcd_v_blank(self) -> u8 {
        bits(self.value as u32, 0, 1) as u8
    }

    /// Reads bits 0..0.
    pub fn get_lcd_v_blank(&self) -> (r: u8)
        ensures
            r == self.lcd_v_blank(),
            r < 2,
    {
        get_bits(self.value as u32, 0, 1) as u8
    }

    /// Writes bits 0..0 from the low bits of `value`; every other field keeps its value.
    pub fn set_lcd_v_blank(&mut self, value: u8)
        ensures
            final(self).value == with_bits(old(self).value as u32, 0, 1, value as u32) as u16,
            value < 2 ==> final(self).lcd_v_blank() == value,
            final(self).lcd_h_blank() == old(self).lcd_h_blank(),
            final(self).lcd_v_counter() == old(self).lcd_v_counter(),
            final(self).timer_0() == old(self).timer_0(),
            final(self).timer_1() == old(self).timer_1(),
            final(self).timer_2() == old(self).timer_2(),
            final(self).timer_3() == old(self).timer_3(),
            final(self).serial() == old(self).serial(),
            final(self).dma_0() == old(self).dma_0(),
            final(self).dma_1() == old(self).dma_1(),
            final(self).dma_2() == old(self).dma_2(),
            final(self).dma_3() == old(self).dma_3(),
            final(self).keypad() == old(self).keypad(),
            final(self).game_pak() == old(self).game_pak(),
    {
        let old_value = self.value;
        self.value = set_bits(self.value as u32, 0, 1, value as u32) as u16;
        proof {
            lemma_bits_of_with_bits(old_value as u32, 0, 1, value as u32);
            if value < 2 {
                lemma_fits_mask(value as u32, 1);
            }
            lemma_bits_of_with_other_bits(old_value as u32, 0, 1, value as u32, 1, 1);
            lemma_bits_of_with_other_bits(old_value as u32, 0, 1, value as u32, 2, 1);
            lemma_bits_of_with_other_bits(old_value as u32, 0, 1, value as u32, 3, 1);
            lemma_bits_of_with_other_bits(old_value as u32, 0, 1, value as u32, 4, 1);
            lemma_bits_of_with_other_bits(old_value as u32, 0, 1, value as u32, 5, 1);
            lemma_bits_of_with_other_bits(old_value as u32, 0, 1, value as u32, 6, 1);
            lemma_bits_of_with_other_bits(old_value as u32, 0, 1, value as u32, 7, 1);
            lemma_bits_of_with_other_bits(old_value as u32, 0, 1, value as u32, 8, 1);
            lemma_bits_of_with_other_bits(old_value as u32, 0, 1, value as u32, 9, 1);
            lemma_bits_of_with_other_bits(old_value as u32, 0, 1, value as u32, 10, 1);
            lemma_bits_of_with_other_bits(old_value as u32, 0, 1, value as u32, 11, 1);
            lemma_bits_of_with_other_bits(old_value as u32, 0, 1, value as u32, 12, 1);
            lemma_bits_of_with_other_bits(old_value as u32, 0, 1, value as u32, 13, 1);
        }
    }

    /// Bits 1..1.
    pub open spec fn lcd_h_blank(self) -> u8 {
        bits(self.value as u32, 1, 1) as u8
    }

    /// Reads bits 1..1.
    pub fn get_lcd_h_blank(&self) -> (r: u8)
        ensures
            r == self.lcd_h_blank(),
            r < 2,
    {
        get_bits(self.value as u32, 1, 1) as u8
    }

    /// Writes bits 1..1 from the low bits of `value`; every other field keeps its value.
    pub fn set_lcd_h_blank(&mut self, value: u8)
        ensures
            final(self).value == with_bits(old(self).value as u32, 1, 1, value as u32) as u16,
            value < 2 ==> final(self).lcd_h_blank() == value,
            final(self).lcd_v_blank() == old(self).lcd_v_blank(),
            final(self).lcd_v_counter() == old(self).lcd_v_counter(),
            final(self).timer_0() == old(self).timer_0(),
            final(self).timer_1() == old(self).timer_1(),
            final(self).timer_2() == old(self).timer_2(),
            final(self).timer_3() == old(self).timer_3(),
            final(self).serial() == old(self).serial(),
            final(self).dma_0() == old(self).dma_0(),
            final(self).dma_1() == old(self).dma_1(),
            final(self).dma_2() == old(self).dma_2(),
            final(self).dma_3() == old(self).dma_3(),
            final(self).keypad() == old(self).keypad(),
            final(self).game_pak() == old(self).game_pak(),
    {
        let old_value = self.value;
        self.value = set_bits(self.value as u32, 1, 1, value as u32) as u16;
        proof {
            lemma_bits_of_with_bits(old_value as u32, 1, 1, value as u32);
            if value < 2 {
                lemma_fits_mask(value as u32, 1);
            }
            lemma_bits_of_with_other_bits(old_value as u32, 1, 1, value as u32, 0, 1);
            lemma_bits_of_with_other_bits(old_value as u32, 1, 1, value as u32, 2, 1);
            lemma_bits_of_with_other_bits(old_value as u32, 1, 1, value as u32, 3, 1);
            lemma_bits_of_with_other_bits(old_value as u32, 1, 1, value as u32, 4, 1);
            lemma_bits_of_with_other_bits(old_value as u32, 1, 1, value as u32, 5, 1);
            lemma_bits_of_with_other_bits(old_value as u32, 1, 1, value as u32, 6, 1);
            lemma_bits_of_with_other_bits(old_value as u32, 1, 1, value as u32, 7, 1);
            lemma_bits_of_with_other_bits(old_value as u32, 1, 1, value as u32, 8, 1);
            lemma_bits_of_with_other_bits(old_value as u32, 1, 1, value as u32, 9, 1);
            lemma_bits_of_with_other_bits(old_value as u32, 1, 1, value as u32, 10, 1);
            lemma_bits_of_with_other_bits(old_value as u32, 1, 1, value as u32, 11, 1);
            lemma_bits_of_with_other_bits(old_value as u32, 1, 1, value as u32, 12, 1);
            lemma_bits_of_with_other_bits(old_value as u32, 1, 1, value as u32, 13, 1);
        }
    }

    /// Bits 2..2.
    pub open spec fn lcd_v_counter(self) -> u8 {
        bits(self.value as u32, 2, 1) as u8
    }

    /// Reads bits 2..2.
    pub fn get_lcd_v_counter(&self) -> (r: u8)
        ensures
            r == self.lcd_v_counter(),
            r < 2,
    {
        get_bits(self.value as u32, 2, 1) as u8
    }

    /// Writes bits 2..2 from the low bits of `value`; every other field keeps its value.
    pub fn set_lcd_v_counter(&mut self, value: u8)
        ensures
            final(self).value == with_bits(old(self).value as u32, 2, 1, value as u32) as u16,
            value < 2 ==> final(self).lcd_v_counter() == value,
            final(self).lcd_v_blank() == old(self).lcd_v_blank(),
            final(self).lcd_h_blank() == old(self).lcd_h_blank(),
            final(self).timer_0() == old(self).timer_0(),
            final(self).timer_1() == old(self).timer_1(),
            final(self).timer_2() == old(self).timer_2(),
            final(self).timer_3() == old(self).timer_3(),
            final(self).serial() == old(self).serial(),
            final(self).dma_0() == old(self).dma_0(),
            final(self).dma_1() == old(self).dma_1(),
            final(self).dma_2() == old(self).dma_2(),
            final(self).dma_3() == old(self).dma_3(),
            final(self).keypad() == old(self).keypad(),
            final(self).game_pak() == old(self).game_pak(),
    {
        let old_value = self.value;
        self.value = set_bits(self.value as u32, 2, 1, value as u32) as u16;
        proof {
            lemma_bits_of_with_bits(old_value as u32, 2, 1, value as u32);
            if value < 2 {
                lemma_fits_mask(value as u32, 1);
            }
            lemma_bits_of_with_other_bits(old_value as u32, 2, 1, value as u32, 0, 1);
            lemma_bits_of_with_other_bits(old_value as u32, 2, 1, value as u32, 1, 1);
            lemma_bits_of_with_other_bits(old_value as u32, 2, 1, value as u32, 3, 1);
            lemma_bits_of_with_other_bits(old_value as u32, 2, 1, value as u32, 4, 1);
            lemma_bits_of_with_other_bits(old_value as u32, 2, 1, value as u32, 5, 1);
            lemma_bits_of_with_other_bits(old_value as u32, 2, 1, value as u32, 6, 1);
            lemma_bits_of_with_other_bits(old_value as u32, 2, 1, value as u32, 7, 1);
            lemma_bits_of_with_other_bits(old_value as u32, 2, 1, value as u32, 8, 1);
            lemma_bits_of_with_other_bits(old_value as u32, 2, 1, value as u32, 9, 1);
            lemma_bits_of_with_other_bits(old_value as u32, 2, 1, value as u32, 10, 1);
            lemma_bits_of_with_other_bits(old_value as u32, 2, 1, value as u32, 11, 1);
            lemma_bits_of_with_other_bits(old_value as u32, 2, 1, value as u32, 12, 1);
            lemma_bits_of_with_other_bits(old_value as u32, 2, 1, value as u32, 13, 1);
        }
    }

    /// Bits 3..3.
    pub open spec fn timer_0(self) -> u8 {
        bits(self.value as u32, 3, 1) as u8
    }

    /// Reads bits 3..3.
    pub fn get_timer_0(&self) -> (r: u8)
        ensures
            r == self.timer_0(),
            r < 2,
    {
        get_bits(self.value as u32, 3, 1) as u8
    }

    /// Writes bits 3..3 from the low bits of `value`; every other field keeps its value.
    pub fn set_timer_0(&mut self, value: u8)
        ensures
            final(self).value == with_bits(old(self).value as u32, 3, 1, value as u32) as u16,
            value < 2 ==> final(self).timer_0() == value,
            final(self).lcd_v_blank() == old(self).lcd_v_blank(),
            final(self).lcd_h_blank() == old(self).lcd_h_blank(),
            final(self).lcd_v_counter() == old(self).lcd_v_counter(),
            final(self).timer_1() == old(self).timer_1(),
            final(self).timer_2() == old(self).timer_2(),
            final(self).timer_3() == old(self).timer_3(),
            final(self).serial() == old(self).serial(),
            final(self).dma_0() == old(self).dma_0(),
            final(self).dma_1() == old(self).dma_1(),
            final(self).dma_2() == old(self).dma_2(),
            final(self).dma_3() == old(self).dma_3(),
            final(self).keypad() == old(self).keypad(),
            final(self).game_pak() == old(self).game_pak(),
    {
        let old_value = self.value;
        self.value = set_bits(self.value as u32, 3, 1, value as u32) as u16;
        proof {
            lemma_bits_of_with_bits(old_value as u32, 3, 1, value as u32);
            if value < 2 {
                lemma_fits_mask(value as u32, 1);
            }
            lemma_bits_of_with_other_bits(old_value as u32, 3, 1, value as u32, 0, 1);
            lemma_bits_of_with_other_bits(old_value as u32, 3, 1, value as u32, 1, 1);
            lemma_bits_of_with_other_bits(old_value as u32, 3, 1, value as u32, 2, 1);
            lemma_bits_of_with_other_bits(old_value as u32, 3, 1, value as u32, 4, 1);
            lemma_bits_of_with_other_bits(old_value as u32, 3, 1, value as u32, 5, 1);
            lemma_bits_of_with_other_bits(old_value as u32, 3, 1, value as u32, 6, 1);
            lemma_bits_of_with_other_bits(old_value as u32, 3, 1, value as u32, 7, 1);
            lemma_bits_of_with_other_bits(old_value as u32, 3, 1, value as u32, 8, 1);
            lemma_bits_of_with_other_bits(old_value as u32, 3, 1, value as u32, 9, 1);
            lemma_bits_of_with_other_bits(old_value as u32, 3, 1, value as u32, 10, 1);
            lemma_bits_of_with_other_bits(old_value as u32, 3, 1, value as u32, 11, 1);
            lemma_bits_of_with_other_bits(old_value as u32, 3, 1, value as u32, 12, 1);
            lemma_bits_of_with_other_bits(old_value as u32, 3, 1, value as u32, 13, 1);
        }
    }

    /// Bits 4..4.
    pub open spec fn timer_1(self) -> u8 {
        bits(self.value as u32, 4, 1) as u8
    }

    /// Reads bits 4..4.
    pub fn get_timer_1(&self) -> (r: u8)
        ensures
            r == self.timer_1(),
            r < 2,
    {
        get_bits(self.value as u32, 4, 1) as u8
    }

    /// Writes bits 4..4 from the low bits of `value`; every other field keeps its value.
    pub fn set_timer_1(&mut self, value: u8)
        ensures
            final(self).value == with_bits(old(self).value as u32, 4, 1, value as u32) as u16,
            value < 2 ==> final(self).timer_1() == value,
            final(self).lcd_v_blank() == old(self).lcd_v_blank(),
            final(self).lcd_h_blank() == old(self).lcd_h_blank(),
            final(self).lcd_v_counter() == old(self).lcd_v_counter(),
            final(self).timer_0() == old(self).timer_0(),
            final(self).timer_2() == old(self).timer_2(),
            final(self).timer_3() == old(self).timer_3(),
            final(self).serial() == old(self).serial(),
            final(self).dma_0() == old(self).dma_0(),
            final(self).dma_1() == old(self).dma_1(),
            final(self).dma_2() == old(self).dma_2(),
            final(self).dma_3() == old(self).dma_3(),
            final(self).keypad() == old(self).keypad(),
            final(self).game_pak() == old(self).game_pak(),
    {
        let old_value = self.value;
        self.value = set_bits(self.value as u32, 4, 1, value as u32) as u16;
        proof {
            lemma_bits_of_with_bits(old_value as u32, 4, 1, value as u32);
            if value < 2 {
                lemma_fits_mask(value as u32, 1);
            }
            lemma_bits_of_with_other_bits(old_value as u32, 4, 1, value as u32, 0, 1);
            lemma_bits_of_with_other_bits(old_value as u32, 4, 1, value as u32, 1, 1);
            lemma_bits_of_with_other_bits(old_value as u32, 4, 1, value as u32, 2, 1);
            lemma_bits_of_with_other_bits(old_value as u32, 4, 1, value as u32, 3, 1);
            lemma_bits_of_with_other_bits(old_value as u32, 4, 1, value as u32, 5, 1);
            lemma_bits_of_with_other_bits(old_value as u32, 4, 1, value as u32, 6, 1);
            lemma_bits_of_with_other_bits(old_value as u32, 4, 1, value as u32, 7, 1);
            lemma_bits_of_with_other_bits(old_value as u32, 4, 1, value as u32, 8, 1);
            lemma_bits_of_with_other_bits(old_value as u32, 4, 1, value as u32, 9, 1);
            lemma_bits_of_with_other_bits(old_value as u32, 4, 1, value as u32, 10, 1);
            lemma_bits_of_with_other_bits(old_value as u32, 4, 1, value as u32, 11, 1);
            lemma_bits_of_with_other_bits(old_value as u32, 4, 1, value as u32, 12, 1);
            lemma_bits_of_with_other_bits(old_value as u32, 4, 1, value as u32, 13, 1);
        }
    }

    /// Bits 5..5.
    pub open spec fn timer_2(self) -> u8 {
        bits(self.value as u32, 5, 1) as u8
    }

    /// Reads bits 5..5.
    pub fn get_timer_2(&self) -> (r: u8)
        ensures
            r == self.timer_2(),
            r < 2,
    {
        get_bits(self.value as u32, 5, 1) as u8
    }

    /// Writes bits 5..5 from the low bits of `value`; every other field keeps its value.
    pub fn set_timer_2(&mut self, value: u8)
        ensures
            final(self).value == with_bits(old(self).value as u32, 5, 1, value as u32) as u16,
            value < 2 ==> final(self).timer_2() == value,
            final(self).lcd_v_blank() == old(self).lcd_v_blank(),
            final(self).lcd_h_blank() == old(self).lcd_h_blank(),
            final(self).lcd_v_counter() == old(self).lcd_v_counter(),
            final(self).timer_0() == old(self).timer_0(),
            final(self).timer_1() == old(self).timer_1(),
            final(self).timer_3() == old(self).timer_3(),
            final(self).serial() == old(self).serial(),
            final(self).dma_0() == old(self).dma_0(),
            final(self).dma_1() == old(self).dma_1(),
            final(self).dma_2() == old(self).dma_2(),
            final(self).dma_3() == old(self).dma_3(),
            final(self).keypad() == old(self).keypad(),
            final(self).game_pak() == old(self).game_pak(),
    {
        let old_value = self.value;
        self.value = set_bits(self.value as u32, 5, 1, value as u32) as u16;
        proof {
            lemma_bits_of_with_bits(old_value as u32, 5, 1, value as u32);
            if value < 2 {
                lemma_fits_mask(value as u32, 1);
            }
            lemma_bits_of_with_other_bits(old_value as u32, 5, 1, value as u32, 0, 1);
            lemma_bits_of_with_other_bits(old_value as u32, 5, 1, value as u32, 1, 1);
            lemma_bits_of_with_other_bits(old_value as u32, 5, 1, value as u32, 2, 1);
            lemma_bits_of_with_other_bits(old_value as u32, 5, 1, value as u32, 3, 1);
            lemma_bits_of_with_other_bits(old_value as u32, 5, 1, value as u32, 4, 1);
            lemma_bits_of_with_other_bits(old_value as u32, 5, 1, value as u32, 6, 1);
            lemma_bits_of_with_other_bits(old_value as u32, 5, 1, value as u32, 7, 1);
            lemma_bits_of_with_other_bits(old_value as u32, 5, 1, value as u32, 8, 1);
            lemma_bits_of_with_other_bits(old_value as u32, 5, 1, value as u32, 9, 1);
            lemma_bits_of_with_other_bits(old_value as u32, 5, 1, value as u32, 10, 1);
            lemma_bits_of_with_other_bits(old_value as u32, 5, 1, value as u32, 11, 1);
            lemma_bits_of_with_other_bits(old_value as u32, 5, 1, value as u32, 12, 1);
            lemma_bits_of_with_other_bits(old_value as u32, 5, 1, value as u32, 13, 1);
        }
    }

    /// Bits 6..6.
    pub open spec fn timer_3(self) -> u8 {
        bits(self.value as u32, 6, 1) as u8
    }

    /// Reads bits 6..6.
    pub fn get_timer_3(&self) -> (r: u8)
        ensures
            r == self.timer_3(),
            r < 2,
    {
        get_bits(self.value as u32, 6, 1) as u8
    }

    /// Writes bits 6..6 from the low bits of `value`; every other field keeps its value.
    pub fn set_timer_3(&mut self, value: u8)
        ensures
            final(self).value == with_bits(old(self).value as u32, 6, 1, value as u32) as u16,
            value < 2 ==> final(self).timer_3() == value,
            final(self).lcd_v_blank() == old(self).lcd_v_blank(),
            final(self).lcd_h_blank() == old(self).lcd_h_blank(),
            final(self).lcd_v_counter() == old(self).lcd_v_counter(),
            final(self).timer_0() == old(self).timer_0(),
            final(self).timer_1() == old(self).timer_1(),
            final(self).timer_2() == old(self).timer_2(),
            final(self).serial() == old(self).serial(),
            final(self).dma_0() == old(self).dma_0(),
            final(self).dma_1() == old(self).dma_1(),
            final(self).dma_2() == old(self).dma_2(),
            final(self).dma_3() == old(self).dma_3(),
            final(self).keypad() == old(self).keypad(),
            final(self).game_pak() == old(self).game_pak(),
    {
        let old_value = self.value;
        self.value = set_bits(self.value as u32, 6, 1, value as u32) as u16;
        proof {
            lemma_bits_of_with_bits(old_value as u32, 6, 1, value as u32);
            if value < 2 {
                lemma_fits_mask(value as u32, 1);
            }
            lemma_bits_of_with_other_bits(old_value as u32, 6, 1, value as u32, 0, 1);
            lemma_bits_of_with_other_bits(old_value as u32, 6, 1, value as u32, 1, 1);
            lemma_bits_of_with_other_bits(old_value as u32, 6, 1, value as u32, 2, 1);
            lemma_bits_of_with_other_bits(old_value as u32, 6, 1, value as u32, 3, 1);
            lemma_bits_of_with_other_bits(old_value as u32, 6, 1, value as u32, 4, 1);
            lemma_bits_of_with_other_bits(old_value as u32, 6, 1, value as u32, 5, 1);
            lemma_bits_of_with_other_bits(old_value as u32, 6, 1, value as u32, 7, 1);
            lemma_bits_of_with_other_bits(old_value as u32, 6, 1, value as u32, 8, 1);
            lemma_bits_of_with_other_bits(old_value as u32, 6, 1, value as u32, 9, 1);
            lemma_bits_of_with_other_bits(old_value as u32, 6, 1, value as u32, 10, 1);
            lemma_bits_of_with_other_bits(old_value as u32, 6, 1, value as u32, 11, 1);
            lemma_bits_of_with_other_bits(old_value as u32, 6, 1, value as u32, 12, 1);
            lemma_bits_of_with_other_bits(old_value as u32, 6, 1, value as u32, 13, 1);
        }
    }

    /// Bits 7..7.
    pub open spec fn serial(self) -> u8 {
        bits(self.value as u32, 7, 1) as u8
    }

    /// Reads bits 7..7.
    pub fn get_serial(&self) -> (r: u8)
        ensures
            r == self.serial(),
            r < 2,
    {
        get_bits(self.value as u32, 7, 1) as u8
    }

    /// Writes bits 7..7 from the low bits of `value`; every other field keeps its value.
    pub fn set_serial(&mut self, value: u8)
        ensures
            final(self).value == with_bits(old(self).value as u32, 7, 1, value as u32) as u16,
            value < 2 ==> final(self).serial() == value,
            final(self).lcd_v_blank() == old(self).lcd_v_blank(),
            final(self).lcd_h_blank() == old(self).lcd_h_blank(),
            final(self).lcd_v_counter() == old(self).lcd_v_counter(),
            final(self).timer_0() == old(self).timer_0(),
            final(self).timer_1() == old(self).timer_1(),
            final(self).timer_2() == old(self).timer_2(),
            final(self).timer_3() == old(self).timer_3(),
            final(self).dma_0() == old(self).dma_0(),
            final(self).dma_1() == old(self).dma_1(),
            final(self).dma_2() == old(self).dma_2(),
            final(self).dma_3() == old(self).dma_3(),
            final(self).keypad() == old(self).keypad(),
            final(self).game_pak() == old(self).game_pak(),
    {
        let old_value = self.value;
        self.value = set_bits(self.value as u32, 7, 1, value as u32) as u16;
        proof {
            lemma_bits_of_with_bits(old_value as u32, 7, 1, value as u32);
            if value < 2 {
                lemma_fits_mask(value as u32, 1);
            }
            lemma_bits_of_with_other_bits(old_value as u32, 7, 1, value as u32, 0, 1);
            lemma_bits_of_with_other_bits(old_value as u32, 7, 1, value as u32, 1, 1);
            lemma_bits_of_with_other_bits(old_value as u32, 7, 1, value as u32, 2, 1);
            lemma_bits_of_with_other_bits(old_value as u32, 7, 1, value as u32, 3, 1);
            lemma_bits_of_with_other_bits(old_value as u32, 7, 1, value as u32, 4, 1);
            lemma_bits_of_with_other_bits(old_value as u32, 7, 1, value as u32, 5, 1);
            lemma_bits_of_with_other_bits(old_value as u32, 7, 1, value as u32, 6, 1);
            lemma_bits_of_with_other_bits(old_value as u32, 7, 1, value as u32, 8, 1);
            lemma_bits_of_with_other_bits(old_value as u32, 7, 1, value as u32, 9, 1);
            lemma_bits_of_with_other_bits(old_value as u32, 7, 1, value as u32, 10, 1);
            lemma_bits_of_with_other_bits(old_value as u32, 7, 1, value as u32, 11, 1);
            lemma_bits_of_with_other_bits(old_value as u32, 7, 1, value as u32, 12, 1);
            lemma_bits_of_with_other_bits(old_value as u32, 7, 1, value as u32, 13, 1);
        }
    }

    /// Bits 8..8.
    pub open spec fn dma_0(self) -> u8 {
        bits(self.value as u32, 8, 1) as u8
    }

    /// Reads bits 8..8.
    pub fn get_dma_0(&self) -> (r: u8)
        ensures
            r == self.dma_0(),
            r < 2,
    {
        get_bits(self.value as u32, 8, 1) as u8
    }

    /// Writes bits 8..8 from the low bits of `value`; every other field keeps its value.
    pub fn set_dma_0(&mut self, value: u8)
        ensures
            final(self).value == with_bits(old(self).value as u32, 8, 1, value as u32) as u16,
            value < 2 ==> final(self).dma_0() == value,
            final(self).lcd_v_blank() == old(self).lcd_v_blank(),
            final(self).lcd_h_blank() == old(self).lcd_h_blank(),
            final(self).lcd_v_counter() == old(self).lcd_v_counter(),
            final(self).timer_0() == old(self).timer_0(),
            final(self).timer_1() == old(self).timer_1(),
            final(self).timer_2() == old(self).timer_2(),
            final(self).timer_3() == old(self).timer_3(),
            final(self).serial() == old(self).serial(),
            final(self).dma_1() == old(self).dma_1(),
            final(self).dma_2() == old(self).dma_2(),
            final(self).dma_3() == old(self).dma_3(),
            final(self).keypad() == old(self).keypad(),
            final(self).game_pak() == old(self).game_pak(),
    {
        let old_value = self.value;
        self.value = set_bits(self.value as u32, 8, 1, value as u32) as u16;
        proof {
            lemma_bits_of_with_bits(old_value as u32, 8, 1, value as u32);
            if value < 2 {
                lemma_fits_mask(value as u32, 1);
            }
            lemma_bits_of_with_other_bits(old_value as u32, 8, 1, value as u32, 0, 1);
            lemma_bits_of_with_other_bits(old_value as u32, 8, 1, value as u32, 1, 1);
            lemma_bits_of_with_other_bits(old_value as u32, 8, 1, value as u32, 2, 1);
            lemma_bits_of_with_other_bits(old_value as u32, 8, 1, value as u32, 3, 1);
            lemma_bits_of_with_other_bits(old_value as u32, 8, 1, value as u32, 4, 1);
            lemma_bits_of_with_other_bits(old_value as u32, 8, 1, value as u32, 5, 1);
            lemma_bits_of_with_other_bits(old_value as u32, 8, 1, value as u32, 6, 1);
            lemma_bits_of_with_other_bits(old_value as u32, 8, 1, value as u32, 7, 1);
            lemma_bits_of_with_other_bits(old_value as u32, 8, 1, value as u32, 9, 1);
            lemma_bits_of_with_other_bits(old_value as u32, 8, 1, value as u32, 10, 1);
            lemma_bits_of_with_other_bits(old_value as u32, 8, 1, value as u32, 11, 1);
            lemma_bits_of_with_other_bits(old_value as u32, 8, 1, value as u32, 12, 1);
            lemma_bits_of_with_other_bits(old_value as u32, 8, 1, value as u32, 13, 1);
        }
    }

    /// Bits 9..9.
    pub open spec fn dma_1(self) -> u8 {
        bits(self.value as u32, 9, 1) as u8
    }

    /// Reads bits 9..9.
    pub fn get_dma_1(&self) -> (r: u8)
        ensures
            r == self.dma_1(),
            r < 2,
    {
        get_bits(self.value as u32, 9, 1) as u8
    }

    /// Writes bits 9..9 from the low bits of `value`; every other field keeps its value.
    pub fn set_dma_1(&mut self, value: u8)
        ensures
            final(self).value == with_bits(old(self).value as u32, 9, 1, value as u32) as u16,
            value < 2 ==> final(self).dma_1() == value,
            final(self).lcd_v_blank() == old(self).lcd_v_blank(),
            final(self).lcd_h_blank() == old(self).lcd_h_blank(),
            final(self).lcd_v_counter() == old(self).lcd_v_counter(),
            final(self).timer_0() == old(self).timer_0(),
            final(self).timer_1() == old(self).timer_1(),
            final(self).timer_2() == old(self).timer_2(),
            final(self).timer_3() == old(self).timer_3(),
            final(self).serial() == old(self).serial(),
            final(self).dma_0() == old(self).dma_0(),
            final(self).dma_2() == old(self).dma_2(),
            final(self).dma_3() == old(self).dma_3(),
            final(self).keypad() == old(self).keypad(),
            final(self).game_pak() == old(self).game_pak(),
    {
        let old_value = self.value;
        self.value = set_bits(self.value as u32, 9, 1, value as u32) as u16;
        proof {
            lemma_bits_of_with_bits(old_value as u32, 9, 1, value as u32);
            if value < 2 {
                lemma_fits_mask(value as u32, 1);
            }
            lemma_bits_of_with_other_bits(old_value as u32, 9, 1, value as u32, 0, 1);
            lemma_bits_of_with_other_bits(old_value as u32, 9, 1, value as u32, 1, 1);
            lemma_bits_of_with_other_bits(old_value as u32, 9, 1, value as u32, 2, 1);
            lemma_bits_of_with_other_bits(old_value as u32, 9, 1, value as u32, 3, 1);
            lemma_bits_of_with_other_bits(old_value as u32, 9, 1, value as u32, 4, 1);
            lemma_bits_of_with_other_bits(old_value as u32, 9, 1, value as u32, 5, 1);
            lemma_bits_of_with_other_bits(old_value as u32, 9, 1, value as u32, 6, 1);
            lemma_bits_of_with_other_bits(old_value as u32, 9, 1, value as u32, 7, 1);
            lemma_bits_of_with_other_bits(old_value as u32, 9, 1, value as u32, 8, 1);
            lemma_bits_of_with_other_bits(old_value as u32, 9, 1, value as u32, 10, 1);
            lemma_bits_of_with_other_bits(old_value as u32, 9, 1, value as u32, 11, 1);
            lemma_bits_of_with_other_bits(old_value as u32, 9, 1, value as u32, 12, 1);
            lemma_bits_of_with_other_bits(old_value as u32, 9, 1, value as u32, 13, 1);
        }
    }

    /// Bits 10..10.
    pub open spec fn dma_2(self) -> u8 {
        bits(self.value as u32, 10, 1) as u8
    }

    /// Reads bits 10..10.
    pub fn get_dma_2(&self) -> (r: u8)
        ensures
            r == self.dma_2(),
            r < 2,
    {
        get_bits(self.value as u32, 10, 1) as u8
    }

    /// Writes bits 10..10 from the low bits of `value`; every other field keeps its value.
    pub fn set_dma_2(&mut self, value: u8)
        ensures
            final(self).value == with_bits(old(self).value as u32, 10, 1, value as u32) as u16,
            value < 2 ==> final(self).dma_2() == value,
            final(self).lcd_v_blank() == old(self).lcd_v_blank(),
            final(self).lcd_h_blank() == old(self).lcd_h_blank(),
            final(self).lcd_v_counter() == old(self).lcd_v_counter(),
            final(self).timer_0() == old(self).timer_0(),
            final(self).timer_1() == old(self).timer_1(),
            final(self).timer_2() == old(self).timer_2(),
            final(self).timer_3() == old(self).timer_3(),
            final(self).serial() == old(self).serial(),
            final(self).dma_0() == old(self).dma_0(),
            final(self).dma_1() == old(self).dma_1(),
            final(self).dma_3() == old(self).dma_3(),
            final(self).keypad() == old(self).keypad(),
            final(self).game_pak() == old(self).game_pak(),
    {
        let old_value = self.value;
        self.value = set_bits(self.value as u32, 10, 1, value as u32) as u16;
        proof {
            lemma_bits_of_with_bits(old_value as u32, 10, 1, value as u32);
            if value < 2 {
                lemma_fits_mask(value as u32, 1);
            }
            lemma_bits_of_with_other_bits(old_value as u32, 10, 1, value as u32, 0, 1);
            lemma_bits_of_with_other_bits(old_value as u32, 10, 1, value as u32, 1, 1);
            lemma_bits_of_with_other_bits(old_value as u32, 10, 1, value as u32, 2, 1);
            lemma_bits_of_with_other_bits(old_value as u32, 10, 1, value as u32, 3, 1);
            lemma_bits_of_with_other_bits(old_value as u32, 10, 1, value as u32, 4, 1);
            lemma_bits_of_with_other_bits(old_value as u32, 10, 1, value as u32, 5, 1);
            lemma_bits_of_with_other_bits(old_value as u32, 10, 1, value as u32, 6, 1);
            lemma_bits_of_with_other_bits(old_value as u32, 10, 1, value as u32, 7, 1);
            lemma_bits_of_with_other_bits(old_value as u32, 10, 1, value as u32, 8, 1);
            lemma_bits_of_with_other_bits(old_value as u32, 10, 1, value as u32, 9, 1);
            lemma_bits_of_with_other_bits(old_value as u32, 10, 1, value as u32, 11, 1);
            lemma_bits_of_with_other_bits(old_value as u32, 10, 1, value as u32, 12, 1);
            lemma_bits_of_with_other_bits(old_value as u32, 10, 1, value as u32, 13, 1);
        }
    }

    /// Bits 11..11.
    pub open spec fn dma_3(self) -> u8 {
        bits(self.value as u32, 11, 1) as u8
    }

    /// Reads bits 11..11.
    pub fn get_dma_3(&self) -> (r: u8)
        ensures
            r == self.dma_3(),
            r < 2,
    {
        get_bits(self.value as u32, 11, 1) as u8
    }

    /// Writes bits 11..11 from the low bits of `value`; every other field keeps its value.
    pub fn set_dma_3(&mut self, value: u8)
        ensures
            final(self).value == with_bits(old(self).value as u32, 11, 1, value as u32) as u16,
            value < 2 ==> final(self).dma_3() == value,
            final(self).lcd_v_blank() == old(self).lcd_v_blank(),
            final(self).lcd_h_blank() == old(self).lcd_h_blank(),
            final(self).lcd_v_counter() == old(self).lcd_v_counter(),
            final(self).timer_0() == old(self).timer_0(),
            final(self).timer_1() == old(self).timer_1(),
            final(self).timer_2() == old(self).timer_2(),
            final(self).timer_3() == old(self).timer_3(),
            final(self).serial() == old(self).serial(),
            final(self).dma_0() == old(self).dma_0(),
            final(self).dma_1() == old(self).dma_1(),
            final(self).dma_2() == old(self).dma_2(),
            final(self).keypad() == old(self).keypad(),
            final(self).game_pak() == old(self).game_pak(),
    {
        let old_value = self.value;
        self.value = set_bits(self.value as u32, 11, 1, value as u32) as u16;
        proof {
            lemma_bits_of_with_bits(old_value as u32, 11, 1, value as u32);
            if value < 2 {
                lemma_fits_mask(value as u32, 1);
            }
            lemma_bits_of_with_other_bits(old_value as u32, 11, 1, value as u32, 0, 1);
            lemma_bits_of_with_other_bits(old_value as u32, 11, 1, value as u32, 1, 1);
            lemma_bits_of_with_other_bits(old_value as u32, 11, 1, value as u32, 2, 1);
            lemma_bits_of_with_other_bits(old_value as u32, 11, 1, value as u32, 3, 1);
            lemma_bits_of_with_other_bits(old_value as u32, 11, 1, value as u32, 4, 1);
            lemma_bits_of_with_other_bits(old_value as u32, 11, 1, value as u32, 5, 1);
            lemma_bits_of_with_other_bits(old_value as u32, 11, 1, value as u32, 6, 1);
            lemma_bits_of_with_other_bits(old_value as u32, 11, 1, value as u32, 7, 1);
            lemma_bits_of_with_other_bits(old_value as u32, 11, 1, value as u32, 8, 1);
            lemma_bits_of_with_other_bits(old_value as u32, 11, 1, value as u32, 9, 1);
            lemma_bits_of_with_other_bits(old_value as u32, 11, 1, value as u32, 10, 1);
            lemma_bits_of_with_other_bits(old_value as u32, 11, 1, value as u32, 12, 1);
            lemma_bits_of_with_other_bits(old_value as u32, 11, 1, value as u32, 13, 1);
        }
    }

    /// Bits 12..12.
    pub open spec fn keypad(self) -> u8 {
        bits(self.value as u32, 12, 1) as u8
    }

    /// Reads bits 12..12.
    pub fn get_keypad(&self) -> (r: u8)
        ensures
            r == self.keypad(),
            r < 2,
    {
        get_bits(self.value as u32, 12, 1) as u8
    }

    /// Writes bits 12..12 from the low bits of `value`; every other field keeps its value.
    pub fn set_keypad(&mut self, value: u8)
        ensures
            final(self).value == with_bits(old(self).value as u32, 12, 1, value as u32) as u16,
            value < 2 ==> final(self).keypad() == value,
            final(self).lcd_v_blank() == old(self).lcd_v_blank(),
            final(self).lcd_h_blank() == old(self).lcd_h_blank(),
            final(self).lcd_v_counter() == old(self).lcd_v_counter(),
            final(self).timer_0() == old(self).timer_0(),
            final(self).timer_1() == old(self).timer_1(),
            final(self).timer_2() == old(self).timer_2(),
            final(self).timer_3() == old(self).timer_3(),
            final(self).serial() == old(self).serial(),
            final(self).dma_0() == old(self).dma_0(),
            final(self).dma_1() == old(self).dma_1(),
            final(self).dma_2() == old(self).dma_2(),
            final(self).dma_3() == old(self).dma_3(),
            final(self).game_pak() == old(self).game_pak(),
    {
        let old_value = self.value;
        self.value = set_bits(self.value as u32, 12, 1, value as u32) as u16;
        proof {
            lemma_bits_of_with_bits(old_value as u32, 12, 1, value as u32);
            if value < 2 {
                lemma_fits_mask(value as u32, 1);
            }
            lemma_bits_of_with_other_bits(old_value as u32, 12, 1, value as u32, 0, 1);
            lemma_bits_of_with_other_bits(old_value as u32, 12, 1, value as u32, 1, 1);
            lemma_bits_of_with_other_bits(old_value as u32, 12, 1, value as u32, 2, 1);
            lemma_bits_of_with_other_bits(old_value as u32, 12, 1, value as u32, 3, 1);
            lemma_bits_of_with_other_bits(old_value as u32, 12, 1, value as u32, 4, 1);
            lemma_bits_of_with_other_bits(old_value as u32, 12, 1, value as u32, 5, 1);
            lemma_bits_of_with_other_bits(old_value as u32, 12, 1, value as u32, 6, 1);
            lemma_bits_of_with_other_bits(old_value as u32, 12, 1, value as u32, 7, 1);
            lemma_bits_of_with_other_bits(old_value as u32, 12, 1, value as u32, 8, 1);
            lemma_bits_of_with_other_bits(old_value as u32, 12, 1, value as u32, 9, 1);
            lemma_bits_of_with_other_bits(old_value as u32, 12, 1, value as u32, 10, 1);
            lemma_bits_of_with_other_bits(old_value as u32, 12, 1, value as u32, 11, 1);
            lemma_bits_of_with_other_bits(old_value as u32, 12, 1, value as u32, 13, 1);
        }
    }

    /// Bits 13..13.
    pub open spec fn game_pak(self) -> u8 {
        bits(self.value as u32, 13, 1) as u8
    }

    /// Reads bits 13..13.
    pub fn get_game_pak(&self) -> (r: u8)
        ensures
            r == self.game_pak(),
            r < 2,
    {
        get_bits(self.value as u32, 13, 1) as u8
    }

    /// Writes bits 13..13 from the low bits of `value`; every other field keeps its value.
    pub fn set_game_pak(&mut self, value: u8)
        ensures
            final(self).value == with_bits(old(self).value as u32, 13, 1, value as u32) as u16,
            value < 2 ==> final(self).game_pak() == value,
            final(self).lcd_v_blank() == old(self).lcd_v_blank(),
            final(self).lcd_h_blank() == old(self).lcd_h_blank(),
            final(self).lcd_v_counter() == old(self).lcd_v_counter(),
            final(self).timer_0() == old(self).timer_0(),
            final(self).timer_1() == old(self).timer_1(),
            final(self).timer_2() == old(self).timer_2(),
            final(self).timer_3() == old(self).timer_3(),
            final(self).serial() == old(self).serial(),
            final(self).dma_0() == old(self).dma_0(),
            final(self).dma_1() == old(self).dma_1(),
            final(self).dma_2() == old(self).dma_2(),
            final(self).dma_3() == old(self).dma_3(),
            final(self).keypad() == old(self).keypad(),
    {
        let old_value = self.value;
        self.value = set_bits(self.value as u32, 13, 1, value as u32) as u16;
        proof {
            lemma_bits_of_with_bits(old_value as u32, 13, 1, value as u32);
            if value < 2 {
                lemma_fits_mask(value as u32, 1);
            }
            lemma_bits_of_with_other_bits(old_value as u32, 13, 1, value as u32, 0, 1);
            lemma_bits_of_with_other_bits(old_value as u32, 13, 1, value as u32, 1, 1);
            lemma_bits_of_with_other_bits(old_value as u32, 13, 1, value as u32, 2, 1);
            lemma_bits_of_with_other_bits(old_value as u32, 13, 1, value as u32, 3, 1);
            lemma_bits_of_with_other_bits(old_value as u32, 13, 1, value as u32, 4, 1);
            lemma_bits_of_with_other_bits(old_value as u32, 13, 1, value as u32, 5, 1);
            lemma_bits_of_with_other_bits(old_value as u32, 13, 1, value as u32, 6, 1);
            lemma_bits_of_with_other_bits(old_value as u32, 13, 1, value as u32, 7, 1);
            lemma_bits_of_with_other_bits(old_value as u32, 13, 1, value as u32, 8, 1);
            lemma_bits_of_with_other_bits(old_value as u32, 13, 1, value as u32, 9, 1);
            lemma_bits_of_with_other_bits(old_value as u32, 13, 1, value as u32, 10, 1);
            lemma_bits_of_with_other_bits(old_value as u32, 13, 1, value as u32, 11, 1);
            lemma_bits_of_with_other_bits(old_value as u32, 13, 1, value as u32, 12, 1);
        }
    }
}

/// The interrupt sources that have raised an interrupt (IF).
#[derive(Clone, Copy, Debug, PartialEq, Eq, Structural)]
pub struct InterruptRequestFlags {
    pub value: u16,
}

impl InterruptRequestFlags {
    /// A register holding zero.
    pub fn new() -> (r: InterruptRequestFlags)
        ensures
            r.value == 0,
    {
        InterruptRequestFlags { value: 0 }
    }

    /// The whole register.
    pub fn get_register(&self) -> (r: u16)
        ensures
            r == self.value,
    {
        self.value
    }

    /// Writes the whole register from the low bits of `value`.
    pub fn set_register(&mut self, value: u32)
        ensures
            final(self).value == value as u16,
    {
        self.value = value as u16;
    }

    /// Bits 0..0.
    pub open spec fn lcd_v_blank(self) -> u8 {
        bits(self.value as u32, 0, 1) as u8
    }

    /// Reads bits 0..0.
    pub fn get_lcd_v_blank(&self) -> (r: u8)
        ensures
            r == self.lcd_v_blank(),
            r < 2,
    {
        get_bits(self.value as u32, 0, 1) as u8
    }

    /// Writes bits 0..0 from the low bits of `value`; every other field keeps its value.
    pub fn set_lcd_v_blank(&mut self, value: u8)
        ensures
            final(self).value == with_bits(old(self).value as u32, 0, 1, value as u32) as u16,
            value < 2 ==> final(self).lcd_v_blank() == value,
            final(self).lcd_h_blank() == old(self).lcd_h_blank(),
            final(self).lcd_v_counter() == old(self).lcd_v_counter(),
            final(self).timer_0() == old(self).timer_0(),
            final(self).timer_1() == old(self).timer_1(),
            final(self).timer_2() == old(self).timer_2(),
            final(self).timer_3() == old(self).timer_3(),
            final(self).serial() == old(self).serial(),
            final(self).dma_0() == old(self).dma_0(),
            final(self).dma_1() == old(self).dma_1(),
            final(self).dma_2() == old(self).dma_2(),
            final(self).dma_3() == old(self).dma_3(),
            final(self).keypad() == old(self).keypad(),
            final(self).game_pak() == old(self).game_pak(),
    {
        let old_value = self.value;
        self.value = set_bits(self.value as u32, 0, 1, value as u32) as u16;
        proof {
            lemma_bits_of_with_bits(old_value as u32, 0, 1, value as u32);
            if value < 2 {
                lemma_fits_mask(value as u32, 1);
            }
            lemma_bits_of_with_other_bits(old_value as u32, 0, 1, value as u32, 1, 1);
            lemma_bits_of_with_other_bits(old_value as u32, 0, 1, value as u32, 2, 1);
            lemma_bits_of_with_other_bits(old_value as u32, 0, 1, value as u32, 3, 1);
            lemma_bits_of_with_other_bits(old_value as u32, 0, 1, value as u32, 4, 1);
            lemma_bits_of_with_other_bits(old_value as u32, 0, 1, value as u32, 5, 1);
            lemma_bits_of_with_other_bits(old_value as u32, 0, 1, value as u32, 6, 1);
            lemma_bits_of_with_other_bits(old_value as u32, 0, 1, value as u32, 7, 1);
            lemma_bits_of_with_other_bits(old_value as u32, 0, 1, value as u32, 8, 1);
            lemma_bits_of_with_other_bits(old_value as u32, 0, 1, value as u32, 9, 1);
            lemma_bits_of_with_other_bits(old_value as u32, 0, 1, value as u32, 10, 1);
            lemma_bits_of_with_other_bits(old_value as u32, 0, 1, value as u32, 11, 1);
            lemma_bits_of_with_other_bits(old_value as u32, 0, 1, value as u32, 12, 1);
            lemma_bits_of_with_other_bits(old_value as u32, 0, 1, value as u32, 13, 1);
        }
    }

    /// Bits 1..1.
    pub open spec fn lcd_h_blank(self) -> u8 {
        bits(self.value as u32, 1, 1) as u8
    }

    /// Reads bits 1..1.
    pub fn get_lcd_h_blank(&self) -> (r: u8)
        ensures
            r == self.lcd_h_blank(),
            r < 2,
    {
        get_bits(self.value as u32, 1, 1) as u8
    }

    /// Writes bits 1..1 from the low bits of `value`; every other field keeps its value.
    pub fn set_lcd_h_blank(&mut self, value: u8)
        ensures
            final(self).value == with_bits(old(self).value as u32, 1, 1, value as u32) as u16,
            value < 2 ==> final(self).lcd_h_blank() == value,
            final(self).lcd_v_blank() == old(self).lcd_v_blank(),
            final(self).lcd_v_counter() == old(self).lcd_v_counter(),
            final(self).timer_0() == old(self).timer_0(),
            final(self).timer_1() == old(self).timer_1(),
            final(self).timer_2() == old(self).timer_2(),
            final(self).timer_3() == old(self).timer_3(),
            final(self).serial() == old(self).serial(),
            final(self).dma_0() == old(self).dma_0(),
            final(self).dma_1() == old(self).dma_1(),
            final(self).dma_2() == old(self).dma_2(),
            final(self).dma_3() == old(self).dma_3(),
            final(self).keypad() == old(self).keypad(),
            final(self).game_pak() == old(self).game_pak(),
    {
        let old_value = self.value;
        self.value = set_bits(self.value as u32, 1, 1, value as u32) as u16;
        proof {
            lemma_bits_of_with_bits(old_value as u32, 1, 1, value as u32);
            if value < 2 {
                lemma_fits_mask(value as u32, 1);
            }
            lemma_bits_of_with_other_bits(old_value as u32, 1, 1, value as u32, 0, 1);
            lemma_bits_of_with_other_bits(old_value as u32, 1, 1, value as u32, 2, 1);
            lemma_bits_of_with_other_bits(old_value as u32, 1, 1, value as u32, 3, 1);
            lemma_bits_of_with_other_bits(old_value as u32, 1, 1, value as u32, 4, 1);
            lemma_bits_of_with_other_bits(old_value as u32, 1, 1, value as u32, 5, 1);
            lemma_bits_of_with_other_bits(old_value as u32, 1, 1, value as u32, 6, 1);
            lemma_bits_of_with_other_bits(old_value as u32, 1, 1, value as u32, 7, 1);
            lemma_bits_of_with_other_bits(old_value as u32, 1, 1, value as u32, 8, 1);
            lemma_bits_of_with_other_bits(old_value as u32, 1, 1, value as u32, 9, 1);
            lemma_bits_of_with_other_bits(old_value as u32, 1, 1, value as u32, 10, 1);
            lemma_bits_of_with_other_bits(old_value as u32, 1, 1, value as u32, 11, 1);
            lemma_bits_of_with_other_bits(old_value as u32, 1, 1, value as u32, 12, 1);
            lemma_bits_of_with_other_bits(old_value as u32, 1, 1, value as u32, 13, 1);
        }
    }

    /// Bits 2..2.
    pub open spec fn lcd_v_counter(self) -> u8 {
        bits(self.value as u32, 2, 1) as u8
    }

    /// Reads bits 2..2.
    pub fn get_lcd_v_counter(&self) -> (r: u8)
        ensures
            r == self.lcd_v_counter(),
            r < 2,
    {
        get_bits(self.value as u32, 2, 1) as u8
    }

    /// Writes bits 2..2 from the low bits of `value`; every other field keeps its value.
    pub fn set_lcd_v_counter(&mut self, value: u8)
        ensures
            final(self).value == with_bits(old(self).value as u32, 2, 1, value as u32) as u16,
            value < 2 ==> final(self).lcd_v_counter() == value,
            final(self).lcd_v_blank() == old(self).lcd_v_blank(),
            final(self).lcd_h_blank() == old(self).lcd_h_blank(),
            final(self).timer_0() == old(self).timer_0(),
            final(self).timer_1() == old(self).timer_1(),
            final(self).timer_2() == old(self).timer_2(),
            final(self).timer_3() == old(self).timer_3(),
            final(self).serial() == old(self).serial(),
            final(self).dma_0() == old(self).dma_0(),
            final(self).dma_1() == old(self).dma_1(),
            final(self).dma_2() == old(self).dma_2(),
            final(self).dma_3() == old(self).dma_3(),
            final(self).keypad() == old(self).keypad(),
            final(self).game_pak() == old(self).game_pak(),
    {
        let old_value = self.value;
        self.value = set_bits(self.value as u32, 2, 1, value as u32) as u16;
        proof {
            lemma_bits_of_with_bits(old_value as u32, 2, 1, value as u32);
            if value < 2 {
                lemma_fits_mask(value as u32, 1);
            }
            lemma_bits_of_with_other_bits(old_value as u32, 2, 1, value as u32, 0, 1);
            lemma_bits_of_with_other_bits(old_value as u32, 2, 1, value as u32, 1, 1);
            lemma_bits_of_with_other_bits(old_value as u32, 2, 1, value as u32, 3, 1);
            lemma_bits_of_with_other_bits(old_value as u32, 2, 1, value as u32, 4, 1);
            lemma_bits_of_with_other_bits(old_value as u32, 2, 1, value as u32, 5, 1);
            lemma_bits_of_with_other_bits(old_value as u32, 2, 1, value as u32, 6, 1);
            lemma_bits_of_with_other_bits(old_value as u32, 2, 1, value as u32, 7, 1);
            lemma_bits_of_with_other_bits(old_value as u32, 2, 1, value as u32, 8, 1);
            lemma_bits_of_with_other_bits(old_value as u32, 2, 1, value as u32, 9, 1);
            lemma_bits_of_with_other_bits(old_value as u32, 2, 1, value as u32, 10, 1);
            lemma_bits_of_with_other_bits(old_value as u32, 2, 1, value as u32, 11, 1);
            lemma_bits_of_with_other_bits(old_value as u32, 2, 1, value as u32, 12, 1);
            lemma_bits_of_with_other_bits(old_value as u32, 2, 1, value as u32, 13, 1);
        }
    }

    /// Bits 3..3.
    pub open spec fn timer_0(self) -> u8 {
        bits(self.value as u32, 3, 1) as u8
    }

    /// Reads bits 3..3.
    pub fn get_timer_0(&self) -> (r: u8)
        ensures
            r == self.timer_0(),
            r < 2,
    {
        get_bits(self.value as u32, 3, 1) as u8
    }

    /// Writes bits 3..3 from the low bits of `value`; every other field keeps its value.
    pub fn set_timer_0(&mut self, value: u8)
        ensures
            final(self).value == with_bits(old(self).value as u32, 3, 1, value as u32) as u16,
            value < 2 ==> final(self).timer_0() == value,
            final(self).lcd_v_blank() == old(self).lcd_v_blank(),
            final(self).lcd_h_blank() == old(self).lcd_h_blank(),
            final(self).lcd_v_counter() == old(self).lcd_v_counter(),
            final(self).timer_1() == old(self).timer_1(),
            final(self).timer_2() == old(self).timer_2(),
            final(self).timer_3() == old(self).timer_3(),
            final(self).serial() == old(self).serial(),
            final(self).dma_0() == old(self).dma_0(),
            final(self).dma_1() == old(self).dma_1(),
            final(self).dma_2() == old(self).dma_2(),
            final(self).dma_3() == old(self).dma_3(),
            final(self).keypad() == old(self).keypad(),
            final(self).game_pak() == old(self).game_pak(),
    {
        let old_value = self.value;
        self.value = set_bits(self.value as u32, 3, 1, value as u32) as u16;
        proof {
            lemma_bits_of_with_bits(old_value as u32, 3, 1, value as u32);
            if value < 2 {
                lemma_fits_mask(value as u32, 1);
            }
            lemma_bits_of_with_other_bits(old_value as u32, 3, 1, value as u32, 0, 1);
            lemma_bits_of_with_other_bits(old_value as u32, 3, 1, value as u32, 1, 1);
            lemma_bits_of_with_other_bits(old_value as u32, 3, 1, value as u32, 2, 1);
            lemma_bits_of_with_other_bits(old_value as u32, 3, 1, value as u32, 4, 1);
            lemma_bits_of_with_other_bits(old_value as u32, 3, 1, value as u32, 5, 1);
            lemma_bits_of_with_other_bits(old_value as u32, 3, 1, value as u32, 6, 1);
            lemma_bits_of_with_other_bits(old_value as u32, 3, 1, value as u32, 7, 1);
            lemma_bits_of_with_other_bits(old_value as u32, 3, 1, value as u32, 8, 1);
            lemma_bits_of_with_other_bits(old_value as u32, 3, 1, value as u32, 9, 1);
            lemma_bits_of_with_other_bits(old_value as u32, 3, 1, value as u32, 10, 1);
            lemma_bits_of_with_other_bits(old_value as u32, 3, 1, value as u32, 11, 1);
            lemma_bits_of_with_other_bits(old_value as u32, 3, 1, value as u32, 12, 1);
            lemma_bits_of_with_other_bits(old_value as u32, 3, 1, value as u32, 13, 1);
        }
    }

    /// Bits 4..4.
    pub open spec fn timer_1(self) -> u8 {
        bits(self.value as u32, 4, 1) as u8
    }

    /// Reads bits 4..4.
    pub fn get_timer_1(&self) -> (r: u8)
        ensures
            r == self.timer_1(),
            r < 2,
    {
        get_bits(self.value as u32, 4, 1) as u8
    }

    /// Writes bits 4..4 from the low bits of `value`; every other field keeps its value.
    pub fn set_timer_1(&mut self, value: u8)
        ensures
            final(self).value == with_bits(old(self).value as u32, 4, 1, value as u32) as u16,
            value < 2 ==> final(self).timer_1() == value,
            final(self).lcd_v_blank() == old(self).lcd_v_blank(),
            final(self).lcd_h_blank() == old(self).lcd_h_blank(),
            final(self).lcd_v_counter() == old(self).lcd_v_counter(),
            final(self).timer_0() == old(self).timer_0(),
            final(self).timer_2() == old(self).timer_2(),
            final(self).timer_3() == old(self).timer_3(),
            final(self).serial() == old(self).serial(),
            final(self).dma_0() == old(self).dma_0(),
            final(self).dma_1() == old(self).dma_1(),
            final(self).dma_2() == old(self).dma_2(),
            final(self).dma_3() == old(self).dma_3(),
            final(self).keypad() == old(self).keypad(),
            final(self).game_pak() == old(self).game_pak(),
    {
        let old_value = self.value;
        self.value = set_bits(self.value as u32, 4, 1, value as u32) as u16;
        proof {
            lemma_bits_of_with_bits(old_value as u32, 4, 1, value as u32);
            if value < 2 {
                lemma_fits_mask(value as u32, 1);
            }
            lemma_bits_of_with_other_bits(old_value as u32, 4, 1, value as u32, 0, 1);
            lemma_bits_of_with_other_bits(old_value as u32, 4, 1, value as u32, 1, 1);
            lemma_bits_of_with_other_bits(old_value as u32, 4, 1, value as u32, 2, 1);
            lemma_bits_of_with_other_bits(old_value as u32, 4, 1, value as u32, 3, 1);
            lemma_bits_of_with_other_bits(old_value as u32, 4, 1, value as u32, 5, 1);
            lemma_bits_of_with_other_bits(old_value as u32, 4, 1, value as u32, 6, 1);
            lemma_bits_of_with_other_bits(old_value as u32, 4, 1, value as u32, 7, 1);
            lemma_bits_of_with_other_bits(old_value as u32, 4, 1, value as u32, 8, 1);
            lemma_bits_of_with_other_bits(old_value as u32, 4, 1, value as u32, 9, 1);
            lemma_bits_of_with_other_bits(old_value as u32, 4, 1, value as u32, 10, 1);
            lemma_bits_of_with_other_bits(old_value as u32, 4, 1, value as u32, 11, 1);
            lemma_bits_of_with_other_bits(old_value as u32, 4, 1, value as u32, 12, 1);
            lemma_bits_of_with_other_bits(old_value as u32, 4, 1, value as u32, 13, 1);
        }
    }

    /// Bits 5..5.
    pub open spec fn timer_2(self) -> u8 {
        bits(self.value as u32, 5, 1) as u8
    }

    /// Reads bits 5..5.
    pub fn get_timer_2(&self) -> (r: u8)
        ensures
            r == self.timer_2(),
            r < 2,
    {
        get_bits(self.value as u32, 5, 1) as u8
    }

    /// Writes bits 5..5 from the low bits of `value`; every other field keeps its value.
    pub fn set_timer_2(&mut self, value: u8)
        ensures
            final(self).value == with_bits(old(self).value as u32, 5, 1, value as u32) as u16,
            value < 2 ==> final(self).timer_2() == value,
            final(self).lcd_v_blank() == old(self).lcd_v_blank(),
            final(self).lcd_h_blank() == old(self).lcd_h_blank(),
            final(self).lcd_v_counter() == old(self).lcd_v_counter(),
            final(self).timer_0() == old(self).timer_0(),
            final(self).timer_1() == old(self).timer_1(),
            final(self).timer_3() == old(self).timer_3(),
            final(self).serial() == old(self).serial(),
            final(self).dma_0() == old(self).dma_0(),
            final(self).dma_1() == old(self).dma_1(),
            final(self).dma_2() == old(self).dma_2(),
            final(self).dma_3() == old(self).dma_3(),
            final(self).keypad() == old(self).keypad(),
            final(self).game_pak() == old(self).game_pak(),
    {
        let old_value = self.value;
        self.value = set_bits(self.value as u32, 5, 1, value as u32) as u16;
        proof {
            lemma_bits_of_with_bits(old_value as u32, 5, 1, value as u32);
            if value < 2 {
                lemma_fits_mask(value as u32, 1);
            }
            lemma_bits_of_with_other_bits(old_value as u32, 5, 1, value as u32, 0, 1);
            lemma_bits_of_with_other_bits(old_value as u32, 5, 1, value as u32, 1, 1);
            lemma_bits_of_with_other_bits(old_value as u32, 5, 1, value as u32, 2, 1);
            lemma_bits_of_with_other_bits(old_value as u32, 5, 1, value as u32, 3, 1);
            lemma_bits_of_with_other_bits(old_value as u32, 5, 1, value as u32, 4, 1);
            lemma_bits_of_with_other_bits(old_value as u32, 5, 1, value as u32, 6, 1);
            lemma_bits_of_with_other_bits(old_value as u32, 5, 1, value as u32, 7, 1);
            lemma_bits_of_with_other_bits(old_value as u32, 5, 1, value as u32, 8, 1);
            lemma_bits_of_with_other_bits(old_value as u32, 5, 1, value as u32, 9, 1);
            lemma_bits_of_with_other_bits(old_value as u32, 5, 1, value as u32, 10, 1);
            lemma_bits_of_with_other_bits(old_value as u32, 5, 1, value as u32, 11, 1);
            lemma_bits_of_with_other_bits(old_value as u32, 5, 1, value as u32, 12, 1);
            lemma_bits_of_with_other_bits(old_value as u32, 5, 1, value as u32, 13, 1);
        }
    }

    /// Bits 6..6.
    pub open spec fn timer_3(self) -> u8 {
        bits(self.value as u32, 6, 1) as u8
    }

    /// Reads bits 6..6.
    pub fn get_timer_3(&self) -> (r: u8)
        ensures
            r == self.timer_3(),
            r < 2,
    {
        get_bits(self.value as u32, 6, 1) as u8
    }

    /// Writes bits 6..6 from the low bits of `value`; every other field keeps its value.
    pub fn set_timer_3(&mut self, value: u8)
        ensures
            final(self).value == with_bits(old(self).value as u32, 6, 1, value as u32) as u16,
            value < 2 ==> final(self).timer_3() == value,
            final(self).lcd_v_blank() == old(self).lcd_v_blank(),
            final(self).lcd_h_blank() == old(self).lcd_h_blank(),
            final(self).lcd_v_counter() == old(self).lcd_v_counter(),
            final(self).timer_0() == old(self).timer_0(),
            final(self).timer_1() == old(self).timer_1(),
            final(self).timer_2() == old(self).timer_2(),
            final(self).serial() == old(self).serial(),
            final(self).dma_0() == old(self).dma_0(),
            final(self).dma_1() == old(self).dma_1(),
            final(self).dma_2() == old(self).dma_2(),
            final(self).dma_3() == old(self).dma_3(),
            final(self).keypad() == old(self).keypad(),
            final(self).game_pak() == old(self).game_pak(),
    {
        let old_value = self.value;
        self.value = set_bits(self.value as u32, 6, 1, value as u32) as u16;
        proof {
            lemma_bits_of_with_bits(old_value as u32, 6, 1, value as u32);
            if value < 2 {
                lemma_fits_mask(value as u32, 1);
            }
            lemma_bits_of_with_other_bits(old_value as u32, 6, 1, value as u32, 0, 1);
            lemma_bits_of_with_other_bits(old_value as u32, 6, 1, value as u32, 1, 1);
            lemma_bits_of_with_other_bits(old_value as u32, 6, 1, value as u32, 2, 1);
            lemma_bits_of_with_other_bits(old_value as u32, 6, 1, value as u32, 3, 1);
            lemma_bits_of_with_other_bits(old_value as u32, 6, 1, value as u32, 4, 1);
            lemma_bits_of_with_other_bits(old_value as u32, 6, 1, value as u32, 5, 1);
            lemma_bits_of_with_other_bits(old_value as u32, 6, 1, value as u32, 7, 1);
            lemma_bits_of_with_other_bits(old_value as u32, 6, 1, value as u32, 8, 1);
            lemma_bits_of_with_other_bits(old_value as u32, 6, 1, value as u32, 9, 1);
            lemma_bits_of_with_other_bits(old_value as u32, 6, 1, value as u32, 10, 1);
            lemma_bits_of_with_other_bits(old_value as u32, 6, 1, value as u32, 11, 1);
            lemma_bits_of_with_other_bits(old_value as u32, 6, 1, value as u32, 12, 1);
            lemma_bits_of_with_other_bits(old_value as u32, 6, 1, value as u32, 13, 1);
        }
    }

    /// Bits 7..7.
    pub open spec fn serial(self) -> u8 {
        bits(self.value as u32, 7, 1) as u8
    }

    /// Reads bits 7..7.
    pub fn get_serial(&self) -> (r: u8)
        ensures
            r == self.serial(),
            r < 2,
    {
        get_bits(self.value as u32, 7, 1) as u8
    }

    /// Writes bits 7..7 from the low bits of `value`; every other field keeps its value.
    pub fn set_serial(&mut self, value: u8)
        ensures
            final(self).value == with_bits(old(self).value as u32, 7, 1, value as u32) as u16,
            value < 2 ==> final(self).serial() == value,
            final(self).lcd_v_blank() == old(self).lcd_v_blank(),
            final(self).lcd_h_blank() == old(self).lcd_h_blank(),
            final(self).lcd_v_counter() == old(self).lcd_v_counter(),
            final(self).timer_0() == old(self).timer_0(),
            final(self).timer_1() == old(self).timer_1(),
            final(self).timer_2() == old(self).timer_2(),
            final(self).timer_3() == old(self).timer_3(),
            final(self).dma_0() == old(self).dma_0(),
            final(self).dma_1() == old(self).dma_1(),
            final(self).dma_2() == old(self).dma_2(),
            final(self).dma_3() == old(self).dma_3(),
            final(self).keypad() == old(self).keypad(),
            final(self).game_pak() == old(self).game_pak(),
    {
        let old_value = self.value;
        self.value = set_bits(self.value as u32, 7, 1, value as u32) as u16;
        proof {
            lemma_bits_of_with_bits(old_value as u32, 7, 1, value as u32);
            if value < 2 {
                lemma_fits_mask(value as u32, 1);
            }
            lemma_bits_of_with_other_bits(old_value as u32, 7, 1, value as u32, 0, 1);
            lemma_bits_of_with_other_bits(old_value as u32, 7, 1, value as u32, 1, 1);
            lemma_bits_of_with_other_bits(old_value as u32, 7, 1, value as u32, 2, 1);
            lemma_bits_of_with_other_bits(old_value as u32, 7, 1, value as u32, 3, 1);
            lemma_bits_of_with_other_bits(old_value as u32, 7, 1, value as u32, 4, 1);
            lemma_bits_of_with_other_bits(old_value as u32, 7, 1, value as u32, 5, 1);
            lemma_bits_of_with_other_bits(old_value as u32, 7, 1, value as u32, 6, 1);
            lemma_bits_of_with_other_bits(old_value as u32, 7, 1, value as u32, 8, 1);
            lemma_bits_of_with_other_bits(old_value as u32, 7, 1, value as u32, 9, 1);
            lemma_bits_of_with_other_bits(old_value as u32, 7, 1, value as u32, 10, 1);
            lemma_bits_of_with_other_bits(old_value as u32, 7, 1, value as u32, 11, 1);
            lemma_bits_of_with_other_bits(old_value as u32, 7, 1, value as u32, 12, 1);
            lemma_bits_of_with_other_bits(old_value as u32, 7, 1, value as u32, 13, 1);
        }
    }

    /// Bits 8..8.
    pub open spec fn dma_0(self) -> u8 {
        bits(self.value as u32, 8, 1) as u8
    }

    /// Reads bits 8..8.
    pub fn get_dma_0(&self) -> (r: u8)
        ensures
            r == self.dma_0(),
            r < 2,
    {
        get_bits(self.value as u32, 8, 1) as u8
    }

    /// Writes bits 8..8 from the low bits of `value`; every other field keeps its value.
    pub fn set_dma_0(&mut self, value: u8)
        ensures
            final(self).value == with_bits(old(self).value as u32, 8, 1, value as u32) as u16,
            value < 2 ==> final(self).dma_0() == value,
            final(self).lcd_v_blank() == old(self).lcd_v_blank(),
            final(self).lcd_h_blank() == old(self).lcd_h_blank(),
            final(self).lcd_v_counter() == old(self).lcd_v_counter(),
            final(self).timer_0() == old(self).timer_0(),
            final(self).timer_1() == old(self).timer_1(),
            final(self).timer_2() == old(self).timer_2(),
            final(self).timer_3() == old(self).timer_3(),
            final(self).serial() == old(self).serial(),
            final(self).dma_1() == old(self).dma_1(),
            final(self).dma_2() == old(self).dma_2(),
            final(self).dma_3() == old(self).dma_3(),
            final(self).keypad() == old(self).keypad(),
            final(self).game_pak() == old(self).game_pak(),
    {
        let old_value = self.value;
        self.value = set_bits(self.value as u32, 8, 1, value as u32) as u16;
        proof {
            lemma_bits_of_with_bits(old_value as u32, 8, 1, value as u32);
            if value < 2 {
                lemma_fits_mask(value as u32, 1);
            }
            lemma_bits_of_with_other_bits(old_value as u32, 8, 1, value as u32, 0, 1);
            lemma_bits_of_with_other_bits(old_value as u32, 8, 1, value as u32, 1, 1);
            lemma_bits_of_with_other_bits(old_value as u32, 8, 1, value as u32, 2, 1);
            lemma_bits_of_with_other_bits(old_value as u32, 8, 1, value as u32, 3, 1);
            lemma_bits_of_with_other_bits(old_value as u32, 8, 1, value as u32, 4, 1);
            lemma_bits_of_with_other_bits(old_value as u32, 8, 1, value as u32, 5, 1);
            lemma_bits_of_with_other_bits(old_value as u32, 8, 1, value as u32, 6, 1);
            lemma_bits_of_with_other_bits(old_value as u32, 8, 1, value as u32, 7, 1);
            lemma_bits_of_with_other_bits(old_value as u32, 8, 1, value as u32, 9, 1);
            lemma_bits_of_with_other_bits(old_value as u32, 8, 1, value as u32, 10, 1);
            lemma_bits_of_with_other_bits(old_value as u32, 8, 1, value as u32, 11, 1);
            lemma_bits_of_with_other_bits(old_value as u32, 8, 1, value as u32, 12, 1);
            lemma_bits_of_with_other_bits(old_value as u32, 8, 1, value as u32, 13, 1);
        }
    }

    /// Bits 9..9.
    pub open spec fn dma_1(self) -> u8 {
        bits(self.value as u32, 9, 1) as u8
    }

    /// Reads bits 9..9.
    pub fn get_dma_1(&self) -> (r: u8)
        ensures
            r == self.dma_1(),
            r < 2,
    {
        get_bits(self.value as u32, 9, 1) as u8
    }

    /// Writes bits 9..9 from the low bits of `value`; every other field keeps its value.
    pub fn set_dma_1(&mut self, value: u8)
        ensures
            final(self).value == with_bits(old(self).value as u32, 9, 1, value as u32) as u16,
            value < 2 ==> final(self).dma_1() == value,
            final(self).lcd_v_blank() == old(self).lcd_v_blank(),
            final(self).lcd_h_blank() == old(self).lcd_h_blank(),
            final(self).lcd_v_counter() == old(self).lcd_v_counter(),
            final(self).timer_0() == old(self).timer_0(),
            final(self).timer_1() == old(self).timer_1(),
            final(self).timer_2() == old(self).timer_2(),
            final(self).timer_3() == old(self).timer_3(),
            final(self).serial() == old(self).serial(),
            final(self).dma_0() == old(self).dma_0(),
            final(self).dma_2() == old(self).dma_2(),
            final(self).dma_3() == old(self).dma_3(),
            final(self).keypad() == old(self).keypad(),
            final(self).game_pak() == old(self).game_pak(),
    {
        let old_value = self.value;
        self.value = set_bits(self.value as u32, 9, 1, value as u32) as u16;
        proof {
            lemma_bits_of_with_bits(old_value as u32, 9, 1, value as u32);
            if value < 2 {
                lemma_fits_mask(value as u32, 1);
            }
            lemma_bits_of_with_other_bits(old_value as u32, 9, 1, value as u32, 0, 1);
            lemma_bits_of_with_other_bits(old_value as u32, 9, 1, value as u32, 1, 1);
            lemma_bits_of_with_other_bits(old_value as u32, 9, 1, value as u32, 2, 1);
            lemma_bits_of_with_other_bits(old_value as u32, 9, 1, value as u32, 3, 1);
            lemma_bits_of_with_other_bits(old_value as u32, 9, 1, value as u32, 4, 1);
            lemma_bits_of_with_other_bits(old_value as u32, 9, 1, value as u32, 5, 1);
            lemma_bits_of_with_other_bits(old_value as u32, 9, 1, value as u32, 6, 1);
            lemma_bits_of_with_other_bits(old_value as u32, 9, 1, value as u32, 7, 1);
            lemma_bits_of_with_other_bits(old_value as u32, 9, 1, value as u32, 8, 1);
            lemma_bits_of_with_other_bits(old_value as u32, 9, 1, value as u32, 10, 1);
            lemma_bits_of_with_other_bits(old_value as u32, 9, 1, value as u32, 11, 1);
            lemma_bits_of_with_other_bits(old_value as u32, 9, 1, value as u32, 12, 1);
            lemma_bits_of_with_other_bits(old_value as u32, 9, 1, value as u32, 13, 1);
        }
    }

    /// Bits 10..10.
    pub open spec fn dma_2(self) -> u8 {
        bits(self.value as u32, 10, 1) as u8
    }

    /// Reads bits 10..10.
    pub fn get_dma_2(&self) -> (r: u8)
        ensures
            r == self.dma_2(),
            r < 2,
    {
        get_bits(self.value as u32, 10, 1) as u8
    }

    /// Writes bits 10..10 from the low bits of `value`; every other field keeps its value.
    pub fn set_dma_2(&mut self, value: u8)
        ensures
            final(self).value == with_bits(old(self).value as u32, 10, 1, value as u32) as u16,
            value < 2 ==> final(self).dma_2() == value,
            final(self).lcd_v_blank() == old(self).lcd_v_blank(),
            final(self).lcd_h_blank() == old(self).lcd_h_blank(),
            final(self).lcd_v_counter() == old(self).lcd_v_counter(),
            final(self).timer_0() == old(self).timer_0(),
            final(self).timer_1() == old(self).timer_1(),
            final(self).timer_2() == old(self).timer_2(),
            final(self).timer_3() == old(self).timer_3(),
            final(self).serial() == old(self).serial(),
            final(self).dma_0() == old(self).dma_0(),
            final(self).dma_1() == old(self).dma_1(),
            final(self).dma_3() == old(self).dma_3(),
            final(self).keypad() == old(self).keypad(),
            final(self).game_pak() == old(self).game_pak(),
    {
        let old_value = self.value;
        self.value = set_bits(self.value as u32, 10, 1, value as u32) as u16;
        proof {
            lemma_bits_of_with_bits(old_value as u32, 10, 1, value as u32);
            if value < 2 {
                lemma_fits_mask(value as u32, 1);
            }
            lemma_bits_of_with_other_bits(old_value as u32, 10, 1, value as u32, 0, 1);
            lemma_bits_of_with_other_bits(old_value as u32, 10, 1, value as u32, 1, 1);
            lemma_bits_of_with_other_bits(old_value as u32, 10, 1, value as u32, 2, 1);
            lemma_bits_of_with_other_bits(old_value as u32, 10, 1, value as u32, 3, 1);
            lemma_bits_of_with_other_bits(old_value as u32, 10, 1, value as u32, 4, 1);
            lemma_bits_of_with_other_bits(old_value as u32, 10, 1, value as u32, 5, 1);
            lemma_bits_of_with_other_bits(old_value as u32, 10, 1, value as u32, 6, 1);
            lemma_bits_of_with_other_bits(old_value as u32, 10, 1, value as u32, 7, 1);
            lemma_bits_of_with_other_bits(old_value as u32, 10, 1, value as u32, 8, 1);
            lemma_bits_of_with_other_bits(old_value as u32, 10, 1, value as u32, 9, 1);
            lemma_bits_of_with_other_bits(old_value as u32, 10, 1, value as u32, 11, 1);
            lemma_bits_of_with_other_bits(old_value as u32, 10, 1, value as u32, 12, 1);
            lemma_bits_of_with_other_bits(old_value as u32, 10, 1, value as u32, 13, 1);
        }
    }

    /// Bits 11..11.
    pub open spec fn dma_3(self) -> u8 {
        bits(self.value as u32, 11, 1) as u8
    }

    /// Reads bits 11..11.
    pub fn get_dma_3(&self) -> (r: u8)
        ensures
            r == self.dma_3(),
            r < 2,
    {
        get_bits(self.value as u32, 11, 1) as u8
    }

    /// Writes bits 11..11 from the low bits of `value`; every other field keeps its value.
    pub fn set_dma_3(&mut self, value: u8)
        ensures
            final(self).value == with_bits(old(self).value as u32, 11, 1, value as u32) as u16,
            value < 2 ==> final(self).dma_3() == value,
            final(self).lcd_v_blank() == old(self).lcd_v_blank(),
            final(self).lcd_h_blank() == old(self).lcd_h_blank(),
            final(self).lcd_v_counter() == old(self).lcd_v_counter(),
            final(self).timer_0() == old(self).timer_0(),
            final(self).timer_1() == old(self).timer_1(),
            final(self).timer_2() == old(self).timer_2(),
            final(self).timer_3() == old(self).timer_3(),
            final(self).serial() == old(self).serial(),
            final(self).dma_0() == old(self).dma_0(),
            final(self).dma_1() == old(self).dma_1(),
            final(self).dma_2() == old(self).dma_2(),
            final(self).keypad() == old(self).keypad(),
            final(self).game_pak() == old(self).game_pak(),
    {
        let old_value = self.value;
        self.value = set_bits(self.value as u32, 11, 1, value as u32) as u16;
        proof {
            lemma_bits_of_with_bits(old_value as u32, 11, 1, value as u32);
            if value < 2 {
                lemma_fits_mask(value as u32, 1);
            }
            lemma_bits_of_with_other_bits(old_value as u32, 11, 1, value as u32, 0, 1);
            lemma_bits_of_with_other_bits(old_value as u32, 11, 1, value as u32, 1, 1);
            lemma_bits_of_with_other_bits(old_value as u32, 11, 1, value as u32, 2, 1);
            lemma_bits_of_with_other_bits(old_value as u32, 11, 1, value as u32, 3, 1);
            lemma_bits_of_with_other_bits(old_value as u32, 11, 1, value as u32, 4, 1);
            lemma_bits_of_with_other_bits(old_value as u32, 11, 1, value as u32, 5, 1);
            lemma_bits_of_with_other_bits(old_value as u32, 11, 1, value as u32, 6, 1);
            lemma_bits_of_with_other_bits(old_value as u32, 11, 1, value as u32, 7, 1);
            lemma_bits_of_with_other_bits(old_value as u32, 11, 1, value as u32, 8, 1);
            lemma_bits_of_with_other_bits(old_value as u32, 11, 1, value as u32, 9, 1);
            lemma_bits_of_with_other_bits(old_value as u32, 11, 1, value as u32, 10, 1);
            lemma_bits_of_with_other_bits(old_value as u32, 11, 1, value as u32, 12, 1);
            lemma_bits_of_with_other_bits(old_value as u32, 11, 1, value as u32, 13, 1);
        }
    }

    /// Bits 12..12.
    pub open spec fn keypad(self) -> u8 {
        bits(self.value as u32, 12, 1) as u8
    }

    /// Reads bits 12..12.
    pub fn get_keypad(&self) -> (r: u8)
        ensures
            r == self.keypad(),
            r < 2,
    {
        get_bits(self.value as u32, 12, 1) as u8
    }

    /// Writes bits 12..12 from the low bits of `value`; every other field keeps its value.
    pub fn set_keypad(&mut self, value: u8)
        ensures
            final(self).value == with_bits(old(self).value as u32, 12, 1, value as u32) as u16,
            value < 2 ==> final(self).keypad() == value,
            final(self).lcd_v_blank() == old(self).lcd_v_blank(),
            final(self).lcd_h_blank() == old(self).lcd_h_blank(),
            final(self).lcd_v_counter() == old(self).lcd_v_counter(),
            final(self).timer_0() == old(self).timer_0(),
            final(self).timer_1() == old(self).timer_1(),
            final(self).timer_2() == old(self).timer_2(),
            final(self).timer_3() == old(self).timer_3(),
            final(self).serial() == old(self).serial(),
            final(self).dma_0() == old(self).dma_0(),
            final(self).dma_1() == old(self).dma_1(),
            final(self).dma_2() == old(self).dma_2(),
            final(self).dma_3() == old(self).dma_3(),
            final(self).game_pak() == old(self).game_pak(),
    {
        let old_value = self.value;
        self.value = set_bits(self.value as u32, 12, 1, value as u32) as u16;
        proof {
            lemma_bits_of_with_bits(old_value as u32, 12, 1, value as u32);
            if value < 2 {
                lemma_fits_mask(value as u32, 1);
            }
            lemma_bits_of_with_other_bits(old_value as u32, 12, 1, value as u32, 0, 1);
            lemma_bits_of_with_other_bits(old_value as u32, 12, 1, value as u32, 1, 1);
            lemma_bits_of_with_other_bits(old_value as u32, 12, 1, value as u32, 2, 1);
            lemma_bits_of_with_other_bits(old_value as u32, 12, 1, value as u32, 3, 1);
            lemma_bits_of_with_other_bits(old_value as u32, 12, 1, value as u32, 4, 1);
            lemma_bits_of_with_other_bits(old_value as u32, 12, 1, value as u32, 5, 1);
            lemma_bits_of_with_other_bits(old_value as u32, 12, 1, value as u32, 6, 1);
            lemma_bits_of_with_other_bits(old_value as u32, 12, 1, value as u32, 7, 1);
            lemma_bits_of_with_other_bits(old_value as u32, 12, 1, value as u32, 8, 1);
            lemma_bits_of_with_other_bits(old_value as u32, 12, 1, value as u32, 9, 1);
            lemma_bits_of_with_other_bits(old_value as u32, 12, 1, value as u32, 10, 1);
            lemma_bits_of_with_other_bits(old_value as u32, 12, 1, value as u32, 11, 1);
            lemma_bits_of_with_other_bits(old_value as u32, 12, 1, value as u32, 13, 1);
        }
    }

    /// Bits 13..13.
    pub open spec fn game_pak(self) -> u8 {
        bits(self.value as u32, 13, 1) as u8
    }

    /// Reads bits 13..13.
    pub fn get_game_pak(&self) -> (r: u8)
        ensures
            r == self.game_pak(),
            r < 2,
    {
        get_bits(self.value as u32, 13, 1) as u8
    }

    /// Writes bits 13..13 from the low bits of `value`; every other field keeps its value.
    pub fn set_game_pak(&mut self, value: u8)
        ensures
            final(self).value == with_bits(old(self).value as u32, 13, 1, value as u32) as u16,
            value < 2 ==> final(self).game_pak() == value,
            final(self).lcd_v_blank() == old(self).lcd_v_blank(),
            final(self).lcd_h_blank() == old(self).lcd_h_blank(),
            final(self).lcd_v_counter() == old(self).lcd_v_counter(),
            final(self).timer_0() == old(self).timer_0(),
            final(self).timer_1() == old(self).timer_1(),
            final(self).timer_2() == old(self).timer_2(),
            final(self).timer_3() == old(self).timer_3(),
            final(self).serial() == old(self).serial(),
            final(self).dma_0() == old(self).dma_0(),
            final(self).dma_1() == old(self).dma_1(),
            final(self).dma_2() == old(self).dma_2(),
            final(self).dma_3() == old(self).dma_3(),
            final(self).keypad() == old(self).keypad(),
    {
        let old_value = self.value;
        self.value = set_bits(self.value as u32, 13, 1, value as u32) as u16;
        proof {
            lemma_bits_of_with_bits(old_value as u32, 13, 1, value as u32);
            if value < 2 {
                lemma_fits_mask(value as u32, 1);
            }
            lemma_bits_of_with_other_bits(old_value as u32, 13, 1, value as u32, 0, 1);
            lemma_bits_of_with_other_bits(old_value as u32, 13, 1, value as u32, 1, 1);
            lemma_bits_of_with_other_bits(old_value as u32, 13, 1, value as u32, 2, 1);
            lemma_bits_of_with_other_bits(old_value as u32, 13, 1, value as u32, 3, 1);
            lemma_bits_of_with_other_bits(old_value as u32, 13, 1, value as u32, 4, 1);
            lemma_bits_of_with_other_bits(old_value as u32, 13, 1, value as u32, 5, 1);
            lemma_bits_of_with_other_bits(old_value as u32, 13, 1, value as u32, 6, 1);
            lemma_bits_of_with_other_bits(old_value as u32, 13, 1, value as u32, 7, 1);
            lemma_bits_of_with_other_bits(old_value as u32, 13, 1, value as u32, 8, 1);
            lemma_bits_of_with_other_bits(old_value as u32, 13, 1, value as u32, 9, 1);
            lemma_bits_of_with_other_bits(old_value as u32, 13, 1, value as u32, 10, 1);
            lemma_bits_of_with_other_bits(old_value as u32, 13, 1, value as u32, 11, 1);
            lemma_bits_of_with_other_bits(old_value as u32, 13, 1, value as u32, 12, 1);
        }
    }
}

} // verus!
