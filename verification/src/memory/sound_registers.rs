use vstd::prelude::*;
use crate::bits::{
    bits, get_bits, lemma_bits_of_with_bits, lemma_bits_of_with_other_bits, lemma_fits_mask, set_bits,
    with_bits,
};

verus! {

/// Sweep control of the first square channel (SOUND1CNT_L).
#[derive(Clone, Copy, Debug, PartialEq, Eq, Structural)]
pub struct SoundChannelControlSweep {
    pub value: u16,
}

impl SoundChannelControlSweep {
    /// A register holding zero.
    pub fn new() -> (r: SoundChannelControlSweep)
        ensures
            r.value == 0,
    {
        SoundChannelControlSweep { value: 0 }
    }

    /// The whole register.
    pub fn get_register(&self) -> (r: u16)
        ensures
            r == self.value,
    {
        self.value
    }

    /// Writes the whole register from the low bits of `value`.
    pub fn set_register(&mut self, value: u32)
        ensures
            final(self).value == value as u16,
    {
        self.value = value as u16;
    }

    /// Bits 2..0.
    pub open spec fn number_of_sweep_shift(self) -> u8 {
        bits(self.value as u32, 0, 3) as u8
    }

    /// Reads bits 2..0.
    pub fn get_number_of_sweep_shift(&self) -> (r: u8)
        ensures
            r == self.number_of_sweep_shift(),
            r < 8,
    {
        get_bits(self.value as u32, 0, 3) as u8
    }

    /// Writes bits 2..0 from the low bits of `value`; every other field keeps its value.
    pub fn set_number_of_sweep_shift(&mut self, value: u8)
        ensures
            final(self).value == with_bits(old(self).value as u32, 0, 3, value as u32) as u16,
            value < 8 ==> final(self).number_of_sweep_shift() == value,
            final(self).sweep_frequency_direction() == old(self).sweep_frequency_direction(),
            final(self).sweep_time() == old(self).sweep_time(),
    {
        let old_value = self.value;
        self.value = set_bits(self.value as u32, 0, 3, value as u32) as u16;
        proof {
            lemma_bits_of_with_bits(old_value as u32, 0, 3, value as u32);
            if value < 8 {
                lemma_fits_mask(value as u32, 3);
            }
            lemma_bits_of_with_other_bits(old_value as u32, 0, 3, value as u32, 3, 1);
            lemma_bits_of_with_other_bits(old_value as u32, 0, 3, value as u32, 4, 3);
        }
    }

    /// Bits 3..3.
    pub open spec fn sweep_frequency_direction(self) -> u8 {
        bits(self.value as u32, 3, 1) as u8
    }

    /// Reads bits 3..3.
    pub fn get_sweep_frequency_direction(&self) -> (r: u8)
        ensures
            r == self.sweep_frequency_direction(),
            r < 2,
    {
        get_bits(self.value as u32, 3, 1) as u8
    }

    /// Writes bits 3..3 from the low bits of `value`; every other field keeps its value.
    pub fn set_sweep_frequency_direction(&mut self, value: u8)
        ensures
            final(self).value == with_bits(old(self).value as u32, 3, 1, value as u32) as u16,
            value < 2 ==> final(self).sweep_frequency_direction() == value,
            final(self).number_of_sweep_shift() == old(self).number_of_sweep_shift(),
            final(self).sweep_time() == old(self).sweep_time(),
    {
        let old_value = self.value;
        self.value = set_bits(self.value as u32, 3, 1, value as u32) as u16;
        proof {
            lemma_bits_of_with_bits(old_value as u32, 3, 1, value as u32);
            if value < 2 {
                lemma_fits_mask(value as u32, 1);
            }
            lemma_bits_of_with_other_bits(old_value as u32, 3, 1, value as u32, 0, 3);
            lemma_bits_of_with_other_bits(old_value as u32, 3, 1, value as u32, 4, 3);
        }
    }

    /// Bits 6..4.
    pub open spec fn sweep_time(self) -> u8 {
        bits(self.value as u32, 4, 3) as u8
    }

    /// Reads bits 6..4.
    pub fn get_sweep_time(&self) -> (r: u8)
        ensures
            r == self.sweep_time(),
            r < 8,
    {
        get_bits(self.value as u32, 4, 3) as u8
    }

    /// Writes bits 6..4 from the low bits of `value`; every other field keeps its value.
    pub fn set_sweep_time(&mut self, value: u8)
        ensures
            final(self).value == with_bits(old(self).value as u32, 4, 3, value as u32) as u16,
            value < 8 ==> final(self).sweep_time() == value,
            final(self).number_of_sweep_shift() == old(self).number_of_sweep_shift(),
            final(self).sweep_frequency_direction() == old(self).sweep_frequency_direction(),
    {
        let old_value = self.value;
        self.value = set_bits(self.value as u32, 4, 3, value as u32) as u16;
        proof {
            lemma_bits_of_with_bits(old_value as u32, 4, 3, value as u32);
            if value < 8 {
                lemma_fits_mask(value as u32, 3);
            }
            lemma_bits_of_with_other_bits(old_value as u32, 4, 3, value as u32, 0, 3);
            lemma_bits_of_with_other_bits(old_value as u32, 4, 3, value as u32, 3, 1);
        }
    }
}

/// Duty, length and envelope of a square channel (SOUND1CNT_H / SOUND2CNT_L).
#[derive(Clone, Copy, Debug, PartialEq, Eq, Structural)]
pub struct SoundChannelControlDLE {
    pub index: usize,
    pub value: u16,
}

impl SoundChannelControlDLE {
    /// A register holding zero.
    pub fn new(index: usize) -> (r: SoundChannelControlDLE)
        ensures
            r.value == 0,
            r.index == index,
    {
        SoundChannelControlDLE { index, value: 0 }
    }

    /// The whole register.
    pub fn get_register(&self) -> (r: u16)
        ensures
            r == self.value,
    {
        self.value
    }

    /// Writes the whole register from the low bits of `value`.
    pub fn set_register(&mut self, value: u32)
        ensures
            final(self).value == value as u16,
            final(self).index == old(self).index,
    {
        self.value = value as u16;
    }

    /// Bits 5..0.
    pub open spec fn sound_length(self) -> u8 {
        bits(self.value as u32, 0, 6) as u8
    }

    /// Reads bits 5..0.
    pub fn get_sound_length(&self) -> (r: u8)
        ensures
            r == self.sound_length(),
            r < 64,
    {
        get_bits(self.value as u32, 0, 6) as u8
    }

    /// Writes bits 5..0 from the low bits of `value`; every other field keeps its value.
    pub fn set_sound_length(&mut self, value: u8)
        ensures
            final(self).value == with_bits(old(self).value as u32, 0, 6, value as u32) as u16,
            value < 64 ==> final(self).sound_length() == value,
            final(self).wave_pattern_duty() == old(self).wave_pattern_duty(),
            final(self).envelope_step_time() == old(self).envelope_step_time(),
            final(self).envelope_direction() == old(self).envelope_direction(),
            final(self).initial_volume_of_envelope() == old(self).initial_volume_of_envelope(),
            final(self).index == old(self).index,
    {
        let old_value = self.value;
        self.value = set_bits(self.value as u32, 0, 6, value as u32) as u16;
        proof {
            lemma_bits_of_with_bits(old_value as u32, 0, 6, value as u32);
            if value < 64 {
                lemma_fits_mask(value as u32, 6);
            }
            lemma_bits_of_with_other_bits(old_value as u32, 0, 6, value as u32, 6, 2);
            lemma_bits_of_with_other_bits(old_value as u32, 0, 6, value as u32, 8, 3);
            lemma_bits_of_with_other_bits(old_value as u32, 0, 6, value as u32, 11, 1);
            lemma_bits_of_with_other_bits(old_value as u32, 0, 6, value as u32, 12, 4);
        }
    }

    /// Bits 7..6.
    pub open spec fn wave_pattern_duty(self) -> u8 {
        bits(self.value as u32, 6, 2) as u8
    }

    /// Reads bits 7..6.
    pub fn get_wave_pattern_duty(&self) -> (r: u8)
        ensures
            r == self.wave_pattern_duty(),
            r < 4,
    {
        get_bits(self.value as u32, 6, 2) as u8
    }

    /// Writes bits 7..6 from the low bits of `value`; every other field keeps its value.
    pub fn set_wave_pattern_duty(&mut self, value: u8)
        ensures
            final(self).value == with_bits(old(self).value as u32, 6, 2, value as u32) as u16,
            value < 4 ==> final(self).wave_pattern_duty() == value,
            final(self).sound_length() == old(self).sound_length(),
            final(self).envelope_step_time() == old(self).envelope_step_time(),
            final(self).envelope_direction() == old(self).envelope_direction(),
            final(self).initial_volume_of_envelope() == old(self).initial_volume_of_envelope(),
            final(self).index == old(self).index,
    {
        let old_value = self.value;
        self.value = set_bits(self.value as u32, 6, 2, value as u32) as u16;
        proof {
            lemma_bits_of_with_bits(old_value as u32, 6, 2, value as u32);
            if value < 4 {
                lemma_fits_mask(value as u32, 2);
            }
            lemma_bits_of_with_other_bits(old_value as u32, 6, 2, value as u32, 0, 6);
            lemma_bits_of_with_other_bits(old_value as u32, 6, 2, value as u32, 8, 3);
            lemma_bits_of_with_other_bits(old_value as u32, 6, 2, value as u32, 11, 1);
            lemma_bits_of_with_other_bits(old_value as u32, 6, 2, value as u32, 12, 4);
        }
    }

    /// Bits 10..8.
    pub open spec fn envelope_step_time(self) -> u8 {
        bits(self.value as u32, 8, 3) as u8
    }

    /// Reads bits 10..8.
    pub fn get_envelope_step_time(&self) -> (r: u8)
        ensures
            r == self.envelope_step_time(),
            r < 8,
    {
        get_bits(self.value as u32, 8, 3) as u8
    }

    /// Writes bits 10..8 from the low bits of `value`; every other field keeps its value.
    pub fn set_envelope_step_time(&mut self, value: u8)
        ensures
            final(self).value == with_bits(old(self).value as u32, 8, 3, value as u32) as u16,
            value < 8 ==> final(self).envelope_step_time() == value,
            final(self).sound_length() == old(self).sound_length(),
            final(self).wave_pattern_duty() == old(self).wave_pattern_duty(),
            final(self).envelope_direction() == old(self).envelope_direction(),
            final(self).initial_volume_of_envelope() == old(self).initial_volume_of_envelope(),
            final(self).index == old(self).index,
    {
        let old_value = self.value;
        self.value = set_bits(self.value as u32, 8, 3, value as u32) as u16;
        proof {
            lemma_bits_of_with_bits(old_value as u32, 8, 3, value as u32);
            if value < 8 {
                lemma_fits_mask(value as u32, 3);
            }
            lemma_bits_of_with_other_bits(old_value as u32, 8, 3, value as u32, 0, 6);
            lemma_bits_of_with_other_bits(old_value as u32, 8, 3, value as u32, 6, 2);
            lemma_bits_of_with_other_bits(old_value as u32, 8, 3, value as u32, 11, 1);
            lemma_bits_of_with_other_bits(old_value as u32, 8, 3, value as u32, 12, 4);
        }
    }

    /// Bits 11..11.
    pub open spec fn envelope_direction(self) -> u8 {
        bits(self.value as u32, 11, 1) as u8
    }

    /// Reads bits 11..11.
    pub fn get_envelope_direction(&self) -> (r: u8)
        ensures
            r == self.envelope_direction(),
            r < 2,
    {
        get_bits(self.value as u32, 11, 1) as u8
    }

    /// Writes bits 11..11 from the low bits of `value`; every other field keeps its value.
    pub fn set_envelope_direction(&mut self, value: u8)
        ensures
            final(self).value == with_bits(old(self).value as u32, 11, 1, value as u32) as u16,
            value < 2 ==> final(self).envelope_direction() == value,
            final(self).sound_length() == old(self).sound_length(),
            final(self).wave_pattern_duty() == old(self).wave_pattern_duty(),
            final(self).envelope_step_time() == old(self).envelope_step_time(),
            final(self).initial_volume_of_envelope() == old(self).initial_volume_of_envelope(),
            final(self).index == old(self).index,
    {
        let old_value = self.value;
        self.value = set_bits(self.value as u32, 11, 1, value as u32) as u16;
        proof {
            lemma_bits_of_with_bits(old_value as u32, 11, 1, value as u32);
            if value < 2 {
                lemma_fits_mask(value as u32, 1);
            }
            lemma_bits_of_with_other_bits(old_value as u32, 11, 1, value as u32, 0, 6);
            lemma_bits_of_with_other_bits(old_value as u32, 11, 1, value as u32, 6, 2);
            lemma_bits_of_with_other_bits(old_value as u32, 11, 1, value as u32, 8, 3);
            lemma_bits_of_with_other_bits(old_value as u32, 11, 1, value as u32, 12, 4);
        }
    }

    /// Bits 15..12.
    pub open spec fn initial_volume_of_envelope(self) -> u8 {
        bits(self.value as u32, 12, 4) as u8
    }

    /// Reads bits 15..12.
    pub fn get_initial_volume_of_envelope(&self) -> (r: u8)
        ensures
            r == self.initial_volume_of_envelope(),
            r < 16,
    {
        get_bits(self.value as u32, 12, 4) as u8
    }

    /// Writes bits 15..12 from the low bits of `value`; every other field keeps its value.
    pub fn set_initial_volume_of_envelope(&mut self, value: u8)
        ensures
            final(self).value == with_bits(old(self).value as u32, 12, 4, value as u32) as u16,
            value < 16 ==> final(self).initial_volume_of_envelope() == value,
            final(self).sound_length() == old(self).sound_length(),
            final(self).wave_pattern_duty() == old(self).wave_pattern_duty(),
            final(self).envelope_step_time() == old(self).envelope_step_time(),
            final(self).envelope_direction() == old(self).envelope_direction(),
            final(self).index == old(self).index,
    {
        let old_value = self.value;
        self.value = set_bits(self.value as u32, 12, 4, value as u32) as u16;
        proof {
            lemma_bits_of_with_bits(old_value as u32, 12, 4, value as u32);
            if value < 16 {
                lemma_fits_mask(value as u32, 4);
            }
            lemma_bits_of_with_other_bits(old_value as u32, 12, 4, value as u32, 0, 6);
            lemma_bits_of_with_other_bits(old_value as u32, 12, 4, value as u32, 6, 2);
            lemma_bits_of_with_other_bits(old_value as u32, 12, 4, value as u32, 8, 3);
            lemma_bits_of_with_other_bits(old_value as u32, 12, 4, value as u32, 11, 1);
        }
    }
}

/// Frequency and control of a square channel (SOUND1CNT_X / SOUND2CNT_H).
#[derive(Clone, Copy, Debug, PartialEq, Eq, Structural)]
pub struct SoundChannelControlFC {
    pub index: usize,
    pub value: u16,
}

impl SoundChannelControlFC {
    /// A register holding zero.
    pub fn new(index: usize) -> (r: SoundChannelControlFC)
        ensures
            r.value == 0,
            r.index == index,
    {
        SoundChannelControlFC { index, value: 0 }
    }

    /// The whole register.
    pub fn get_register(&self) -> (r: u16)
        ensures
            r == self.value,
    {
        self.value
    }

    /// Writes the whole register from the low bits of `value`.
    pub fn set_register(&mut self, value: u32)
        ensures
            final(self).value == value as u16,
            final(self).index == old(self).index,
    {
        self.value = value as u16;
    }

    /// Bits 10..0.
    pub open spec fn frequency(self) -> u16 {
        bits(self.value as u32, 0, 11) as u16
    }

    /// Reads bits 10..0.
    pub fn get_frequency(&self) -> (r: u16)
        ensures
            r == self.frequency(),
            r < 2048,
    {
        get_bits(self.value as u32, 0, 11) as u16
    }

    /// Writes bits 10..0 from the low bits of `value`; every other field keeps its value.
    pub fn set_frequency(&mut self, value: u16)
        ensures
            final(self).value == with_bits(old(self).value as u32, 0, 11, value as u32) as u16,
            value < 2048 ==> final(self).frequency() == value,
            final(self).length_flag() == old(self).length_flag(),
            final(self).initial() == old(self).initial(),
            final(self).index == old(self).index,
    {
        let old_value = self.value;
        self.value = set_bits(self.value as u32, 0, 11, value as u32) as u16;
        proof {
            lemma_bits_of_with_bits(old_value as u32, 0, 11, value as u32);
            if value < 2048 {
                lemma_fits_mask(value as u32, 11);
            }
            lemma_bits_of_with_other_bits(old_value as u32, 0, 11, value as u32, 14, 1);
            lemma_bits_of_with_other_bits(old_value as u32, 0, 11, value as u32, 15, 1);
        }
    }

    /// Bits 14..14.
    pub open spec fn length_flag(self) -> u8 {
        bits(self.value as u32, 14, 1) as u8
    }

    /// Reads bits 14..14.
    pub fn get_length_flag(&self) -> (r: u8)
        ensures
            r == self.length_flag(),
            r < 2,
    {
        get_bits(self.value as u32, 14, 1) as u8
    }

    /// Writes bits 14..14 from the low bits of `value`; every other field keeps its value.
    pub fn set_length_flag(&mut self, value: u8)
        ensures
            final(self).value == with_bits(old(self).value as u32, 14, 1, value as u32) as u16,
            value < 2 ==> final(self).length_flag() == value,
            final(self).frequency() == old(self).frequency(),
            final(self).initial() == old(self).initial(),
            final(self).index == old(self).index,
    {
        let old_value = self.value;
        self.value = set_bits(self.value as u32, 14, 1, value as u32) as u16;
        proof {
            lemma_bits_of_with_bits(old_value as u32, 14, 1, value as u32);
            if value < 2 {
                lemma_fits_mask(value as u32, 1);
            }
            lemma_bits_of_with_other_bits(old_value as u32, 14, 1, value as u32, 0, 11);
            lemma_bits_of_with_other_bits(old_value as u32, 14, 1, value as u32, 15, 1);
        }
    }

    /// Bits 15..15.
    pub open spec fn initial(self) -> u8 {
        bits(self.value as u32, 15, 1) as u8
    }

    /// Reads bits 15..15.
    pub fn get_initial(&self) -> (r: u8)
        ensures
            r == self.initial(),
            r < 2,
    {
        get_bits(self.value as u32, 15, 1) as u8
    }

    /// Writes bits 15..15 from the low bits of `value`; every other field keeps its value.
    pub fn set_initial(&mut self, value: u8)
        ensures
            final(self).value == with_bits(old(self).value as u32, 15, 1, value as u32) as u16,
            value < 2 ==> final(self).initial() == value,
            final(self).frequency() == old(self).frequency(),
            final(self).length_flag() == old(self).length_flag(),
            final(self).index == old(self).index,
    {
        let old_value = self.value;
        self.value = set_bits(self.value as u32, 15, 1, value as u32) as u16;
        proof {
            lemma_bits_of_with_bits(old_value as u32, 15, 1, value as u32);
            if value < 2 {
                lemma_fits_mask(value as u32, 1);
            }
            lemma_bits_of_with_other_bits(old_value as u32, 15, 1, value as u32, 0, 11);
            lemma_bits_of_with_other_bits(old_value as u32, 15, 1, value as u32, 14, 1);
        }
    }
}

/// Wave RAM selection and playback switch of the wave channel (SOUND3CNT_L).
#[derive(Clone, Copy, Debug, PartialEq, Eq, Structural)]
pub struct SoundChannelControlWaveLow {
    pub value: u16,
}

impl SoundChannelControlWaveLow {
    /// A register holding zero.
    pub fn new() -> (r: SoundChannelControlWaveLow)
        ensures
            r.value == 0,
    {
        SoundChannelControlWaveLow { value: 0 }
    }

    /// The whole register.
    pub fn get_register(&self) -> (r: u16)
        ensures
            r == self.value,
    {
        self.value
    }

    /// Writes the whole register from the low bits of `value`.
    pub fn set_register(&mut self, value: u32)
        ensures
            final(self).value == value as u16,
    {
        self.value = value as u16;
    }

    /// Bits 5..5.
    pub open spec fn wave_ram_dimension(self) -> u8 {
        bits(self.value as u32, 5, 1) as u8
    }

    /// Reads bits 5..5.
    pub fn get_wave_ram_dimension(&self) -> (r: u8)
        ensures
            r == self.wave_ram_dimension(),
            r < 2,
    {
        get_bits(self.value as u32, 5, 1) as u8
    }

    /// Writes bits 5..5 from the low bits of `value`; every other field keeps its value.
    pub fn set_wave_ram_dimension(&mut self, value: u8)
        ensures
            final(self).value == with_bits(old(self).value as u32, 5, 1, value as u32) as u16,
            value < 2 ==> final(self).wave_ram_dimension() == value,
            final(self).wave_ram_bank_number() == old(self).wave_ram_bank_number(),
            final(self).sound_channel_3_off() == old(self).sound_channel_3_off(),
    {
        let old_value = self.value;
        self.value = set_bits(self.value as u32, 5, 1, value as u32) as u16;
        proof {
            lemma_bits_of_with_bits(old_value as u32, 5, 1, value as u32);
            if value < 2 {
                lemma_fits_mask(value as u32, 1);
            }
            lemma_bits_of_with_other_bits(old_value as u32, 5, 1, value as u32, 6, 1);
            lemma_bits_of_with_other_bits(old_value as u32, 5, 1, value as u32, 7, 1);
        }
    }

    /// Bits 6..6.
    pub open spec fn wave_ram_bank_number(self) -> u8 {
        bits(self.value as u32, 6, 1) as u8
    }

    /// Reads bits 6..6.
    pub fn get_wave_ram_bank_number(&self) -> (r: u8)
        ensures
            r == self.wave_ram_bank_number(),
            r < 2,
    {
        get_bits(self.value as u32, 6, 1) as u8
    }

    /// Writes bits 6..6 from the low bits of `value`; every other field keeps its value.
    pub fn set_wave_ram_bank_number(&mut self, value: u8)
        ensures
            final(self).value == with_bits(old(self).value as u32, 6, 1, value as u32) as u16,
            value < 2 ==> final(self).wave_ram_bank_number() == value,
            final(self).wave_ram_dimension() == old(self).wave_ram_dimension(),
            final(self).sound_channel_3_off() == old(self).sound_channel_3_off(),
    {
        let old_value = self.value;
        self.value = set_bits(self.value as u32, 6, 1, value as u32) as u16;
        proof {
            lemma_bits_of_with_bits(old_value as u32, 6, 1, value as u32);
            if value < 2 {
                lemma_fits_mask(value as u32, 1);
            }
            lemma_bits_of_with_other_bits(old_value as u32, 6, 1, value as u32, 5, 1);
            lemma_bits_of_with_other_bits(old_value as u32, 6, 1, value as u32, 7, 1);
        }
    }

    /// Bits 7..7.
    pub open spec fn sound_channel_3_off(self) -> u8 {
        bits(self.value as u32, 7, 1) as u8
    }

    /// Reads bits 7..7.
    pub fn get_sound_channel_3_off(&self) -> (r: u8)
        ensures
            r == self.sound_channel_3_off(),
            r < 2,
    {
        get_bits(self.value as u32, 7, 1) as u8
    }

    /// Writes bits 7..7 from the low bits of `value`; every other field keeps its value.
    pub fn set_sound_channel_3_off(&mut self, value: u8)
        ensures
            final(self).value == with_bits(old(self).value as u32, 7, 1, value as u32) as u16,
            value < 2 ==> final(self).sound_channel_3_off() == value,
            final(self).wave_ram_dimension() == old(self).wave_ram_dimension(),
            final(self).wave_ram_bank_number() == old(self).wave_ram_bank_number(),
    {
        let old_value = self.value;
        self.value = set_bits(self.value as u32, 7, 1, value as u32) as u16;
        proof {
            lemma_bits_of_with_bits(old_value as u32, 7, 1, value as u32);
            if value < 2 {
                lemma_fits_mask(value as u32, 1);
            }
            lemma_bits_of_with_other_bits(old_value as u32, 7, 1, value as u32, 5, 1);
            lemma_bits_of_with_other_bits(old_value as u32, 7, 1, value as u32, 6, 1);
        }
    }
}

/// Length and volume of the wave channel (SOUND3CNT_H).
#[derive(Clone, Copy, Debug, PartialEq, Eq, Structural)]
pub struct SoundChannelControlWaveHigh {
    pub value: u16,
}

impl SoundChannelControlWaveHigh {
    /// A register holding zero.
    pub fn new() -> (r: SoundChannelControlWaveHigh)
        ensures
            r.value == 0,
    {
        SoundChannelControlWaveHigh { value: 0 }
    }

    /// The whole register.
    pub fn get_register(&self) -> (r: u16)
        ensures
            r == self.value,
    {
        self.value
    }

    /// Writes the whole register from the low bits of `value`.
    pub fn set_register(&mut self, value: u32)
        ensures
            final(self).value == value as u16,
    {
        self.value = value as u16;
    }

    /// Bits 7..0.
    pub open spec fn sound_length(self) -> u8 {
        bits(self.value as u32, 0, 8) as u8
    }

    /// Reads bits 7..0.
    pub fn get_sound_length(&self) -> (r: u8)
        ensures
            r == self.sound_length(),
            r < 256,
    {
        get_bits(self.value as u32, 0, 8) as u8
    }

    /// Writes bits 7..0 from the low bits of `value`; every other field keeps its value.
    pub fn set_sound_length(&mut self, value: u8)
        ensures
            final(self).value == with_bits(old(self).value as u32, 0, 8, value as u32) as u16,
            value < 256 ==> final(self).sound_length() == value,
            final(self).sound_volume() == old(self).sound_volume(),
            final(self).force_volume() == old(self).force_volume(),
    {
        let old_value = self.value;
        self.value = set_bits(self.value as u32, 0, 8, value as u32) as u16;
        proof {
            lemma_bits_of_with_bits(old_value as u32, 0, 8, value as u32);
            if value < 256 {
                lemma_fits_mask(value as u32, 8);
            }
            lemma_bits_of_with_other_bits(old_value as u32, 0, 8, value as u32, 13, 2);
            lemma_bits_of_with_other_bits(old_value as u32, 0, 8, value as u32, 15, 1);
        }
    }

    /// Bits 14..13.
    pub open spec fn sound_volume(self) -> u8 {
        bits(self.value as u32, 13, 2) as u8
    }

    /// Reads bits 14..13.
    pub fn get_sound_volume(&self) -> (r: u8)
        ensures
            r == self.sound_volume(),
            r < 4,
    {
        get_bits(self.value as u32, 13, 2) as u8
    }

    /// Writes bits 14..13 from the low bits of `value`; every other field keeps its value.
    pub fn set_sound_volume(&mut self, value: u8)
        ensures
            final(self).value == with_bits(old(self).value as u32, 13, 2, value as u32) as u16,
            value < 4 ==> final(self).sound_volume() == value,
            final(self).sound_length() == old(self).sound_length(),
            final(self).force_volume() == old(self).force_volume(),
    {
        let old_value = self.value;
        self.value = set_bits(self.value as u32, 13, 2, value as u32) as u16;
        proof {
            lemma_bits_of_with_bits(old_value as u32, 13, 2, value as u32);
            if value < 4 {
                lemma_fits_mask(value as u32, 2);
            }
            lemma_bits_of_with_other_bits(old_value as u32, 13, 2, value as u32, 0, 8);
            lemma_bits_of_with_other_bits(old_value as u32, 13, 2, value as u32, 15, 1);
        }
    }

    /// Bits 15..15.
    pub open spec fn force_volume(self) -> u8 {
        bits(self.value as u32, 15, 1) as u8
    }

    /// Reads bits 15..15.
    pub fn get_force_volume(&self) -> (r: u8)
        ensures
            r == self.force_volume(),
            r < 2,
    {
        get_bits(self.value as u32, 15, 1) as u8
    }

    /// Writes bits 15..15 from the low bits of `value`; every other field keeps its value.
    pub fn set_force_volume(&mut self, value: u8)
        ensures
            final(self).value == with_bits(old(self).value as u32, 15, 1, value as u32) as u16,
            value < 2 ==> final(self).force_volume() == value,
            final(self).sound_length() == old(self).sound_length(),
            final(self).sound_volume() == old(self).sound_volume(),
    {
        let old_value = self.value;
        self.value = set_bits(self.value as u32, 15, 1, value as u32) as u16;
        proof {
            lemma_bits_of_with_bits(old_value as u32, 15, 1, value as u32);
            if value < 2 {
                lemma_fits_mask(value as u32, 1);
            }
            lemma_bits_of_with_other_bits(old_value as u32, 15, 1, value as u32, 0, 8);
            lemma_bits_of_with_other_bits(old_value as u32, 15, 1, value as u32, 13, 2);
        }
    }
}

/// Sample rate and control of the wave channel (SOUND3CNT_X).
#[derive(Clone, Copy, Debug, PartialEq, Eq, Structural)]
pub struct SoundChannelControlWaveX {
    pub value: u16,
}

impl SoundChannelControlWaveX {
    /// A register holding zero.
    pub fn new() -> (r: SoundChannelControlWaveX)
        ensures
            r.value == 0,
    {
        SoundChannelControlWaveX { value: 0 }
    }

    /// The whole register.
    pub fn get_register(&self) -> (r: u16)
        ensures
            r == self.value,
    {
        self.value
    }

    /// Writes the whole register from the low bits of `value`.
    pub fn set_register(&mut self, value: u32)
        ensures
            final(self).value == value as u16,
    {
        self.value = value as u16;
    }

    /// Bits 10..0.
    pub open spec fn sample_rate(self) -> u16 {
        bits(self.value as u32, 0, 11) as u16
    }

    /// Reads bits 10..0.
    pub fn get_sample_rate(&self) -> (r: u16)
        ensures
            r == self.sample_rate(),
            r < 2048,
    {
        get_bits(self.value as u32, 0, 11) as u16
    }

    /// Writes bits 10..0 from the low bits of `value`; every other field keeps its value.
    pub fn set_sample_rate(&mut self, value: u16)
        ensures
            final(self).value == with_bits(old(self).value as u32, 0, 11, value as u32) as u16,
            value < 2048 ==> final(self).sample_rate() == value,
            final(self).length_flag() == old(self).length_flag(),
            final(self).initial() == old(self).initial(),
    {
        let old_value = self.value;
        self.value = set_bits(self.value as u32, 0, 11, value as u32) as u16;
        proof {
            lemma_bits_of_with_bits(old_value as u32, 0, 11, value as u32);
            if value < 2048 {
                lemma_fits_mask(value as u32, 11);
            }
            lemma_bits_of_with_other_bits(old_value as u32, 0, 11, value as u32, 14, 1);
            lemma_bits_of_with_other_bits(old_value as u32, 0, 11, value as u32, 15, 1);
        }
    }

    /// Bits 14..14.
    pub open spec fn length_flag(self) -> u8 {
        bits(self.value as u32, 14, 1) as u8
    }

    /// Reads bits 14..14.
    pub fn get_length_flag(&self) -> (r: u8)
        ensures
            r == self.length_flag(),
            r < 2,
    {
        get_bits(self.value as u32, 14, 1) as u8
    }

    /// Writes bits 14..14 from the low bits of `value`; every other field keeps its value.
    pub fn set_length_flag(&mut self, value: u8)
        ensures
            final(self).value == with_bits(old(self).value as u32, 14, 1, value as u32) as u16,
            value < 2 ==> final(self).length_flag() == value,
            final(self).sample_rate() == old(self).sample_rate(),
            final(self).initial() == old(self).initial(),
    {
        let old_value = self.value;
        self.value = set_bits(self.value as u32, 14, 1, value as u32) as u16;
        proof {
            lemma_bits_of_with_bits(old_value as u32, 14, 1, value as u32);
            if value < 2 {
                lemma_fits_mask(value as u32, 1);
            }
            lemma_bits_of_with_other_bits(old_value as u32, 14, 1, value as u32, 0, 11);
            lemma_bits_of_with_other_bits(old_value as u32, 14, 1, value as u32, 15, 1);
        }
    }

    /// Bits 15..15.
    pub open spec fn initial(self) -> u8 {
        bits(self.value as u32, 15, 1) as u8
    }

    /// Reads bits 15..15.
    pub fn get_initial(&self) -> (r: u8)
        ensures
            r == self.initial(),
            r < 2,
    {
        get_bits(self.value as u32, 15, 1) as u8
    }

    /// Writes bits 15..15 from the low bits of `value`; every other field keeps its value.
    pub fn set_initial(&mut self, value: u8)
        ensures
            final(self).value == with_bits(old(self).value as u32, 15, 1, value as u32) as u16,
            value < 2 ==> final(self).initial() == value,
            final(self).sample_rate() == old(self).sample_rate(),
            final(self).length_flag() == old(self).length_flag(),
    {
        let old_value = self.value;
        self.value = set_bits(self.value as u32, 15, 1, value as u32) as u16;
        proof {
            lemma_bits_of_with_bits(old_value as u32, 15, 1, value as u32);
            if value < 2 {
                lemma_fits_mask(value as u32, 1);
            }
            lemma_bits_of_with_other_bits(old_value as u32, 15, 1, value as u32, 0, 11);
            lemma_bits_of_with_other_bits(old_value as u32, 15, 1, value as u32, 14, 1);
        }
    }
}

/// Length and envelope of the noise channel (SOUND4CNT_L).
#[derive(Clone, Copy, Debug, PartialEq, Eq, Structural)]
pub struct SoundChannelControlNoiseLow {
    pub value: u16,
}

impl SoundChannelControlNoiseLow {
    /// A register holding zero.
    pub fn new() -> (r: SoundChannelControlNoiseLow)
        ensures
            r.value == 0,
    {
        SoundChannelControlNoiseLow { value: 0 }
    }

    /// The whole register.
    pub fn get_register(&self) -> (r: u16)
        ensures
            r == self.value,
    {
        self.value
    }

    /// Writes the whole register from the low bits of `value`.
    pub fn set_register(&mut self, value: u32)
        ensures
            final(self).value == value as u16,
    {
        self.value = value as u16;
    }

    /// Bits 5..0.
    pub open spec fn sound_length(self) -> u8 {
        bits(self.value as u32, 0, 6) as u8
    }

    /// Reads bits 5..0.
    pub fn get_sound_length(&self) -> (r: u8)
        ensures
            r == self.sound_length(),
            r < 64,
    {
        get_bits(self.value as u32, 0, 6) as u8
    }

    /// Writes bits 5..0 from the low bits of `value`; every other field keeps its value.
    pub fn set_sound_length(&mut self, value: u8)
        ensures
            final(self).value == with_bits(old(self).value as u32, 0, 6, value as u32) as u16,
            value < 64 ==> final(self).sound_length() == value,
            final(self).envelope_step_time() == old(self).envelope_step_time(),
            final(self).envelope_direction() == old(self).envelope_direction(),
            final(self).initial_volume_of_envelope() == old(self).initial_volume_of_envelope(),
    {
        let old_value = self.value;
        self.value = set_bits(self.value as u32, 0, 6, value as u32) as u16;
        proof {
            lemma_bits_of_with_bits(old_value as u32, 0, 6, value as u32);
            if value < 64 {
                lemma_fits_mask(value as u32, 6);
            }
            lemma_bits_of_with_other_bits(old_value as u32, 0, 6, value as u32, 8, 3);
            lemma_bits_of_with_other_bits(old_value as u32, 0, 6, value as u32, 11, 1);
            lemma_bits_of_with_other_bits(old_value as u32, 0, 6, value as u32, 12, 4);
        }
    }

    /// Bits 10..8.
    pub open spec fn envelope_step_time(self) -> u8 {
        bits(self.value as u32, 8, 3) as u8
    }

    /// Reads bits 10..8.
    pub fn get_envelope_step_time(&self) -> (r: u8)
        ensures
            r == self.envelope_step_time(),
            r < 8,
    {
        get_bits(self.value as u32, 8, 3) as u8
    }

    /// Writes bits 10..8 from the low bits of `value`; every other field keeps its value.
    pub fn set_envelope_step_time(&mut self, value: u8)
        ensures
            final(self).value == with_bits(old(self).value as u32, 8, 3, value as u32) as u16,
            value < 8 ==> final(self).envelope_step_time() == value,
            final(self).sound_length() == old(self).sound_length(),
            final(self).envelope_direction() == old(self).envelope_direction(),
            final(self).initial_volume_of_envelope() == old(self).initial_volume_of_envelope(),
    {
        let old_value = self.value;
        self.value = set_bits(self.value as u32, 8, 3, value as u32) as u16;
        proof {
            lemma_bits_of_with_bits(old_value as u32, 8, 3, value as u32);
            if value < 8 {
                lemma_fits_mask(value as u32, 3);
            }
            lemma_bits_of_with_other_bits(old_value as u32, 8, 3, value as u32, 0, 6);
            lemma_bits_of_with_other_bits(old_value as u32, 8, 3, value as u32, 11, 1);
            lemma_bits_of_with_other_bits(old_value as u32, 8, 3, value as u32, 12, 4);
        }
    }

    /// Bits 11..11.
    pub open spec fn envelope_direction(self) -> u8 {
        bits(self.value as u32, 11, 1) as u8
    }

    /// Reads bits 11..11.
    pub fn get_envelope_direction(&self) -> (r: u8)
        ensures
            r == self.envelope_direction(),
            r < 2,
    {
        get_bits(self.value as u32, 11, 1) as u8
    }

    /// Writes bits 11..11 from the low bits of `value`; every other field keeps its value.
    pub fn set_envelope_direction(&mut self, value: u8)
        ensures
            final(self).value == with_bits(old(self).value as u32, 11, 1, value as u32) as u16,
            value < 2 ==> final(self).envelope_direction() == value,
            final(self).sound_length() == old(self).sound_length(),
            final(self).envelope_step_time() == old(self).envelope_step_time(),
            final(self).initial_volume_of_envelope() == old(self).initial_volume_of_envelope(),
    {
        let old_value = self.value;
        self.value = set_bits(self.value as u32, 11, 1, value as u32) as u16;
        proof {
            lemma_bits_of_with_bits(old_value as u32, 11, 1, value as u32);
            if value < 2 {
                lemma_fits_mask(value as u32, 1);
            }
            lemma_bits_of_with_other_bits(old_value as u32, 11, 1, value as u32, 0, 6);
            lemma_bits_of_with_other_bits(old_value as u32, 11, 1, value as u32, 8, 3);
            lemma_bits_of_with_other_bits(old_value as u32, 11, 1, value as u32, 12, 4);
        }
    }

    /// Bits 15..12.
    pub open spec fn initial_volume_of_envelope(self) -> u8 {
        bits(self.value as u32, 12, 4) as u8
    }

    /// Reads bits 15..12.
    pub fn get_initial_volume_of_envelope(&self) -> (r: u8)
        ensures
            r == self.initial_volume_of_envelope(),
            r < 16,
    {
        get_bits(self.value as u32, 12, 4) as u8
    }

    /// Writes bits 15..12 from the low bits of `value`; every other field keeps its value.
    pub fn set_initial_volume_of_envelope(&mut self, value: u8)
        ensures
            final(self).value == with_bits(old(self).value as u32, 12, 4, value as u32) as u16,
            value < 16 ==> final(self).initial_volume_of_envelope() == value,
            final(self).sound_length() == old(self).sound_length(),
            final(self).envelope_step_time() == old(self).envelope_step_time(),
            final(self).envelope_direction() == old(self).envelope_direction(),
    {
        let old_value = self.value;
        self.value = set_bits(self.value as u32, 12, 4, value as u32) as u16;
        proof {
            lemma_bits_of_with_bits(old_value as u32, 12, 4, value as u32);
            if value < 16 {
                lemma_fits_mask(value as u32, 4);
            }
            lemma_bits_of_with_other_bits(old_value as u32, 12, 4, value as u32, 0, 6);
            lemma_bits_of_with_other_bits(old_value as u32, 12, 4, value as u32, 8, 3);
            lemma_bits_of_with_other_bits(old_value as u32, 12, 4, value as u32, 11, 1);
        }
    }
}

/// Frequency and control of the noise channel (SOUND4CNT_H).
#[derive(Clone, Copy, Debug, PartialEq, Eq, Structural)]
pub struct SoundChannelControlNoiseHigh {
    pub value: u16,
}

impl SoundChannelControlNoiseHigh {
    /// A register holding zero.
    pub fn new() -> (r: SoundChannelControlNoiseHigh)
        ensures
            r.value == 0,
    {
        SoundChannelControlNoiseHigh { value: 0 }
    }

    /// The whole register.
    pub fn get_register(&self) -> (r: u16)
        ensures
            r == self.value,
    {
        self.value
    }

    /// Writes the whole register from the low bits of `value`.
    pub fn set_register(&mut self, value: u32)
        ensures
            final(self).value == value as u16,
    {
        self.value = value as u16;
    }

    /// Bits 2..0.
    pub open spec fn dividing_ratio_of_frequencies(self) -> u8 {
        bits(self.value as u32, 0, 3) as u8
    }

    /// Reads bits 2..0.
    pub fn get_dividing_ratio_of_frequencies(&self) -> (r: u8)
        ensures
            r == self.dividing_ratio_of_frequencies(),
            r < 8,
    {
        get_bits(self.value as u32, 0, 3) as u8
    }

    /// Writes bits 2..0 from the low bits of `value`; every other field keeps its value.
    pub fn set_dividing_ratio_of_frequencies(&mut self, value: u8)
        ensures
            final(self).value == with_bits(old(self).value as u32, 0, 3, value as u32) as u16,
            value < 8 ==> final(self).dividing_ratio_of_frequencies() == value,
            final(self).counter_step_width() == old(self).counter_step_width(),
            final(self).shift_clock_frequency() == old(self).shift_clock_frequency(),
            final(self).length_flag() == old(self).length_flag(),
            final(self).initial() == old(self).initial(),
    {
        let old_value = self.value;
        self.value = set_bits(self.value as u32, 0, 3, value as u32) as u16;
        proof {
            lemma_bits_of_with_bits(old_value as u32, 0, 3, value as u32);
            if value < 8 {
                lemma_fits_mask(value as u32, 3);
            }
            lemma_bits_of_with_other_bits(old_value as u32, 0, 3, value as u32, 3, 1);
            lemma_bits_of_with_other_bits(old_value as u32, 0, 3, value as u32, 4, 4);
            lemma_bits_of_with_other_bits(old_value as u32, 0, 3, value as u32, 14, 1);
            lemma_bits_of_with_other_bits(old_value as u32, 0, 3, value as u32, 15, 1);
        }
    }

    /// Bits 3..3.
    pub open spec fn counter_step_width(self) -> u8 {
        bits(self.value as u32, 3, 1) as u8
    }

    /// Reads bits 3..3.
    pub fn get_counter_step_width(&self) -> (r: u8)
        ensures
            r == self.counter_step_width(),
            r < 2,
    {
        get_bits(self.value as u32, 3, 1) as u8
    }

    /// Writes bits 3..3 from the low bits of `value`; every other field keeps its value.
    pub fn set_counter_step_width(&mut self, value: u8)
        ensures
            final(self).value == with_bits(old(self).value as u32, 3, 1, value as u32) as u16,
            value < 2 ==> final(self).counter_step_width() == value,
            final(self).dividing_ratio_of_frequencies() == old(self).dividing_ratio_of_frequencies(),
            final(self).shift_clock_frequency() == old(self).shift_clock_frequency(),
            final(self).length_flag() == old(self).length_flag(),
            final(self).initial() == old(self).initial(),
    {
        let old_value = self.value;
        self.value = set_bits(self.value as u32, 3, 1, value as u32) as u16;
        proof {
            lemma_bits_of_with_bits(old_value as u32, 3, 1, value as u32);
            if value < 2 {
                lemma_fits_mask(value as u32, 1);
            }
            lemma_bits_of_with_other_bits(old_value as u32, 3, 1, value as u32, 0, 3);
            lemma_bits_of_with_other_bits(old_value as u32, 3, 1, value as u32, 4, 4);
            lemma_bits_of_with_other_bits(old_value as u32, 3, 1, value as u32, 14, 1);
            lemma_bits_of_with_other_bits(old_value as u32, 3, 1, value as u32, 15, 1);
        }
    }

    /// Bits 7..4.
    pub open spec fn shift_clock_frequency(self) -> u8 {
        bits(self.value as u32, 4, 4) as u8
    }

    /// Reads bits 7..4.
    pub fn get_shift_clock_frequency(&self) -> (r: u8)
        ensures
            r == self.shift_clock_frequency(),
            r < 16,
    {
        get_bits(self.value as u32, 4, 4) as u8
    }

    /// Writes bits 7..4 from the low bits of `value`; every other field keeps its value.
    pub fn set_shift_clock_frequency(&mut self, value: u8)
        ensures
            final(self).value == with_bits(old(self).value as u32, 4, 4, value as u32) as u16,
            value < 16 ==> final(self).shift_clock_frequency() == value,
            final(self).dividing_ratio_of_frequencies() == old(self).dividing_ratio_of_frequencies(),
            final(self).counter_step_width() == old(self).counter_step_width(),
            final(self).length_flag() == old(self).length_flag(),
            final(self).initial() == old(self).initial(),
    {
        let old_value = self.value;
        self.value = set_bits(self.value as u32, 4, 4, value as u32) as u16;
        proof {
            lemma_bits_of_with_bits(old_value as u32, 4, 4, value as u32);
            if value < 16 {
                lemma_fits_mask(value as u32, 4);
            }
            lemma_bits_of_with_other_bits(old_value as u32, 4, 4, value as u32, 0, 3);
            lemma_bits_of_with_other_bits(old_value as u32, 4, 4, value as u32, 3, 1);
            lemma_bits_of_with_other_bits(old_value as u32, 4, 4, value as u32, 14, 1);
            lemma_bits_of_with_other_bits(old_value as u32, 4, 4, value as u32, 15, 1);
        }
    }

    /// Bits 14..14.
    pub open spec fn length_flag(self) -> u8 {
        bits(self.value as u32, 14, 1) as u8
    }

    /// Reads bits 14..14.
    pub fn get_length_flag(&self) -> (r: u8)
        ensures
            r == self.length_flag(),
            r < 2,
    {
        get_bits(self.value as u32, 14, 1) as u8
    }

    /// Writes bits 14..14 from the low bits of `value`; every other field keeps its value.
    pub fn set_length_flag(&mut self, value: u8)
        ensures
            final(self).value == with_bits(old(self).value as u32, 14, 1, value as u32) as u16,
            value < 2 ==> final(self).length_flag() == value,
            final(self).dividing_ratio_of_frequencies() == old(self).dividing_ratio_of_frequencies(),
            final(self).counter_step_width() == old(self).counter_step_width(),
            final(self).shift_clock_frequency() == old(self).shift_clock_frequency(),
            final(self).initial() == old(self).initial(),
    {
        let old_value = self.value;
        self.value = set_bits(self.value as u32, 14, 1, value as u32) as u16;
        proof {
            lemma_bits_of_with_bits(old_value as u32, 14, 1, value as u32);
            if value < 2 {
                lemma_fits_mask(value as u32, 1);
            }
            lemma_bits_of_with_other_bits(old_value as u32, 14, 1, value as u32, 0, 3);
            lemma_bits_of_with_other_bits(old_value as u32, 14, 1, value as u32, 3, 1);
            lemma_bits_of_with_other_bits(old_value as u32, 14, 1, value as u32, 4, 4);
            lemma_bits_of_with_other_bits(old_value as u32, 14, 1, value as u32, 15, 1);
        }
    }

    /// Bits 15..15.
    pub open spec fn initial(self) -> u8 {
        bits(self.value as u32, 15, 1) as u8
    }

    /// Reads bits 15..15.
    pub fn get_initial(&self) -> (r: u8)
        ensures
            r == self.initial(),
            r < 2,
    {
        get_bits(self.value as u32, 15, 1) as u8
    }

    /// Writes bits 15..15 from the low bits of `value`; every other field keeps its value.
    pub fn set_initial(&mut self, value: u8)
        ensures
            final(self).value == with_bits(old(self).value as u32, 15, 1, value as u32) as u16,
            value < 2 ==> final(self).initial() == value,
            final(self).dividing_ratio_of_frequencies() == old(self).dividing_ratio_of_frequencies(),
            final(self).counter_step_width() == old(self).counter_step_width(),
            final(self).shift_clock_frequency() == old(self).shift_clock_frequency(),
            final(self).length_flag() == old(self).length_flag(),
    {
        let old_value = self.value;
        self.value = set_bits(self.value as u32, 15, 1, value as u32) as u16;
        proof {
            lemma_bits_of_with_bits(old_value as u32, 15, 1, value as u32);
            if value < 2 {
                lemma_fits_mask(value as u32, 1);
            }
            lemma_bits_of_with_other_bits(old_value as u32, 15, 1, value as u32, 0, 3);
            lemma_bits_of_with_other_bits(old_value as u32, 15, 1, value as u32, 3, 1);
            lemma_bits_of_with_other_bits(old_value as u32, 15, 1, value as u32, 4, 4);
            lemma_bits_of_with_other_bits(old_value as u32, 15, 1, value as u32, 14, 1);
        }
    }
}

/// Master volume and channel routing of the tone channels (SOUNDCNT_L).
#[derive(Clone, Copy, Debug, PartialEq, Eq, Structural)]
pub struct SoundControlLow {
    pub value: u16,
}

impl SoundControlLow {
    /// A register holding zero.
    pub fn new() -> (r: SoundControlLow)
        ensures
            r.value == 0,
    {
        SoundControlLow { value: 0 }
    }

    /// The whole register.
    pub fn get_register(&self) -> (r: u16)
        ensures
            r == self.value,
    {
        self.value
    }

    /// Writes the whole register from the low bits of `value`.
    pub fn set_register(&mut self, value: u32)
        ensures
            final(self).value == value as u16,
    {
        self.value = value as u16;
    }

    /// Bits 2..0.
    pub open spec fn sound_master_volume_right(self) -> u8 {
        bits(self.value as u32, 0, 3) as u8
    }

    /// Reads bits 2..0.
    pub fn get_sound_master_volume_right(&self) -> (r: u8)
        ensures
            r == self.sound_master_volume_right(),
            r < 8,
    {
        get_bits(self.value as u32, 0, 3) as u8
    }

    /// Writes bits 2..0 from the low bits of `value`; every other field keeps its value.
    pub fn set_sound_master_volume_right(&mut self, value: u8)
        ensures
            final(self).value == with_bits(old(self).value as u32, 0, 3, value as u32) as u16,
            value < 8 ==> final(self).sound_master_volume_right() == value,
            final(self).sound_master_volume_left() == old(self).sound_master_volume_left(),
            final(self).sound_enable_flags_right() == old(self).sound_enable_flags_right(),
            final(self).sound_enable_flags_left() == old(self).sound_enable_flags_left(),
    {
        let old_value = self.value;
        self.value = set_bits(self.value as u32, 0, 3, value as u32) as u16;
        proof {
            lemma_bits_of_with_bits(old_value as u32, 0, 3, value as u32);
            if value < 8 {
                lemma_fits_mask(value as u32, 3);
            }
            lemma_bits_of_with_other_bits(old_value as u32, 0, 3, value as u32, 4, 3);
            lemma_bits_of_with_other_bits(old_value as u32, 0, 3, value as u32, 8, 4);
            lemma_bits_of_with_other_bits(old_value as u32, 0, 3, value as u32, 12, 4);
        }
    }

    /// Bits 6..4.
    pub open spec fn sound_master_volume_left(self) -> u8 {
        bits(self.value as u32, 4, 3) as u8
    }

    /// Reads bits 6..4.
    pub fn get_sound_master_volume_left(&self) -> (r: u8)
        ensures
            r == self.sound_master_volume_left(),
            r < 8,
    {
        get_bits(self.value as u32, 4, 3) as u8
    }

    /// Writes bits 6..4 from the low bits of `value`; every other field keeps its value.
    pub fn set_sound_master_volume_left(&mut self, value: u8)
        ensures
            final(self).value == with_bits(old(self).value as u32, 4, 3, value as u32) as u16,
            value < 8 ==> final(self).sound_master_volume_left() == value,
            final(self).sound_master_volume_right() == old(self).sound_master_volume_right(),
            final(self).sound_enable_flags_right() == old(self).sound_enable_flags_right(),
            final(self).sound_enable_flags_left() == old(self).sound_enable_flags_left(),
    {
        let old_value = self.value;
        self.value = set_bits(self.value as u32, 4, 3, value as u32) as u16;
        proof {
            lemma_bits_of_with_bits(old_value as u32, 4, 3, value as u32);
            if value < 8 {
                lemma_fits_mask(value as u32, 3);
            }
            lemma_bits_of_with_other_bits(old_value as u32, 4, 3, value as u32, 0, 3);
            lemma_bits_of_with_other_bits(old_value as u32, 4, 3, value as u32, 8, 4);
            lemma_bits_of_with_other_bits(old_value as u32, 4, 3, value as u32, 12, 4);
        }
    }

    /// Bits 11..8.
    pub open spec fn sound_enable_flags_right(self) -> u8 {
        bits(self.value as u32, 8, 4) as u8
    }

    /// Reads bits 11..8.
    pub fn get_sound_enable_flags_right(&self) -> (r: u8)
        ensures
            r == self.sound_enable_flags_right(),
            r < 16,
    {
        get_bits(self.value as u32, 8, 4) as u8
    }

    /// Writes bits 11..8 from the low bits of `value`; every other field keeps its value.
    pub fn set_sound_enable_flags_right(&mut self, value: u8)
        ensures
            final(self).value == with_bits(old(self).value as u32, 8, 4, value as u32) as u16,
            value < 16 ==> final(self).sound_enable_flags_right() == value,
            final(self).sound_master_volume_right() == old(self).sound_master_volume_right(),
            final(self).sound_master_volume_left() == old(self).sound_master_volume_left(),
            final(self).sound_enable_flags_left() == old(self).sound_enable_flags_left(),
    {
        let old_value = self.value;
        self.value = set_bits(self.value as u32, 8, 4, value as u32) as u16;
        proof {
            lemma_bits_of_with_bits(old_value as u32, 8, 4, value as u32);
            if value < 16 {
                lemma_fits_mask(value as u32, 4);
            }
            lemma_bits_of_with_other_bits(old_value as u32, 8, 4, value as u32, 0, 3);
            lemma_bits_of_with_other_bits(old_value as u32, 8, 4, value as u32, 4, 3);
            lemma_bits_of_with_other_bits(old_value as u32, 8, 4, value as u32, 12, 4);
        }
    }

    /// Bits 15..12.
    pub open spec fn sound_enable_flags_left(self) -> u8 {
        bits(self.value as u32, 12, 4) as u8
    }

    /// Reads bits 15..12.
    pub fn get_sound_enable_flags_left(&self) -> (r: u8)
        ensures
            r == self.sound_enable_flags_left(),
            r < 16,
    {
        get_bits(self.value as u32, 12, 4) as u8
    }

    /// Writes bits 15..12 from the low bits of `value`; every other field keeps its value.
    pub fn set_sound_enable_flags_left(&mut self, value: u8)
        ensures
            final(self).value == with_bits(old(self).value as u32, 12, 4, value as u32) as u16,
            value < 16 ==> final(self).sound_enable_flags_left() == value,
            final(self).sound_master_volume_right() == old(self).sound_master_volume_right(),
            final(self).sound_master_volume_left() == old(self).sound_master_volume_left(),
            final(self).sound_enable_flags_right() == old(self).sound_enable_flags_right(),
    {
        let old_value = self.value;
        self.value = set_bits(self.value as u32, 12, 4, value as u32) as u16;
        proof {
            lemma_bits_of_with_bits(old_value as u32, 12, 4, value as u32);
            if value < 16 {
                lemma_fits_mask(value as u32, 4);
            }
            lemma_bits_of_with_other_bits(old_value as u32, 12, 4, value as u32, 0, 3);
            lemma_bits_of_with_other_bits(old_value as u32, 12, 4, value as u32, 4, 3);
            lemma_bits_of_with_other_bits(old_value as u32, 12, 4, value as u32, 8, 4);
        }
    }
}

/// Mixing of the tone channels and of the two direct sound channels (SOUNDCNT_H).
#[derive(Clone, Copy, Debug, PartialEq, Eq, Structural)]
pub struct SoundControlHigh {
    pub value: u16,
}

impl SoundControlHigh {
    /// A register holding zero.
    pub fn new() -> (r: SoundControlHigh)
        ensures
            r.value == 0,
    {
        SoundControlHigh { value: 0 }
    }

    /// The whole register.
    pub fn get_register(&self) -> (r: u16)
        ensures
            r == self.value,
    {
        self.value
    }

    /// Writes the whole register from the low bits of `value`.
    pub fn set_register(&mut self, value: u32)
        ensures
            final(self).value == value as u16,
    {
        self.value = value as u16;
    }

    /// Bits 1..0.
    pub open spec fn sound_1_4_volume(self) -> u8 {
        bits(self.value as u32, 0, 2) as u8
    }

    /// Reads bits 1..0.
    pub fn get_sound_1_4_volume(&self) -> (r: u8)
        ensures
            r == self.sound_1_4_volume(),
            r < 4,
    {
        get_bits(self.value as u32, 0, 2) as u8
    }

    /// Writes bits 1..0 from the low bits of `value`; every other field keeps its value.
    pub fn set_sound_1_4_volume(&mut self, value: u8)
        ensures
            final(self).value == with_bits(old(self).value as u32, 0, 2, value as u32) as u16,
            value < 4 ==> final(self).sound_1_4_volume() == value,
            final(self).dma_sound_a_volume() == old(self).dma_sound_a_volume(),
            final(self).dma_sound_b_volume() == old(self).dma_sound_b_volume(),
            final(self).dma_sound_a_enable_right() == old(self).dma_sound_a_enable_right(),
            final(self).dma_sound_a_enable_left() == old(self).dma_sound_a_enable_left(),
            final(self).dma_sound_a_timer_select() == old(self).dma_sound_a_timer_select(),
            final(self).dma_sound_a_reset_fifo() == old(self).dma_sound_a_reset_fifo(),
            final(self).dma_sound_b_enable_right() == old(self).dma_sound_b_enable_right(),
            final(self).dma_sound_b_enable_left() == old(self).dma_sound_b_enable_left(),
            final(self).dma_sound_b_timer_select() == old(self).dma_sound_b_timer_select(),
            final(self).dma_sound_b_reset_fifo() == old(self).dma_sound_b_reset_fifo(),
    {
        let old_value = self.value;
        self.value = set_bits(self.value as u32, 0, 2, value as u32) as u16;
        proof {
            lemma_bits_of_with_bits(old_value as u32, 0, 2, value as u32);
            if value < 4 {
                lemma_fits_mask(value as u32, 2);
            }
            lemma_bits_of_with_other_bits(old_value as u32, 0, 2, value as u32, 2, 1);
            lemma_bits_of_with_other_bits(old_value as u32, 0, 2, value as u32, 3, 1);
            lemma_bits_of_with_other_bits(old_value as u32, 0, 2, value as u32, 8, 1);
            lemma_bits_of_with_other_bits(old_value as u32, 0, 2, value as u32, 9, 1);
            lemma_bits_of_with_other_bits(old_value as u32, 0, 2, value as u32, 10, 1);
            lemma_bits_of_with_other_bits(old_value as u32, 0, 2, value as u32, 11, 1);
            lemma_bits_of_with_other_bits(old_value as u32, 0, 2, value as u32, 12, 1);
            lemma_bits_of_with_other_bits(old_value as u32, 0, 2, value as u32, 13, 1);
            lemma_bits_of_with_other_bits(old_value as u32, 0, 2, value as u32, 14, 1);
            lemma_bits_of_with_other_bits(old_value as u32, 0, 2, value as u32, 15, 1);
        }
    }

    /// Bits 2..2.
    pub open spec fn dma_sound_a_volume(self) -> u8 {
        bits(self.value as u32, 2, 1) as u8
    }

    /// Reads bits 2..2.
    pub fn get_dma_sound_a_volume(&self) -> (r: u8)
        ensures
            r == self.dma_sound_a_volume(),
            r < 2,
    {
        get_bits(self.value as u32, 2, 1) as u8
    }

    /// Writes bits 2..2 from the low bits of `value`; every other field keeps its value.
    pub fn set_dma_sound_a_volume(&mut self, value: u8)
        ensures
            final(self).value == with_bits(old(self).value as u32, 2, 1, value as u32) as u16,
            value < 2 ==> final(self).dma_sound_a_volume() == value,
            final(self).sound_1_4_volume() == old(self).sound_1_4_volume(),
            final(self).dma_sound_b_volume() == old(self).dma_sound_b_volume(),
            final(self).dma_sound_a_enable_right() == old(self).dma_sound_a_enable_right(),
            final(self).dma_sound_a_enable_left() == old(self).dma_sound_a_enable_left(),
            final(self).dma_sound_a_timer_select() == old(self).dma_sound_a_timer_select(),
            final(self).dma_sound_a_reset_fifo() == old(self).dma_sound_a_reset_fifo(),
            final(self).dma_sound_b_enable_right() == old(self).dma_sound_b_enable_right(),
            final(self).dma_sound_b_enable_left() == old(self).dma_sound_b_enable_left(),
            final(self).dma_sound_b_timer_select() == old(self).dma_sound_b_timer_select(),
            final(self).dma_sound_b_reset_fifo() == old(self).dma_sound_b_reset_fifo(),
    {
        let old_value = self.value;
        self.value = set_bits(self.value as u32, 2, 1, value as u32) as u16;
        proof {
            lemma_bits_of_with_bits(old_value as u32, 2, 1, value as u32);
            if value < 2 {
                lemma_fits_mask(value as u32, 1);
            }
            lemma_bits_of_with_other_bits(old_value as u32, 2, 1, value as u32, 0, 2);
            lemma_bits_of_with_other_bits(old_value as u32, 2, 1, value as u32, 3, 1);
            lemma_bits_of_with_other_bits(old_value as u32, 2, 1, value as u32, 8, 1);
            lemma_bits_of_with_other_bits(old_value as u32, 2, 1, value as u32, 9, 1);
            lemma_bits_of_with_other_bits(old_value as u32, 2, 1, value as u32, 10, 1);
            lemma_bits_of_with_other_bits(old_value as u32, 2, 1, value as u32, 11, 1);
            lemma_bits_of_with_other_bits(old_value as u32, 2, 1, value as u32, 12, 1);
            lemma_bits_of_with_other_bits(old_value as u32, 2, 1, value as u32, 13, 1);
            lemma_bits_of_with_other_bits(old_value as u32, 2, 1, value as u32, 14, 1);
            lemma_bits_of_with_other_bits(old_value as u32, 2, 1, value as u32, 15, 1);
        }
    }

    /// Bits 3..3.
    pub open spec fn dma_sound_b_volume(self) -> u8 {
        bits(self.value as u32, 3, 1) as u8
    }

    /// Reads bits 3..3.
    pub fn get_dma_sound_b_volume(&self) -> (r: u8)
        ensures
            r == self.dma_sound_b_volume(),
            r < 2,
    {
        get_bits(self.value as u32, 3, 1) as u8
    }

    /// Writes bits 3..3 from the low bits of `value`; every other field keeps its value.
    pub fn set_dma_sound_b_volume(&mut self, value: u8)
        ensures
            final(self).value == with_bits(old(self).value as u32, 3, 1, value as u32) as u16,
            value < 2 ==> final(self).dma_sound_b_volume() == value,
            final(self).sound_1_4_volume() == old(self).sound_1_4_volume(),
            final(self).dma_sound_a_volume() == old(self).dma_sound_a_volume(),
            final(self).dma_sound_a_enable_right() == old(self).dma_sound_a_enable_right(),
            final(self).dma_sound_a_enable_left() == old(self).dma_sound_a_enable_left(),
            final(self).dma_sound_a_timer_select() == old(self).dma_sound_a_timer_select(),
            final(self).dma_sound_a_reset_fifo() == old(self).dma_sound_a_reset_fifo(),
            final(self).dma_sound_b_enable_right() == old(self).dma_sound_b_enable_right(),
            final(self).dma_sound_b_enable_left() == old(self).dma_sound_b_enable_left(),
            final(self).dma_sound_b_timer_select() == old(self).dma_sound_b_timer_select(),
            final(self).dma_sound_b_reset_fifo() == old(self).dma_sound_b_reset_fifo(),
    {
        let old_value = self.value;
        self.value = set_bits(self.value as u32, 3, 1, value as u32) as u16;
        proof {
            lemma_bits_of_with_bits(old_value as u32, 3, 1, value as u32);
            if value < 2 {
                lemma_fits_mask(value as u32, 1);
            }
            lemma_bits_of_with_other_bits(old_value as u32, 3, 1, value as u32, 0, 2);
            lemma_bits_of_with_other_bits(old_value as u32, 3, 1, value as u32, 2, 1);
            lemma_bits_of_with_other_bits(old_value as u32, 3, 1, value as u32, 8, 1);
            lemma_bits_of_with_other_bits(old_value as u32, 3, 1, value as u32, 9, 1);
            lemma_bits_of_with_other_bits(old_value as u32, 3, 1, value as u32, 10, 1);
            lemma_bits_of_with_other_bits(old_value as u32, 3, 1, value as u32, 11, 1);
            lemma_bits_of_with_other_bits(old_value as u32, 3, 1, value as u32, 12, 1);
            lemma_bits_of_with_other_bits(old_value as u32, 3, 1, value as u32, 13, 1);
            lemma_bits_of_with_other_bits(old_value as u32, 3, 1, value as u32, 14, 1);
            lemma_bits_of_with_other_bits(old_value as u32, 3, 1, value as u32, 15, 1);
        }
    }

    /// Bits 8..8.
    pub open spec fn dma_sound_a_enable_right(self) -> u8 {
        bits(self.value as u32, 8, 1) as u8
    }

    /// Reads bits 8..8.
    pub fn get_dma_sound_a_enable_right(&self) -> (r: u8)
        ensures
            r == self.dma_sound_a_enable_right(),
            r < 2,
    {
        get_bits(self.value as u32, 8, 1) as u8
    }

    /// Writes bits 8..8 from the low bits of `value`; every other field keeps its value.
    pub fn set_dma_sound_a_enable_right(&mut self, value: u8)
        ensures
            final(self).value == with_bits(old(self).value as u32, 8, 1, value as u32) as u16,
            value < 2 ==> final(self).dma_sound_a_enable_right() == value,
            final(self).sound_1_4_volume() == old(self).sound_1_4_volume(),
            final(self).dma_sound_a_volume() == old(self).dma_sound_a_volume(),
            final(self).dma_sound_b_volume() == old(self).dma_sound_b_volume(),
            final(self).dma_sound_a_enable_left() == old(self).dma_sound_a_enable_left(),
            final(self).dma_sound_a_timer_select() == old(self).dma_sound_a_timer_select(),
            final(self).dma_sound_a_reset_fifo() == old(self).dma_sound_a_reset_fifo(),
            final(self).dma_sound_b_enable_right() == old(self).dma_sound_b_enable_right(),
            final(self).dma_sound_b_enable_left() == old(self).dma_sound_b_enable_left(),
            final(self).dma_sound_b_timer_select() == old(self).dma_sound_b_timer_select(),
            final(self).dma_sound_b_reset_fifo() == old(self).dma_sound_b_reset_fifo(),
    {
        let old_value = self.value;
        self.value = set_bits(self.value as u32, 8, 1, value as u32) as u16;
        proof {
            lemma_bits_of_with_bits(old_value as u32, 8, 1, value as u32);
            if value < 2 {
                lemma_fits_mask(value as u32, 1);
            }
            lemma_bits_of_with_other_bits(old_value as u32, 8, 1, value as u32, 0, 2);
            lemma_bits_of_with_other_bits(old_value as u32, 8, 1, value as u32, 2, 1);
            lemma_bits_of_with_other_bits(old_value as u32, 8, 1, value as u32, 3, 1);
            lemma_bits_of_with_other_bits(old_value as u32, 8, 1, value as u32, 9, 1);
            lemma_bits_of_with_other_bits(old_value as u32, 8, 1, value as u32, 10, 1);
            lemma_bits_of_with_other_bits(old_value as u32, 8, 1, value as u32, 11, 1);
            lemma_bits_of_with_other_bits(old_value as u32, 8, 1, value as u32, 12, 1);
            lemma_bits_of_with_other_bits(old_value as u32, 8, 1, value as u32, 13, 1);
            lemma_bits_of_with_other_bits(old_value as u32, 8, 1, value as u32, 14, 1);
            lemma_bits_of_with_other_bits(old_value as u32, 8, 1, value as u32, 15, 1);
        }
    }

    /// Bits 9..9.
    pub open spec fn dma_sound_a_enable_left(self) -> u8 {
        bits(self.value as u32, 9, 1) as u8
    }

    /// Reads bits 9..9.
    pub fn get_dma_sound_a_enable_left(&self) -> (r: u8)
        ensures
            r == self.dma_sound_a_enable_left(),
            r < 2,
    {
        get_bits(self.value as u32, 9, 1) as u8
    }

    /// Writes bits 9..9 from the low bits of `value`; every other field keeps its value.
    pub fn set_dma_sound_a_enable_left(&mut self, value: u8)
        ensures
            final(self).value == with_bits(old(self).value as u32, 9, 1, value as u32) as u16,
            value < 2 ==> final(self).dma_sound_a_enable_left() == value,
            final(self).sound_1_4_volume() == old(self).sound_1_4_volume(),
            final(self).dma_sound_a_volume() == old(self).dma_sound_a_volume(),
            final(self).dma_sound_b_volume() == old(self).dma_sound_b_volume(),
            final(self).dma_sound_a_enable_right() == old(self).dma_sound_a_enable_right(),
            final(self).dma_sound_a_timer_select() == old(self).dma_sound_a_timer_select(),
            final(self).dma_sound_a_reset_fifo() == old(self).dma_sound_a_reset_fifo(),
            final(self).dma_sound_b_enable_right() == old(self).dma_sound_b_enable_right(),
            final(self).dma_sound_b_enable_left() == old(self).dma_sound_b_enable_left(),
            final(self).dma_sound_b_timer_select() == old(self).dma_sound_b_timer_select(),
            final(self).dma_sound_b_reset_fifo() == old(self).dma_sound_b_reset_fifo(),
    {
        let old_value = self.value;
        self.value = set_bits(self.value as u32, 9, 1, value as u32) as u16;
        proof {
            lemma_bits_of_with_bits(old_value as u32, 9, 1, value as u32);
            if value < 2 {
                lemma_fits_mask(value as u32, 1);
            }
            lemma_bits_of_with_other_bits(old_value as u32, 9, 1, value as u32, 0, 2);
            lemma_bits_of_with_other_bits(old_value as u32, 9, 1, value as u32, 2, 1);
            lemma_bits_of_with_other_bits(old_value as u32, 9, 1, value as u32, 3, 1);
            lemma_bits_of_with_other_bits(old_value as u32, 9, 1, value as u32, 8, 1);
            lemma_bits_of_with_other_bits(old_value as u32, 9, 1, value as u32, 10, 1);
            lemma_bits_of_with_other_bits(old_value as u32, 9, 1, value as u32, 11, 1);
            lemma_bits_of_with_other_bits(old_value as u32, 9, 1, value as u32, 12, 1);
            lemma_bits_of_with_other_bits(old_value as u32, 9, 1, value as u32, 13, 1);
            lemma_bits_of_with_other_bits(old_value as u32, 9, 1, value as u32, 14, 1);
            lemma_bits_of_with_other_bits(old_value as u32, 9, 1, value as u32, 15, 1);
        }
    }

    /// Bits 10..10.
    pub open spec fn dma_sound_a_timer_select(self) -> u8 {
        bits(self.value as u32, 10, 1) as u8
    }

    /// Reads bits 10..10.
    pub fn get_dma_sound_a_timer_select(&self) -> (r: u8)
        ensures
            r == self.dma_sound_a_timer_select(),
            r < 2,
    {
        get_bits(self.value as u32, 10, 1) as u8
    }

    /// Writes bits 10..10 from the low bits of `value`; every other field keeps its value.
    pub fn set_dma_sound_a_timer_select(&mut self, value: u8)
        ensures
            final(self).value == with_bits(old(self).value as u32, 10, 1, value as u32) as u16,
            value < 2 ==> final(self).dma_sound_a_timer_select() == value,
            final(self).sound_1_4_volume() == old(self).sound_1_4_volume(),
            final(self).dma_sound_a_volume() == old(self).dma_sound_a_volume(),
            final(self).dma_sound_b_volume() == old(self).dma_sound_b_volume(),
            final(self).dma_sound_a_enable_right() == old(self).dma_sound_a_enable_right(),
            final(self).dma_sound_a_enable_left() == old(self).dma_sound_a_enable_left(),
            final(self).dma_sound_a_reset_fifo() == old(self).dma_sound_a_reset_fifo(),
            final(self).dma_sound_b_enable_right() == old(self).dma_sound_b_enable_right(),
            final(self).dma_sound_b_enable_left() == old(self).dma_sound_b_enable_left(),
            final(self).dma_sound_b_timer_select() == old(self).dma_sound_b_timer_select(),
            final(self).dma_sound_b_reset_fifo() == old(self).dma_sound_b_reset_fifo(),
    {
        let old_value = self.value;
        self.value = set_bits(self.value as u32, 10, 1, value as u32) as u16;
        proof {
            lemma_bits_of_with_bits(old_value as u32, 10, 1, value as u32);
            if value < 2 {
                lemma_fits_mask(value as u32, 1);
            }
            lemma_bits_of_with_other_bits(old_value as u32, 10, 1, value as u32, 0, 2);
            lemma_bits_of_with_other_bits(old_value as u32, 10, 1, value as u32, 2, 1);
            lemma_bits_of_with_other_bits(old_value as u32, 10, 1, value as u32, 3, 1);
            lemma_bits_of_with_other_bits(old_value as u32, 10, 1, value as u32, 8, 1);
            lemma_bits_of_with_other_bits(old_value as u32, 10, 1, value as u32, 9, 1);
            lemma_bits_of_with_other_bits(old_value as u32, 10, 1, value as u32, 11, 1);
            lemma_bits_of_with_other_bits(old_value as u32, 10, 1, value as u32, 12, 1);
            lemma_bits_of_with_other_bits(old_value as u32, 10, 1, value as u32, 13, 1);
            lemma_bits_of_with_other_bits(old_value as u32, 10, 1, value as u32, 14, 1);
            lemma_bits_of_with_other_bits(old_value as u32, 10, 1, value as u32, 15, 1);
        }
    }

    /// Bits 11..11.
    pub open spec fn dma_sound_a_reset_fifo(self) -> u8 {
        bits(self.value as u32, 11, 1) as u8
    }

    /// Reads bits 11..11.
    pub fn get_dma_sound_a_reset_fifo(&self) -> (r: u8)
        ensures
            r == self.dma_sound_a_reset_fifo(),
            r < 2,
    {
        get_bits(self.value as u32, 11, 1) as u8
    }

    /// Writes bits 11..11 from the low bits of `value`; every other field keeps its value.
    pub fn set_dma_sound_a_reset_fifo(&mut self, value: u8)
        ensures
            final(self).value == with_bits(old(self).value as u32, 11, 1, value as u32) as u16,
            value < 2 ==> final(self).dma_sound_a_reset_fifo() == value,
            final(self).sound_1_4_volume() == old(self).sound_1_4_volume(),
            final(self).dma_sound_a_volume() == old(self).dma_sound_a_volume(),
            final(self).dma_sound_b_volume() == old(self).dma_sound_b_volume(),
            final(self).dma_sound_a_enable_right() == old(self).dma_sound_a_enable_right(),
            final(self).dma_sound_a_enable_left() == old(self).dma_sound_a_enable_left(),
            final(self).dma_sound_a_timer_select() == old(self).dma_sound_a_timer_select(),
            final(self).dma_sound_b_enable_right() == old(self).dma_sound_b_enable_right(),
            final(self).dma_sound_b_enable_left() == old(self).dma_sound_b_enable_left(),
            final(self).dma_sound_b_timer_select() == old(self).dma_sound_b_timer_select(),
            final(self).dma_sound_b_reset_fifo() == old(self).dma_sound_b_reset_fifo(),
    {
        let old_value = self.value;
        self.value = set_bits(self.value as u32, 11, 1, value as u32) as u16;
        proof {
            lemma_bits_of_with_bits(old_value as u32, 11, 1, value as u32);
            if value < 2 {
                lemma_fits_mask(value as u32, 1);
            }
            lemma_bits_of_with_other_bits(old_value as u32, 11, 1, value as u32, 0, 2);
            lemma_bits_of_with_other_bits(old_value as u32, 11, 1, value as u32, 2, 1);
            lemma_bits_of_with_other_bits(old_value as u32, 11, 1, value as u32, 3, 1);
            lemma_bits_of_with_other_bits(old_value as u32, 11, 1, value as u32, 8, 1);
            lemma_bits_of_with_other_bits(old_value as u32, 11, 1, value as u32, 9, 1);
            lemma_bits_of_with_other_bits(old_value as u32, 11, 1, value as u32, 10, 1);
            lemma_bits_of_with_other_bits(old_value as u32, 11, 1, value as u32, 12, 1);
            lemma_bits_of_with_other_bits(old_value as u32, 11, 1, value as u32, 13, 1);
            lemma_bits_of_with_other_bits(old_value as u32, 11, 1, value as u32, 14, 1);
            lemma_bits_of_with_other_bits(old_value as u32, 11, 1, value as u32, 15, 1);
        }
    }

    /// Bits 12..12.
    pub open spec fn dma_sound_b_enable_right(self) -> u8 {
        bits(self.value as u32, 12, 1) as u8
    }

    /// Reads bits 12..12.
    pub fn get_dma_sound_b_enable_right(&self) -> (r: u8)
        ensures
            r == self.dma_sound_b_enable_right(),
            r < 2,
    {
        get_bits(self.value as u32, 12, 1) as u8
    }

    /// Writes bits 12..12 from the low bits of `value`; every other field keeps its value.
    pub fn set_dma_sound_b_enable_right(&mut self, value: u8)
        ensures
            final(self).value == with_bits(old(self).value as u32, 12, 1, value as u32) as u16,
            value < 2 ==> final(self).dma_sound_b_enable_right() == value,
            final(self).sound_1_4_volume() == old(self).sound_1_4_volume(),
            final(self).dma_sound_a_volume() == old(self).dma_sound_a_volume(),
            final(self).dma_sound_b_volume() == old(self).dma_sound_b_volume(),
            final(self).dma_sound_a_enable_right() == old(self).dma_sound_a_enable_right(),
            final(self).dma_sound_a_enable_left() == old(self).dma_sound_a_enable_left(),
            final(self).dma_sound_a_timer_select() == old(self).dma_sound_a_timer_select(),
            final(self).dma_sound_a_reset_fifo() == old(self).dma_sound_a_reset_fifo(),
            final(self).dma_sound_b_enable_left() == old(self).dma_sound_b_enable_left(),
            final(self).dma_sound_b_timer_select() == old(self).dma_sound_b_timer_select(),
            final(self).dma_sound_b_reset_fifo() == old(self).dma_sound_b_reset_fifo(),
    {
        let old_value = self.value;
        self.value = set_bits(self.value as u32, 12, 1, value as u32) as u16;
        proof {
            lemma_bits_of_with_bits(old_value as u32, 12, 1, value as u32);
            if value < 2 {
                lemma_fits_mask(value as u32, 1);
            }
            lemma_bits_of_with_other_bits(old_value as u32, 12, 1, value as u32, 0, 2);
            lemma_bits_of_with_other_bits(old_value as u32, 12, 1, value as u32, 2, 1);
            lemma_bits_of_with_other_bits(old_value as u32, 12, 1, value as u32, 3, 1);
            lemma_bits_of_with_other_bits(old_value as u32, 12, 1, value as u32, 8, 1);
            lemma_bits_of_with_other_bits(old_value as u32, 12, 1, value as u32, 9, 1);
            lemma_bits_of_with_other_bits(old_value as u32, 12, 1, value as u32, 10, 1);
            lemma_bits_of_with_other_bits(old_value as u32, 12, 1, value as u32, 11, 1);
            lemma_bits_of_with_other_bits(old_value as u32, 12, 1, value as u32, 13, 1);
            lemma_bits_of_with_other_bits(old_value as u32, 12, 1, value as u32, 14, 1);
            lemma_bits_of_with_other_bits(old_value as u32, 12, 1, value as u32, 15, 1);
        }
    }

    /// Bits 13..13.
    pub open spec fn dma_sound_b_enable_left(self) -> u8 {
        bits(self.value as u32, 13, 1) as u8
    }

    /// Reads bits 13..13.
    pub fn get_dma_sound_b_enable_left(&self) -> (r: u8)
        ensures
            r == self.dma_sound_b_enable_left(),
            r < 2,
    {
        get_bits(self.value as u32, 13, 1) as u8
    }

    /// Writes bits 13..13 from the low bits of `value`; every other field keeps its value.
    pub fn set_dma_sound_b_enable_left(&mut self, value: u8)
        ensures
            final(self).value == with_bits(old(self).value as u32, 13, 1, value as u32) as u16,
            value < 2 ==> final(self).dma_sound_b_enable_left() == value,
            final(self).sound_1_4_volume() == old(self).sound_1_4_volume(),
            final(self).dma_sound_a_volume() == old(self).dma_sound_a_volume(),
            final(self).dma_sound_b_volume() == old(self).dma_sound_b_volume(),
            final(self).dma_sound_a_enable_right() == old(self).dma_sound_a_enable_right(),
            final(self).dma_sound_a_enable_left() == old(self).dma_sound_a_enable_left(),
            final(self).dma_sound_a_timer_select() == old(self).dma_sound_a_timer_select(),
            final(self).dma_sound_a_reset_fifo() == old(self).dma_sound_a_reset_fifo(),
            final(self).dma_sound_b_enable_right() == old(self).dma_sound_b_enable_right(),
            final(self).dma_sound_b_timer_select() == old(self).dma_sound_b_timer_select(),
            final(self).dma_sound_b_reset_fifo() == old(self).dma_sound_b_reset_fifo(),
    {
        let old_value = self.value;
        self.value = set_bits(self.value as u32, 13, 1, value as u32) as u16;
        proof {
            lemma_bits_of_with_bits(old_value as u32, 13, 1, value as u32);
            if value < 2 {
                lemma_fits_mask(value as u32, 1);
            }
            lemma_bits_of_with_other_bits(old_value as u32, 13, 1, value as u32, 0, 2);
            lemma_bits_of_with_other_bits(old_value as u32, 13, 1, value as u32, 2, 1);
            lemma_bits_of_with_other_bits(old_value as u32, 13, 1, value as u32, 3, 1);
            lemma_bits_of_with_other_bits(old_value as u32, 13, 1, value as u32, 8, 1);
            lemma_bits_of_with_other_bits(old_value as u32, 13, 1, value as u32, 9, 1);
            lemma_bits_of_with_other_bits(old_value as u32, 13, 1, value as u32, 10, 1);
            lemma_bits_of_with_other_bits(old_value as u32, 13, 1, value as u32, 11, 1);
            lemma_bits_of_with_other_bits(old_value as u32, 13, 1, value as u32, 12, 1);
            lemma_bits_of_with_other_bits(old_value as u32, 13, 1, value as u32, 14, 1);
            lemma_bits_of_with_other_bits(old_value as u32, 13, 1, value as u32, 15, 1);
        }
    }

    /// Bits 14..14.
    pub open spec fn dma_sound_b_timer_select(self) -> u8 {
        bits(self.value as u32, 14, 1) as u8
    }

    /// Reads bits 14..14.
    pub fn get_dma_sound_b_timer_select(&self) -> (r: u8)
        ensures
            r == self.dma_sound_b_timer_select(),
            r < 2,
    {
        get_bits(self.value as u32, 14, 1) as u8
    }

    /// Writes bits 14..14 from the low bits of `value`; every other field keeps its value.
    pub fn set_dma_sound_b_timer_select(&mut self, value: u8)
        ensures
            final(self).value == with_bits(old(self).value as u32, 14, 1, value as u32) as u16,
            value < 2 ==> final(self).dma_sound_b_timer_select() == value,
            final(self).sound_1_4_volume() == old(self).sound_1_4_volume(),
            final(self).dma_sound_a_volume() == old(self).dma_sound_a_volume(),
            final(self).dma_sound_b_volume() == old(self).dma_sound_b_volume(),
            final(self).dma_sound_a_enable_right() == old(self).dma_sound_a_enable_right(),
            final(self).dma_sound_a_enable_left() == old(self).dma_sound_a_enable_left(),
            final(self).dma_sound_a_timer_select() == old(self).dma_sound_a_timer_select(),
            final(self).dma_sound_a_reset_fifo() == old(self).dma_sound_a_reset_fifo(),
            final(self).dma_sound_b_enable_right() == old(self).dma_sound_b_enable_right(),
            final(self).dma_sound_b_enable_left() == old(self).dma_sound_b_enable_left(),
            final(self).dma_sound_b_reset_fifo() == old(self).dma_sound_b_reset_fifo(),
    {
        let old_value = self.value;
        self.value = set_bits(self.value as u32, 14, 1, value as u32) as u16;
        proof {
            lemma_bits_of_with_bits(old_value as u32, 14, 1, value as u32);
            if value < 2 {
                lemma_fits_mask(value as u32, 1);
            }
            lemma_bits_of_with_other_bits(old_value as u32, 14, 1, value as u32, 0, 2);
            lemma_bits_of_with_other_bits(old_value as u32, 14, 1, value as u32, 2, 1);
            lemma_bits_of_with_other_bits(old_value as u32, 14, 1, value as u32, 3, 1);
            lemma_bits_of_with_other_bits(old_value as u32, 14, 1, value as u32, 8, 1);
            lemma_bits_of_with_other_bits(old_value as u32, 14, 1, value as u32, 9, 1);
            lemma_bits_of_with_other_bits(old_value as u32, 14, 1, value as u32, 10, 1);
            lemma_bits_of_with_other_bits(old_value as u32, 14, 1, value as u32, 11, 1);
            lemma_bits_of_with_other_bits(old_value as u32, 14, 1, value as u32, 12, 1);
            lemma_bits_of_with_other_bits(old_value as u32, 14, 1, value as u32, 13, 1);
            lemma_bits_of_with_other_bits(old_value as u32, 14, 1, value as u32, 15, 1);
        }
    }

    /// Bits 15..15.
    pub open spec fn dma_sound_b_reset_fifo(self) -> u8 {
        bits(self.value as u32, 15, 1) as u8
    }

    /// Reads bits 15..15.
    pub fn get_dma_sound_b_reset_fifo(&self) -> (r: u8)
        ensures
            r == self.dma_sound_b_reset_fifo(),
            r < 2,
    {
        get_bits(self.value as u32, 15, 1) as u8
    }

    /// Writes bits 15..15 from the low bits of `value`; every other field keeps its value.
    pub fn set_dma_sound_b_reset_fifo(&mut self, value: u8)
        ensures
            final(self).value == with_bits(old(self).value as u32, 15, 1, value as u32) as u16,
            value < 2 ==> final(self).dma_sound_b_reset_fifo() == value,
            final(self).sound_1_4_volume() == old(self).sound_1_4_volume(),
            final(self).dma_sound_a_volume() == old(self).dma_sound_a_volume(),
            final(self).dma_sound_b_volume() == old(self).dma_sound_b_volume(),
            final(self).dma_sound_a_enable_right() == old(self).dma_sound_a_enable_right(),
            final(self).dma_sound_a_enable_left() == old(self).dma_sound_a_enable_left(),
            final(self).dma_sound_a_timer_select() == old(self).dma_sound_a_timer_select(),
            final(self).dma_sound_a_reset_fifo() == old(self).dma_sound_a_reset_fifo(),
            final(self).dma_sound_b_enable_right() == old(self).dma_sound_b_enable_right(),
            final(self).dma_sound_b_enable_left() == old(self).dma_sound_b_enable_left(),
            final(self).dma_sound_b_timer_select() == old(self).dma_sound_b_timer_select(),
    {
        let old_value = self.value;
        self.value = set_bits(self.value as u32, 15, 1, value as u32) as u16;
        proof {
            lemma_bits_of_with_bits(old_value as u32, 15, 1, value as u32);
            if value < 2 {
                lemma_fits_mask(value as u32, 1);
            }
            lemma_bits_of_with_other_bits(old_value as u32, 15, 1, value as u32, 0, 2);
            lemma_bits_of_with_other_bits(old_value as u32, 15, 1, value as u32, 2, 1);
            lemma_bits_of_with_other_bits(old_value as u32, 15, 1, value as u32, 3, 1);
            lemma_bits_of_with_other_bits(old_value as u32, 15, 1, value as u32, 8, 1);
            lemma_bits_of_with_other_bits(old_value as u32, 15, 1, value as u32, 9, 1);
            lemma_bits_of_with_other_bits(old_value as u32, 15, 1, value as u32, 10, 1);
            lemma_bits_of_with_other_bits(old_value as u32, 15, 1, value as u32, 11, 1);
            lemma_bits_of_with_other_bits(old_value as u32, 15, 1, value as u32, 12, 1);
            lemma_bits_of_with_other_bits(old_value as u32, 15, 1, value as u32, 13, 1);
            lemma_bits_of_with_other_bits(old_value as u32, 15, 1, value as u32, 14, 1);
        }
    }
}

/// Master sound switch (SOUNDCNT_X).
#[derive(Clone, Copy, Debug, PartialEq, Eq, Structural)]
pub struct SoundControlX {
    pub value: u16,
}

impl SoundControlX {
    /// A register holding zero.
    pub fn new() -> (r: SoundControlX)
        ensures
            r.value == 0,
    {
        SoundControlX { value: 0 }
    }

    /// The whole register.
    pub fn get_register(&self) -> (r: u16)
        ensures
            r == self.value,
    {
        self.value
    }

    /// Writes the whole register from the low bits of `value`.
    pub fn set_register(&mut self, value: u32)
        ensures
            final(self).value == value as u16,
    {
        self.value = value as u16;
    }

    /// Bits 7..7.
    pub open spec fn psg_fifo_master_enable(self) -> u8 {
        bits(self.value as u32, 7, 1) as u8
    }

    /// Reads bits 7..7.
    pub fn get_psg_fifo_master_enable(&self) -> (r: u8)
        ensures
            r == self.psg_fifo_master_enable(),
            r < 2,
    {
        get_bits(self.value as u32, 7, 1) as u8
    }

    /// Writes bits 7..7 from the low bits of `value`; every other field keeps its value.
    pub fn set_psg_fifo_master_enable(&mut self, value: u8)
        ensures
            final(self).value == with_bits(old(self).value as u32, 7, 1, value as u32) as u16,
            value < 2 ==> final(self).psg_fifo_master_enable() == value,
    {
        let old_value = self.value;
        self.value = set_bits(self.value as u32, 7, 1, value as u32) as u16;
        proof {
            lemma_bits_of_with_bits(old_value as u32, 7, 1, value as u32);
            if value < 2 {
                lemma_fits_mask(value as u32, 1);
            }
        }
    }
}

/// Output bias of the sound mixer (SOUNDBIAS).
#[derive(Clone, Copy, Debug, PartialEq, Eq, Structural)]
pub struct SoundBias {
    pub value: u16,
}

impl SoundBias {
    /// A register holding zero.
    pub fn new() -> (r: SoundBias)
        ensures
            r.value == 0,
    {
        SoundBias { value: 0 }
    }

    /// The whole register.
    pub fn get_register(&self) -> (r: u16)
        ensures
            r == self.value,
    {
        self.value
    }

    /// Writes the whole register from the low bits of `value`.
    pub fn set_register(&mut self, value: u32)
        ensures
            final(self).value == value as u16,
    {
        self.value = value as u16;
    }

    /// Bits 9..1.
    pub open spec fn bias_level(self) -> u16 {
        bits(self.value as u32, 1, 9) as u16
    }

    /// Reads bits 9..1.
    pub fn get_bias_level(&self) -> (r: u16)
        ensures
            r == self.bias_level(),
            r < 512,
    {
        get_bits(self.value as u32, 1, 9) as u16
    }

    /// Writes bits 9..1 from the low bits of `value`; every other field keeps its value.
    pub fn set_bias_level(&mut self, value: u16)
        ensures
            final(self).value == with_bits(old(self).value as u32, 1, 9, value as u32) as u16,
            value < 512 ==> final(self).bias_level() == value,
            final(self).amplitude_resolution() == old(self).amplitude_resolution(),
    {
        let old_value = self.value;
        self.value = set_bits(self.value as u32, 1, 9, value as u32) as u16;
        proof {
            lemma_bits_of_with_bits(old_value as u32, 1, 9, value as u32);
            if value < 512 {
                lemma_fits_mask(value as u32, 9);
            }
            lemma_bits_of_with_other_bits(old_value as u32, 1, 9, value as u32, 14, 2);
        }
    }

    /// Bits 15..14.
    pub open spec fn amplitude_resolution(self) -> u8 {
        bits(self.value as u32, 14, 2) as u8
    }

    /// Reads bits 15..14.
    pub fn get_amplitude_resolution(&self) -> (r: u8)
        ensures
            r == self.amplitude_resolution(),
            r < 4,
    {
        get_bits(self.value as u32, 14, 2) as u8
    }

    /// Writes bits 15..14 from the low bits of `value`; every other field keeps its value.
    pub fn set_amplitude_resolution(&mut self, value: u8)
        ensures
            final(self).value == with_bits(old(self).value as u32, 14, 2, value as u32) as u16,
            value < 4 ==> final(self).amplitude_resolution() == value,
            final(self).bias_level() == old(self).bias_level(),
    {
        let old_value = self.value;
        self.value = set_bits(self.value as u32, 14, 2, value as u32) as u16;
        proof {
            lemma_bits_of_with_bits(old_value as u32, 14, 2, value as u32);
            if value < 4 {
                lemma_fits_mask(value as u32, 2);
            }
            lemma_bits_of_with_other_bits(old_value as u32, 14, 2, value as u32, 1, 9);
        }
    }
}

} // verus!
