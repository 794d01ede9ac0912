use vstd::prelude::*;
use crate::memory::sound_registers::{SoundChannelControlWaveHigh, SoundChannelControlWaveLow, SoundChannelControlWaveX};
use crate::memory::wave_ram::WaveRam;
use super::timing::{expirations, lemma_expirations};

verus! {

/// The cycles between two wave samples at a given sample rate value.
pub open spec fn wave_step_period(frequency: u16) -> int {
    8 * (2048 - frequency)
}

/// The wave channel: plays 4-bit samples out of wave RAM.
pub struct WaveChannel {
    pub low: SoundChannelControlWaveLow,
    pub high: SoundChannelControlWaveHigh,
    pub x: SoundChannelControlWaveX,
    pub enabled: bool,
    pub frequency_timer: i32,
    pub sample_position: u8,
    pub length_counter: u16,
}

impl WaveChannel {
    /// The sample position is one of the 64 positions of both banks.
    pub open spec fn wf(&self) -> bool {
        self.sample_position < 64
    }

    /// Whether the playback switch (the channel's DAC) is on.
    pub open spec fn dac_on(&self) -> bool {
        self.low.sound_channel_3_off() != 0
    }

    /// How many samples one pass plays: 64 (both banks) in the two-bank
    /// dimension, 32 otherwise.
    pub open spec fn sample_count(&self) -> int {
        if self.low.wave_ram_dimension() != 0 { 64 } else { 32 }
    }

    /// The 4-bit sample at the current position: the bank is the selected one
    /// for the first 32 positions and the other one after; the high nibble of
    /// each byte comes first.
    pub open spec fn raw_sample(&self, ram: WaveRam) -> u8 {
        let bank = if self.sample_position < 32 {
            self.low.wave_ram_bank_number()
        } else {
            (self.low.wave_ram_bank_number() ^ 1u8) as u8
        };
        let byte = ram.bytes@[bank * 16 + (self.sample_position % 32) / 2];
        if self.sample_position % 2 == 0 { (byte >> 4u8) as u8 } else { (byte & 0xFu8) as u8 }
    }

    /// The output level: the 4-bit sample scaled by the volume field (mute,
    /// 100%, 50%, 25%), or 75% when the force-volume bit is set; zero while the
    /// channel or its DAC is off.
    pub open spec fn output(&self, wave_ram: WaveRam) -> u8 {
        if !self.enabled || !self.dac_on() {
            0
        } else if self.high.force_volume() != 0 {
            (self.raw_sample(wave_ram) * 3 / 4) as u8
        } else if self.high.sound_volume() == 0 {
            0
        } else if self.high.sound_volume() == 1 {
            self.raw_sample(wave_ram)
        } else if self.high.sound_volume() == 2 {
            (self.raw_sample(wave_ram) >> 1u8) as u8
        } else {
            (self.raw_sample(wave_ram) >> 2u8) as u8
        }
    }

    /// A silent, untriggered channel.
    pub fn new() -> (ch: WaveChannel)
        ensures
            ch.wf(),
            ch.low.value == 0 && ch.high.value == 0 && ch.x.value == 0,
            !ch.enabled,
            ch.frequency_timer == 1,
            ch.sample_position == 0,
            ch.length_counter == 0,
    {
        WaveChannel {
            low: SoundChannelControlWaveLow::new(),
            high: SoundChannelControlWaveHigh::new(),
            x: SoundChannelControlWaveX::new(),
            enabled: false,
            frequency_timer: 1,
            sample_position: 0,
            length_counter: 0,
        }
    }

    /// The cycles between two wave samples at a given sample rate value.
    pub fn step_period(frequency: u16) -> (period: i32)
        ensures
            period == wave_step_period(frequency),
    {
        8 * (2048 - frequency as i32)
    }

    fn dac_enabled(&self) -> (on: bool)
        ensures
            on == self.dac_on(),
    {
        self.low.get_sound_channel_3_off() != 0
    }

    /// Whether the channel is playing: triggered and with its DAC on.
    pub fn is_active(&self) -> (active: bool)
        ensures
            active == (self.enabled && self.dac_on()),
    {
        self.enabled && self.dac_enabled()
    }

    /// The wave RAM dimension field.
    pub fn get_dimension(&self) -> (d: u8)
        ensures
            d == self.low.wave_ram_dimension(),
    {
        self.low.get_wave_ram_dimension()
    }

    /// The wave RAM bank number field.
    pub fn get_bank_number(&self) -> (b: u8)
        ensures
            b == self.low.wave_ram_bank_number(),
            b < 2,
    {
        self.low.get_wave_ram_bank_number()
    }

    /// Restarts the channel: it plays only if its DAC is on, the timer is
    /// loaded, playback starts at the first sample, and an expired length
    /// counter is reloaded to 256 minus the length field.
    pub fn on_trigger(&mut self)
        ensures
            final(self).wf(),
            final(self).enabled == old(self).dac_on(),
            final(self).frequency_timer == wave_step_period(old(self).x.sample_rate()),
            final(self).sample_position == 0,
            final(self).length_counter == if old(self).length_counter == 0 {
                256 - old(self).high.sound_length()
            } else {
                old(self).length_counter as int
            },
            final(self).low == old(self).low,
            final(self).high == old(self).high,
            final(self).x == old(self).x,
    {
        self.enabled = self.dac_enabled();
        self.frequency_timer = Self::step_period(self.x.get_sample_rate());
        self.sample_position = 0;
        if self.length_counter == 0 {
            self.length_counter = 256 - self.high.get_sound_length() as u16;
        }
    }

    /// Lets `cycles` cycles pass while the channel plays: every expiry of the
    /// timer reloads it by one period and moves to the next sample, wrapping
    /// after the last one; a DAC that is off then stops the channel.
    pub fn step(&mut self, cycles: i32)
        requires
            old(self).wf(),
            old(self).enabled ==> i32::MIN <= old(self).frequency_timer - cycles,
            old(self).enabled ==> old(self).frequency_timer - cycles <= i32::MAX,
        ensures
            final(self).wf(),
            !old(self).enabled ==> *final(self) == *old(self),
            old(self).enabled ==> {
                let t = old(self).frequency_timer - cycles;
                let p = if wave_step_period(old(self).x.sample_rate()) >= 1 { wave_step_period(old(self).x.sample_rate()) } else { 1 };
                let n = expirations(t, p);
                &&& final(self).frequency_timer == t + n * p
                &&& final(self).sample_position == if n == 0 {
                    old(self).sample_position as int
                } else {
                    (old(self).sample_position + n) % old(self).sample_count()
                }
                &&& final(self).enabled == old(self).dac_on()
            },
            final(self).low == old(self).low,
            final(self).high == old(self).high,
            final(self).x == old(self).x,
            final(self).length_counter == old(self).length_counter,
    {
        if !self.enabled {
            return;
        }
        let ghost t: int = self.frequency_timer - cycles;
        let ghost s0: int = self.sample_position as int;
        let sample_count: u8 = if self.low.get_wave_ram_dimension() != 0 { 64 } else { 32 };
        let period = Self::step_period(self.x.get_sample_rate());
        let p: i32 = if period >= 1 { period } else { 1 };
        self.frequency_timer = self.frequency_timer - cycles;
        let ghost mut n: int = 0;
        while self.frequency_timer <= 0
            invariant
                1 <= p <= 16384,
                p == (if wave_step_period(old(self).x.sample_rate()) >= 1 { wave_step_period(old(self).x.sample_rate()) } else { 1 }),
                sample_count == old(self).sample_count(),
                n >= 0,
                self.frequency_timer == t + n * p,
                n > 0 ==> t + (n - 1) * p <= 0,
                0 <= s0 < 64,
                n == 0 ==> self.sample_position == s0,
                n > 0 ==> self.sample_position == (s0 + n) % (sample_count as int),
                self.sample_position < 64,
                *self == (WaveChannel {
                    frequency_timer: self.frequency_timer,
                    sample_position: self.sample_position,
                    ..*old(self)
                }),
            decreases p - self.frequency_timer,
        {
            assert(t + (n + 1) * p == t + n * p + p) by (nonlinear_arith);
            proof {
                let c = sample_count as int;
                if n == 0 {
                    assert((s0 + 1) % c == (s0 + 1) % c);
                } else {
                    assert((s0 + n + 1) % c == ((s0 + n) % c + 1) % c) by (nonlinear_arith)
                        requires c == 32 || c == 64;
                }
            }
            self.frequency_timer = self.frequency_timer + p;
            self.sample_position = (self.sample_position + 1) % sample_count;
            proof {
                n = n + 1;
            }
        }
        proof {
            lemma_expirations(t, p as int, n);
        }
        if !self.dac_enabled() {
            self.enabled = false;
        }
    }

    /// `self` is `before` with its length counter clocked: counted down when
    /// length is enabled, reaching zero switching the channel off.
    pub open spec fn is_length_clock_of(self, before: WaveChannel) -> bool {
        let counting = before.x.length_flag() != 0 && before.length_counter > 0;
        &&& self.length_counter == if counting { before.length_counter - 1 } else { before.length_counter as int }
        &&& self.enabled == (before.enabled && !(counting && before.length_counter == 1))
        &&& self == (WaveChannel { length_counter: self.length_counter, enabled: self.enabled, ..before })
    }

    /// Clocks the length counter (see `is_length_clock_of`).
    pub fn clock_length(&mut self)
        ensures
            final(self).is_length_clock_of(*old(self)),
    {
        if self.x.get_length_flag() != 0 && self.length_counter > 0 {
            self.length_counter = self.length_counter - 1;
            if self.length_counter == 0 {
                self.enabled = false;
            }
        }
    }

    /// The current output level: the 4-bit sample scaled by the volume field
    /// (mute, 100%, 50%, 25%), or 75% when the force-volume bit is set; zero
    /// while the channel or its DAC is off.
    pub fn amplitude(&self, wave_ram: &WaveRam) -> (level: u8)
        requires
            self.wf(),
        ensures
            level == self.output(*wave_ram),
    {
        if !self.enabled || !self.dac_enabled() {
            return 0;
        }
        let bank_number = self.low.get_wave_ram_bank_number();
        let playback_bank = if self.sample_position < 32 { bank_number } else { bank_number ^ 1 };
        assert(playback_bank < 2) by (bit_vector)
            requires
                bank_number < 2,
                playback_bank == bank_number || playback_bank == bank_number ^ 1u8,
        ;
        let byte_offset = ((self.sample_position % 32) / 2) as u32;
        let byte = wave_ram.read_wave_ram_byte(playback_bank, byte_offset);
        let raw = if self.sample_position % 2 == 0 { byte >> 4 } else { byte & 0xF };
        assert(raw < 16) by (bit_vector)
            requires raw == byte >> 4u8 || raw == byte & 0xFu8;
        if self.high.get_force_volume() != 0 {
            (raw as u32 * 3 / 4) as u8
        } else {
            match self.high.get_sound_volume() {
                0 => 0,
                1 => raw,
                2 => raw >> 1,
                _ => raw >> 2,
            }
        }
    }
}

} // verus!
