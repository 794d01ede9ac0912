use vstd::prelude::*;
use crate::memory::sound_registers::{SoundChannelControlNoiseHigh, SoundChannelControlNoiseLow};
use super::timing::{expirations, lemma_expirations};

verus! {

/// The divisor that a dividing-ratio code selects, scaled for the GBA clock.
pub open spec fn gb_divisor(r: u8) -> int {
    if r == 0 { 8 } else { 16 * r }
}

/// The cycles between two shifts of the noise register for a dividing ratio
/// and a shift clock frequency.
pub open spec fn noise_step_period(r: u8, s: u8) -> int {
    gb_divisor(r) * 4 * vstd::arithmetic::power2::pow2(s as nat)
}

/// One shift of the noise register: the XOR of its two lowest bits is shifted
/// in at bit 14, and in the narrow (7-bit) mode also copied into bit 6.
pub open spec fn lfsr_next(lfsr: u16, narrow: bool) -> u16 {
    let feedback = (lfsr & 1u16) ^ ((lfsr >> 1u16) & 1u16);
    let shifted = (lfsr >> 1u16) | (feedback << 14u16);
    if narrow { (shifted & !(1u16 << 6u16)) | (feedback << 6u16) } else { shifted }
}

/// The noise register after `n` shifts.
pub open spec fn lfsr_clocked(lfsr: u16, n: nat, narrow: bool) -> u16
    decreases n,
{
    if n == 0 { lfsr } else { lfsr_next(lfsr_clocked(lfsr, (n - 1) as nat, narrow), narrow) }
}

/// One shift keeps the register within 15 bits, and in the narrow mode
/// bit 6 holds the same bit as bit 14 afterwards.
proof fn lemma_lfsr_next(lfsr: u16, narrow: bool)
    ensures
        lfsr <= 0x7FFF ==> lfsr_next(lfsr, narrow) <= 0x7FFF,
        narrow && lfsr <= 0x7FFF ==> (lfsr_next(lfsr, narrow) >> 6u16) & 1 == (lfsr_next(lfsr, narrow) >> 14u16) & 1,
{
    let feedback = (lfsr & 1u16) ^ ((lfsr >> 1u16) & 1u16);
    let shifted = (lfsr >> 1u16) | (feedback << 14u16);
    let mirrored = (shifted & !(1u16 << 6u16)) | (feedback << 6u16);
    assert(feedback <= 1) by (bit_vector)
        requires feedback == (lfsr & 1u16) ^ ((lfsr >> 1u16) & 1u16);
    assert(lfsr <= 0x7FFF ==> shifted <= 0x7FFF) by (bit_vector)
        requires feedback <= 1, shifted == (lfsr >> 1u16) | (feedback << 14u16);
    assert(shifted <= 0x7FFF ==> mirrored <= 0x7FFF) by (bit_vector)
        requires feedback <= 1, mirrored == (shifted & !(1u16 << 6u16)) | (feedback << 6u16);
    assert(lfsr <= 0x7FFF ==> (mirrored >> 6u16) & 1 == (mirrored >> 14u16) & 1) by (bit_vector)
        requires
            feedback <= 1,
            shifted == (lfsr >> 1u16) | (feedback << 14u16),
            mirrored == (shifted & !(1u16 << 6u16)) | (feedback << 6u16),
    ;
}

/// Any number of shifts keeps the register within 15 bits.
proof fn lemma_lfsr_clocked_bound(lfsr: u16, n: nat, narrow: bool)
    requires
        lfsr <= 0x7FFF,
    ensures
        lfsr_clocked(lfsr, n, narrow) <= 0x7FFF,
    decreases n,
{
    if n > 0 {
        lemma_lfsr_clocked_bound(lfsr, (n - 1) as nat, narrow);
        lemma_lfsr_next(lfsr_clocked(lfsr, (n - 1) as nat, narrow), narrow);
    }
}

fn divisor(r: u8) -> (d: i32)
    requires
        r < 8,
    ensures
        d == gb_divisor(r),
{
    match r {
        0 => 8,
        1 => 16,
        2 => 32,
        3 => 48,
        4 => 64,
        5 => 80,
        6 => 96,
        _ => 112,
    }
}

/// The noise channel: a linear-feedback shift register clocked at a
/// programmable rate.
pub struct NoiseChannel {
    pub low: SoundChannelControlNoiseLow,
    pub high: SoundChannelControlNoiseHigh,
    pub enabled: bool,
    pub frequency_timer: i32,
    pub lfsr: u16,
    pub length_counter: u16,
    pub volume: u8,
    pub envelope_timer: u8,
}

impl NoiseChannel {
    /// The period of the shift register as the registers set it.
    pub open spec fn period(&self) -> int {
        noise_step_period(self.high.dividing_ratio_of_frequencies(), self.high.shift_clock_frequency())
    }

    /// The output level: the volume while bit 0 of the noise register is
    /// clear, zero while it is set or the channel is off.
    pub open spec fn output(&self) -> u8 {
        if self.enabled && self.lfsr & 1 == 0 { self.volume } else { 0 }
    }

    /// A silent, untriggered channel with the shift register full of ones.
    pub fn new() -> (ch: NoiseChannel)
        ensures
            ch.low.value == 0,
            ch.high.value == 0,
            !ch.enabled,
            ch.frequency_timer == 1,
            ch.lfsr == 0x7FFF,
            ch.length_counter == 0,
            ch.volume == 0,
            ch.envelope_timer == 0,
    {
        NoiseChannel {
            low: SoundChannelControlNoiseLow::new(),
            high: SoundChannelControlNoiseHigh::new(),
            enabled: false,
            frequency_timer: 1,
            lfsr: 0x7FFF,
            length_counter: 0,
            volume: 0,
            envelope_timer: 0,
        }
    }

    /// The cycles between two shifts of the noise register.
    pub fn step_period(&self) -> (period: i32)
        ensures
            period == self.period(),
            32 <= period <= 14_680_064,
    {
        let r = self.high.get_dividing_ratio_of_frequencies();
        let s = self.high.get_shift_clock_frequency();
        let d = divisor(r);
        let scale: u32 = 1u32 << (s as u32);
        proof {
            vstd::arithmetic::power2::lemma2_to64();
            if s < 15 {
                vstd::arithmetic::power2::lemma_pow2_strictly_increases(s as nat, 15);
            }
            vstd::bits::lemma_u32_shl_is_mul(1u32, s as u32);
            assert(32 <= d * 4 * scale <= 14_680_064) by (nonlinear_arith)
                requires
                    8 <= d <= 112,
                    1 <= scale <= 32768,
            ;
        }
        d * 4 * (scale as i32)
    }

    /// Whether the channel is playing.
    pub fn is_active(&self) -> (active: bool)
        ensures
            active == self.enabled,
    {
        self.enabled
    }

    /// Restarts the channel: it is enabled, an expired length counter is
    /// reloaded to 64 minus the length field, the timer, volume and envelope
    /// are loaded from the registers, the shift register is filled with ones,
    /// and zero volume with a decreasing envelope leaves the channel off.
    pub fn on_trigger(&mut self)
        ensures
            final(self).enabled == !(old(self).low.initial_volume_of_envelope() == 0
                && old(self).low.envelope_direction() == 0),
            final(self).length_counter == if old(self).length_counter == 0 {
                64 - old(self).low.sound_length()
            } else {
                old(self).length_counter as int
            },
            final(self).frequency_timer == old(self).period(),
            final(self).lfsr == 0x7FFF,
            final(self).volume == old(self).low.initial_volume_of_envelope(),
            final(self).envelope_timer == old(self).low.envelope_step_time(),
            final(self).low == old(self).low,
            final(self).high == old(self).high,
    {
        self.enabled = true;
        if self.length_counter == 0 {
            self.length_counter = 64 - self.low.get_sound_length() as u16;
        }
        self.frequency_timer = self.step_period();
        self.lfsr = 0x7FFF;
        self.volume = self.low.get_initial_volume_of_envelope();
        self.envelope_timer = self.low.get_envelope_step_time();
        if self.volume == 0 && self.low.get_envelope_direction() == 0 {
            self.enabled = false;
        }
    }

    /// Lets `cycles` cycles pass: every expiry of the timer reloads it by one
    /// period and shifts the noise register once. The timer ends above zero;
    /// a 15-bit register stays within 15 bits, and after a shift in the
    /// narrow mode bit 6 mirrors bit 14.
    pub fn step(&mut self, cycles: i32)
        requires
            i32::MIN <= old(self).frequency_timer - cycles,
            old(self).frequency_timer - cycles <= i32::MAX,
        ensures
            ({
                let t = old(self).frequency_timer - cycles;
                let n = expirations(t, old(self).period());
                &&& final(self).frequency_timer == t + n * old(self).period()
                &&& final(self).lfsr == lfsr_clocked(old(self).lfsr, n as nat, old(self).high.counter_step_width() != 0)
                &&& (n > 0 && old(self).high.counter_step_width() != 0 && old(self).lfsr <= 0x7FFF
                    ==> (final(self).lfsr >> 6u16) & 1
                    == (final(self).lfsr >> 14u16) & 1)
            }),
            old(self).lfsr <= 0x7FFF ==> final(self).lfsr <= 0x7FFF,
            final(self).frequency_timer > 0,
            *final(self) == (NoiseChannel {
                frequency_timer: final(self).frequency_timer,
                lfsr: final(self).lfsr,
                ..*old(self)
            }),
    {
        let ghost t: int = self.frequency_timer - cycles;
        let ghost narrow = self.high.counter_step_width() != 0;
        let period = self.step_period();
        let p: i32 = if period >= 1 { period } else { 1 };
        self.frequency_timer = self.frequency_timer - cycles;
        let ghost mut n: int = 0;
        while self.frequency_timer <= 0
            invariant
                p == old(self).period(),
                32 <= p <= 14_680_064,
                n >= 0,
                self.frequency_timer == t + n * p,
                n > 0 ==> t + (n - 1) * p <= 0,
                narrow == (old(self).high.counter_step_width() != 0),
                self.lfsr == lfsr_clocked(old(self).lfsr, n as nat, narrow),
                *self == (NoiseChannel { frequency_timer: self.frequency_timer, lfsr: self.lfsr, ..*old(self) }),
            decreases p - self.frequency_timer,
        {
            assert(t + (n + 1) * p == t + n * p + p) by (nonlinear_arith);
            self.frequency_timer = self.frequency_timer + p;
            let xor_result = (self.lfsr & 1) ^ ((self.lfsr >> 1) & 1);
            self.lfsr = self.lfsr >> 1;
            self.lfsr = self.lfsr | (xor_result << 14);
            if self.high.get_counter_step_width() != 0 {
                self.lfsr = self.lfsr & !(1u16 << 6u16);
                self.lfsr = self.lfsr | (xor_result << 6);
            }
            proof {
                n = n + 1;
            }
        }
        proof {
            lemma_expirations(t, p as int, n);
            if old(self).lfsr <= 0x7FFF {
                lemma_lfsr_clocked_bound(old(self).lfsr, n as nat, narrow);
            }
            if n > 0 {
                if old(self).lfsr <= 0x7FFF {
                    lemma_lfsr_clocked_bound(old(self).lfsr, (n - 1) as nat, narrow);
                }
                lemma_lfsr_next(lfsr_clocked(old(self).lfsr, (n - 1) as nat, narrow), narrow);
            }
        }
    }

    /// `self` is `before` with its length counter clocked: counted down when
    /// length is enabled, reaching zero switching the channel off.
    pub open spec fn is_length_clock_of(self, before: NoiseChannel) -> bool {
        let counting = before.high.length_flag() != 0 && before.length_counter > 0;
        &&& self.length_counter == if counting { before.length_counter - 1 } else { before.length_counter as int }
        &&& self.enabled == (before.enabled && !(counting && before.length_counter == 1))
        &&& self == (NoiseChannel { length_counter: self.length_counter, enabled: self.enabled, ..before })
    }

    /// `self` is `before` with its envelope clocked: when the timer runs out
    /// it is reloaded and the volume moves one step up (towards 15) or down
    /// (towards 0); an envelope period of 0 does nothing.
    pub open spec fn is_envelope_clock_of(self, before: NoiseChannel) -> bool {
        let period = before.low.envelope_step_time();
        let timer = if before.envelope_timer > 0 { before.envelope_timer - 1 } else { 0 };
        let up = before.low.envelope_direction() != 0;
        &&& if period == 0 {
            self == before
        } else if timer == 0 {
            &&& self.envelope_timer == period
            &&& self.volume == if up && before.volume < 15 {
                before.volume + 1
            } else if !up && before.volume > 0 {
                before.volume - 1
            } else {
                before.volume as int
            }
        } else {
            self.envelope_timer == timer && self.volume == before.volume
        }
        &&& self == (NoiseChannel { envelope_timer: self.envelope_timer, volume: self.volume, ..before })
    }

    /// Clocks the length counter (see `is_length_clock_of`).
    pub fn clock_length(&mut self)
        ensures
            final(self).is_length_clock_of(*old(self)),
    {
        if self.high.get_length_flag() != 0 && self.length_counter > 0 {
            self.length_counter = self.length_counter - 1;
            if self.length_counter == 0 {
                self.enabled = false;
            }
        }
    }

    /// Clocks the volume envelope (see `is_envelope_clock_of`).
    pub fn clock_envelope(&mut self)
        ensures
            final(self).is_envelope_clock_of(*old(self)),
    {
        let period = self.low.get_envelope_step_time();
        if period == 0 {
            return;
        }
        if self.envelope_timer > 0 {
            self.envelope_timer = self.envelope_timer - 1;
        }
        if self.envelope_timer == 0 {
            self.envelope_timer = period;
            if self.low.get_envelope_direction() != 0 && self.volume < 15 {
                self.volume = self.volume + 1;
            } else if self.low.get_envelope_direction() == 0 && self.volume > 0 {
                self.volume = self.volume - 1;
            }
        }
    }

    /// The current output level: the volume while bit 0 of the noise register
    /// is clear, zero while it is set or the channel is off.
    pub fn amplitude(&self) -> (level: u8)
        ensures
            level == self.output(),
    {
        if !self.enabled {
            return 0;
        }
        if self.lfsr & 1 == 0 {
            self.volume
        } else {
            0
        }
    }
}

} // verus!
