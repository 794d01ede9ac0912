use vstd::prelude::*;
use crate::bits::with_bits;
use crate::memory::sound_registers::{SoundChannelControlDLE, SoundChannelControlFC, SoundChannelControlSweep};
use super::timing::{expirations, lemma_expirations};

verus! {

/// Whether the duty pattern `duty` is high at step `position` of its eight steps
/// (12.5%, 25%, 50% and 75% duty, as the duty table lays them out).
pub open spec fn duty_high(duty: u8, position: u8) -> bool {
    if duty == 0 {
        position == 7
    } else if duty == 1 {
        position == 0 || position == 7
    } else if duty == 2 {
        position == 0 || position >= 5
    } else {
        1 <= position && position <= 6
    }
}

fn duty_table(duty: u8, position: u8) -> (level: u8)
    requires
        duty < 4,
        position < 8,
    ensures
        level == (if duty_high(duty, position) { 1u8 } else { 0u8 }),
{
    let high = if duty == 0 {
        position == 7
    } else if duty == 1 {
        position == 0 || position == 7
    } else if duty == 2 {
        position == 0 || position >= 5
    } else {
        1 <= position && position <= 6
    };
    if high { 1 } else { 0 }
}

/// The cycles between two duty steps at a given frequency value.
pub open spec fn square_step_period(frequency: u16) -> int {
    16 * (2048 - frequency)
}

/// A square-wave tone channel, with or without frequency sweep.
pub struct SquareChannel {
    pub has_sweep: bool,
    pub sweep: SoundChannelControlSweep,
    pub dle: SoundChannelControlDLE,
    pub fc: SoundChannelControlFC,
    pub enabled: bool,
    pub frequency_timer: i32,
    pub duty_position: u8,
    pub length_counter: u16,
    pub volume: u8,
    pub envelope_timer: u8,
    pub envelope_running: bool,
    pub shadow_frequency: u16,
    pub sweep_timer: u8,
    pub sweep_enabled: bool,
}

impl SquareChannel {
    /// The channel's internal state is in range: the duty step is one of eight
    /// and the sweep's shadow frequency is an 11-bit frequency.
    pub open spec fn wf(&self) -> bool {
        &&& self.duty_position < 8
        &&& self.shadow_frequency <= 2047
    }

    /// The frequency the sweep unit computes from the shadow frequency: the
    /// shadow frequency shifted right by the sweep shift, subtracted
    /// (saturating at zero) or added.
    pub open spec fn swept_frequency(&self) -> int {
        let delta = self.shadow_frequency >> self.sweep.number_of_sweep_shift();
        if self.sweep.sweep_frequency_direction() != 0 {
            if delta <= self.shadow_frequency { self.shadow_frequency - delta } else { 0 }
        } else {
            self.shadow_frequency + delta
        }
    }

    /// The output level: the volume while the duty pattern is high, zero while
    /// it is low or the channel is off.
    pub open spec fn output(&self) -> u8 {
        if self.enabled && duty_high(self.dle.wave_pattern_duty(), self.duty_position) { self.volume } else { 0 }
    }

    /// A silent, untriggered channel.
    pub fn new(has_sweep: bool, dle_index: usize, fc_index: usize) -> (ch: SquareChannel)
        ensures
            ch.wf(),
            ch.has_sweep == has_sweep,
            ch.dle.index == dle_index && ch.dle.value == 0,
            ch.fc.index == fc_index && ch.fc.value == 0,
            ch.sweep.value == 0,
            !ch.enabled,
            ch.frequency_timer == 1,
            ch.duty_position == 0,
            ch.length_counter == 0,
            ch.volume == 0,
            ch.envelope_timer == 0,
            !ch.envelope_running,
            ch.shadow_frequency == 0,
            ch.sweep_timer == 0,
            !ch.sweep_enabled,
    {
        SquareChannel {
            has_sweep,
            sweep: SoundChannelControlSweep::new(),
            dle: SoundChannelControlDLE::new(dle_index),
            fc: SoundChannelControlFC::new(fc_index),
            enabled: false,
            frequency_timer: 1,
            duty_position: 0,
            length_counter: 0,
            volume: 0,
            envelope_timer: 0,
            envelope_running: false,
            shadow_frequency: 0,
            sweep_timer: 0,
            sweep_enabled: false,
        }
    }

    /// The cycles between two duty steps at a given frequency value.
    pub fn step_period(frequency: u16) -> (period: i32)
        ensures
            period == square_step_period(frequency),
    {
        16 * (2048 - frequency as i32)
    }

    /// Whether the channel is playing.
    pub fn is_active(&self) -> (active: bool)
        ensures
            active == self.enabled,
    {
        self.enabled
    }

    /// Computes the swept frequency; a result above 2047 switches the channel off.
    fn calculate_sweep_frequency(&mut self) -> (new_frequency: u16)
        requires
            old(self).wf(),
        ensures
            new_frequency == old(self).swept_frequency(),
            *final(self) == (SquareChannel {
                enabled: old(self).enabled && old(self).swept_frequency() <= 2047,
                ..*old(self)
            }),
    {
        let shift = self.sweep.get_number_of_sweep_shift();
        let shadow = self.shadow_frequency;
        let delta = shadow >> shift;
        assert(delta <= shadow) by (bit_vector)
            requires delta == shadow >> shift;
        let new_frequency = if self.sweep.get_sweep_frequency_direction() != 0 {
            self.shadow_frequency.saturating_sub(delta)
        } else {
            self.shadow_frequency + delta
        };
        if new_frequency > 2047 {
            self.enabled = false;
        }
        new_frequency
    }

    /// Restarts the channel: it is enabled, an expired length counter is
    /// reloaded to 64 minus the length field, the timer, volume and envelope
    /// are loaded from the registers, the sweep unit is reloaded (computing a
    /// first swept frequency when the shift is not zero), and a DAC set to zero
    /// volume with a decreasing envelope leaves the channel off.
    fn trigger(&mut self)
        requires
            old(self).wf(),
        ensures
            final(self).wf(),
            final(self).length_counter == if old(self).length_counter == 0 {
                64 - old(self).dle.sound_length()
            } else {
                old(self).length_counter as int
            },
            final(self).frequency_timer == square_step_period(old(self).fc.frequency()),
            final(self).volume == old(self).dle.initial_volume_of_envelope(),
            final(self).envelope_timer == old(self).dle.envelope_step_time(),
            final(self).envelope_running == (old(self).dle.envelope_step_time() != 0),
            old(self).has_sweep ==> {
                &&& final(self).shadow_frequency == old(self).fc.frequency()
                &&& final(self).sweep_timer == if old(self).sweep.sweep_time() == 0 { 8 } else { old(self).sweep.sweep_time() }
                &&& final(self).sweep_enabled == (old(self).sweep.sweep_time() != 0 || old(self).sweep.number_of_sweep_shift() != 0)
            },
            !old(self).has_sweep ==> {
                &&& final(self).shadow_frequency == old(self).shadow_frequency
                &&& final(self).sweep_timer == old(self).sweep_timer
                &&& final(self).sweep_enabled == old(self).sweep_enabled
            },
            final(self).enabled == (
                !(old(self).dle.initial_volume_of_envelope() == 0 && old(self).dle.envelope_direction() == 0)
                && !(old(self).has_sweep && old(self).sweep.number_of_sweep_shift() != 0
                    && (SquareChannel { shadow_frequency: old(self).fc.frequency(), ..*old(self) }).swept_frequency() > 2047)
            ),
            final(self).has_sweep == old(self).has_sweep,
            final(self).sweep == old(self).sweep,
            final(self).dle == old(self).dle,
            final(self).fc == old(self).fc,
            final(self).duty_position == old(self).duty_position,
    {
        self.enabled = true;
        if self.length_counter == 0 {
            self.length_counter = 64 - self.dle.get_sound_length() as u16;
        }
        self.frequency_timer = Self::step_period(self.fc.get_frequency());
        self.volume = self.dle.get_initial_volume_of_envelope();
        self.envelope_timer = self.dle.get_envelope_step_time();
        self.envelope_running = self.envelope_timer != 0;

        if self.has_sweep {
            self.shadow_frequency = self.fc.get_frequency();
            self.sweep_timer = self.sweep.get_sweep_time();
            if self.sweep_timer == 0 {
                self.sweep_timer = 8;
            }
            self.sweep_enabled = self.sweep_timer != 8 || self.sweep.get_number_of_sweep_shift() != 0;
            if self.sweep.get_number_of_sweep_shift() != 0 {
                self.calculate_sweep_frequency();
            }
        }

        if self.volume == 0 && self.dle.get_envelope_direction() == 0 {
            self.enabled = false;
        }
    }

    /// Restarts the channel (see `trigger`).
    pub fn on_trigger(&mut self)
        requires
            old(self).wf(),
        ensures
            final(self).wf(),
            final(self).length_counter == if old(self).length_counter == 0 {
                64 - old(self).dle.sound_length()
            } else {
                old(self).length_counter as int
            },
            final(self).frequency_timer == square_step_period(old(self).fc.frequency()),
            final(self).volume == old(self).dle.initial_volume_of_envelope(),
            final(self).envelope_timer == old(self).dle.envelope_step_time(),
            final(self).envelope_running == (old(self).dle.envelope_step_time() != 0),
            old(self).has_sweep ==> {
                &&& final(self).shadow_frequency == old(self).fc.frequency()
                &&& final(self).sweep_timer == if old(self).sweep.sweep_time() == 0 { 8 } else { old(self).sweep.sweep_time() }
                &&& final(self).sweep_enabled == (old(self).sweep.sweep_time() != 0 || old(self).sweep.number_of_sweep_shift() != 0)
            },
            !old(self).has_sweep ==> {
                &&& final(self).shadow_frequency == old(self).shadow_frequency
                &&& final(self).sweep_timer == old(self).sweep_timer
                &&& final(self).sweep_enabled == old(self).sweep_enabled
            },
            final(self).enabled == (
                !(old(self).dle.initial_volume_of_envelope() == 0 && old(self).dle.envelope_direction() == 0)
                && !(old(self).has_sweep && old(self).sweep.number_of_sweep_shift() != 0
                    && (SquareChannel { shadow_frequency: old(self).fc.frequency(), ..*old(self) }).swept_frequency() > 2047)
            ),
            final(self).has_sweep == old(self).has_sweep,
            final(self).sweep == old(self).sweep,
            final(self).dle == old(self).dle,
            final(self).fc == old(self).fc,
            final(self).duty_position == old(self).duty_position,
    {
        self.trigger();
    }

    /// Lets `cycles` cycles pass: every expiry of the frequency timer reloads
    /// it by one period and advances the duty step.
    pub fn step(&mut self, cycles: i32)
        requires
            old(self).wf(),
            i32::MIN <= old(self).frequency_timer - cycles,
            old(self).frequency_timer - cycles <= i32::MAX,
        ensures
            final(self).wf(),
            ({
                let t = old(self).frequency_timer - cycles;
                let p = if square_step_period(old(self).fc.frequency()) >= 1 { square_step_period(old(self).fc.frequency()) } else { 1 };
                let n = expirations(t, p);
                &&& final(self).frequency_timer == t + n * p
                &&& final(self).duty_position == (old(self).duty_position + n) % 8
            }),
            *final(self) == (SquareChannel {
                frequency_timer: final(self).frequency_timer,
                duty_position: final(self).duty_position,
                ..*old(self)
            }),
    {
        let ghost t: int = self.frequency_timer - cycles;
        let ghost d0: int = self.duty_position as int;
        let period = Self::step_period(self.fc.get_frequency());
        let p: i32 = if period >= 1 { period } else { 1 };
        assert(p <= 32768);
        self.frequency_timer = self.frequency_timer - cycles;
        let ghost mut n: int = 0;
        while self.frequency_timer <= 0
            invariant
                p >= 1,
                p <= 32768,
                p == (if square_step_period(old(self).fc.frequency()) >= 1 { square_step_period(old(self).fc.frequency()) } else { 1 }),
                n >= 0,
                self.frequency_timer == t + n * p,
                n > 0 ==> t + (n - 1) * p <= 0,
                0 <= d0 < 8,
                self.duty_position == (d0 + n) % 8,
                *self == (SquareChannel {
                    frequency_timer: self.frequency_timer,
                    duty_position: self.duty_position,
                    ..*old(self)
                }),
            decreases p - self.frequency_timer,
        {
            assert(t + (n + 1) * p == t + n * p + p) by (nonlinear_arith);
            assert((d0 + n + 1) % 8 == ((d0 + n) % 8 + 1) % 8) by (nonlinear_arith);
            self.frequency_timer = self.frequency_timer + p;
            self.duty_position = (self.duty_position + 1) % 8;
            proof {
                n = n + 1;
            }
        }
        proof {
            lemma_expirations(t, p as int, n);
        }
    }

    /// `self` is `before` with its length counter clocked: counted down when
    /// length is enabled, reaching zero switching the channel off.
    pub open spec fn is_length_clock_of(self, before: SquareChannel) -> bool {
        let counting = before.fc.length_flag() != 0 && before.length_counter > 0;
        &&& self.length_counter == if counting { before.length_counter - 1 } else { before.length_counter as int }
        &&& self.enabled == (before.enabled && !(counting && before.length_counter == 1))
        &&& self == (SquareChannel { length_counter: self.length_counter, enabled: self.enabled, ..before })
    }

    /// `self` is `before` with its envelope clocked: when the timer runs out
    /// it is reloaded and the volume moves one step up (towards 15) or down
    /// (towards 0); an envelope period of 0 does nothing.
    pub open spec fn is_envelope_clock_of(self, before: SquareChannel) -> bool {
        let period = before.dle.envelope_step_time();
        let timer = if before.envelope_timer > 0 { before.envelope_timer - 1 } else { 0 };
        let up = before.dle.envelope_direction() != 0;
        &&& if period == 0 {
            self == before
        } else if timer == 0 {
            &&& self.envelope_timer == period
            &&& self.volume == if up && before.volume < 15 {
                before.volume + 1
            } else if !up && before.volume > 0 {
                before.volume - 1
            } else {
                before.volume as int
            }
        } else {
            self.envelope_timer == timer && self.volume == before.volume
        }
        &&& self == (SquareChannel { envelope_timer: self.envelope_timer, volume: self.volume, ..before })
    }

    /// Clocks the length counter (see `is_length_clock_of`).
    pub fn clock_length(&mut self)
        ensures
            final(self).is_length_clock_of(*old(self)),
    {
        if self.fc.get_length_flag() != 0 && self.length_counter > 0 {
            self.length_counter = self.length_counter - 1;
            if self.length_counter == 0 {
                self.enabled = false;
            }
        }
    }

    /// `self` is `before` with its sweep unit clocked: when the timer runs
    /// out it is reloaded, and with a non-zero sweep time the swept frequency
    /// is computed; a result within 11 bits (and a non-zero shift) becomes
    /// the new frequency and is checked once more; a result past 11 bits
    /// switches the channel off. Without a running sweep nothing changes.
    pub open spec fn is_sweep_clock_of(self, before: SquareChannel) -> bool {
        if !before.has_sweep || !before.sweep_enabled {
            self == before
        } else {
            let timer = if before.sweep_timer > 0 { before.sweep_timer - 1 } else { 0 };
            let expired = timer == 0;
            let reload = if before.sweep.sweep_time() == 0 { 8 } else { before.sweep.sweep_time() as int };
            let computing = expired && before.sweep.sweep_time() != 0;
            let new_frequency = before.swept_frequency();
            let applied = computing && new_frequency <= 2047 && before.sweep.number_of_sweep_shift() != 0;
            let applied_state = SquareChannel { shadow_frequency: new_frequency as u16, ..before };
            self == (SquareChannel {
                sweep_timer: (if expired { reload } else { timer as int }) as u8,
                shadow_frequency: if applied { new_frequency as u16 } else { before.shadow_frequency },
                fc: if applied {
                    SoundChannelControlFC {
                        value: with_bits(before.fc.value as u32, 0, 11, new_frequency as u32) as u16,
                        ..before.fc
                    }
                } else {
                    before.fc
                },
                enabled: before.enabled && !(computing && new_frequency > 2047) && !(applied
                    && applied_state.swept_frequency() > 2047),
                ..before
            })
        }
    }

    /// Clocks the sweep unit (see `is_sweep_clock_of`).
    pub fn clock_sweep(&mut self)
        requires
            old(self).wf(),
        ensures
            final(self).wf(),
            final(self).is_sweep_clock_of(*old(self)),
    {
        if !self.has_sweep || !self.sweep_enabled {
            return;
        }
        if self.sweep_timer > 0 {
            self.sweep_timer = self.sweep_timer - 1;
        }
        if self.sweep_timer == 0 {
            self.sweep_timer = self.sweep.get_sweep_time();
            if self.sweep_timer == 0 {
                self.sweep_timer = 8;
            }
            if self.sweep.get_sweep_time() != 0 {
                let new_frequency = self.calculate_sweep_frequency();
                if new_frequency <= 2047 && self.sweep.get_number_of_sweep_shift() != 0 {
                    self.fc.set_frequency(new_frequency);
                    self.shadow_frequency = new_frequency;
                    self.calculate_sweep_frequency();
                }
            }
        }
    }

    /// Clocks the volume envelope (see `is_envelope_clock_of`).
    pub fn clock_envelope(&mut self)
        ensures
            final(self).is_envelope_clock_of(*old(self)),
    {
        let period = self.dle.get_envelope_step_time();
        if period == 0 {
            return;
        }
        if self.envelope_timer > 0 {
            self.envelope_timer = self.envelope_timer - 1;
        }
        if self.envelope_timer == 0 {
            self.envelope_timer = period;
            if self.dle.get_envelope_direction() != 0 && self.volume < 15 {
                self.volume = self.volume + 1;
            } else if self.dle.get_envelope_direction() == 0 && self.volume > 0 {
                self.volume = self.volume - 1;
            }
        }
    }

    /// The current output level: the volume while the duty pattern is high,
    /// zero while it is low or the channel is off.
    pub fn amplitude(&self) -> (level: u8)
        requires
            self.wf(),
        ensures
            level == self.output(),
    {
        if !self.enabled {
            return 0;
        }
        let duty = self.dle.get_wave_pattern_duty();
        if duty_table(duty, self.duty_position) != 0 {
            self.volume
        } else {
            0
        }
    }
}

/// The sweep moves the frequency by the shadow frequency shifted right by
/// the sweep shift: down when the direction bit is set (never below zero,
/// never above the shadow frequency), up otherwise (never below it).
pub proof fn lemma_sweep_direction(ch: SquareChannel)
    ensures
        ch.sweep.sweep_frequency_direction() != 0 ==> {
            &&& ch.swept_frequency() <= ch.shadow_frequency
            &&& ch.shadow_frequency - ch.swept_frequency() == ch.shadow_frequency >> ch.sweep.number_of_sweep_shift()
        },
        ch.sweep.sweep_frequency_direction() == 0 ==> {
            &&& ch.swept_frequency() >= ch.shadow_frequency
            &&& ch.swept_frequency() - ch.shadow_frequency == ch.shadow_frequency >> ch.sweep.number_of_sweep_shift()
        },
{
    let f = ch.shadow_frequency;
    let sh = ch.sweep.number_of_sweep_shift();
    assert(f >> sh <= f) by (bit_vector);
}

} // verus!
