pub mod direct_sound;
pub mod noise_channel;
pub mod square_channel;
pub mod timing;
pub mod wave_channel;

use vstd::prelude::*;
use crate::bits::with_bits;
use crate::memory::sound_registers::{SoundBias, SoundControlHigh, SoundControlLow, SoundControlX};
use crate::memory::wave_ram::WaveRam;
use direct_sound::DirectSoundChannel;
use noise_channel::NoiseChannel;
use square_channel::SquareChannel;
use wave_channel::WaveChannel;

verus! {

pub const OUTPUT_SAMPLE_RATE: usize = 32768;
pub const CYCLES_PER_SAMPLE: usize = 512;
pub const FRAME_SEQUENCER_CYCLES: i32 = 32768;
pub const MIX_SCALE: i32 = 64;

/// A direct sound channel's contribution to the mix: its sample doubled at
/// 50% volume, quadrupled at 100%.
pub open spec fn direct_sound_level(sample: i8, full_volume: bool) -> int {
    sample * (if full_volume { 4int } else { 2int })
}

/// A tone channel's contribution to one side of the mix: its level centred
/// around zero (level * 16 - 128), when it is active and routed to that side.
pub open spec fn psg_term(active: bool, level: u8, enable_flags: u8, channel: u8) -> int {
    if active && enable_flags & (1u8 << channel) != 0 { level * 16 - 128 } else { 0 }
}

/// Division by eight rounding towards zero.
pub open spec fn div8_toward_zero(x: int) -> int {
    if x >= 0 { x / 8 } else { -((-x) / 8) }
}

/// `x` limited to `lo..=hi`.
pub open spec fn clamped(x: int, lo: int, hi: int) -> int {
    if x < lo { lo } else if x > hi { hi } else { x }
}

/// The output sample of a mix: the mix is offset by the bias, limited to the
/// 10-bit DAC range, the bias taken off again, then scaled to 16 bits with
/// saturation.
pub open spec fn output_sample(mix: int, bias: int) -> i16 {
    clamped((clamped(mix + bias, 0, 0x3FF) - bias) * 64, -32768, 32767) as i16
}

fn clamp_i32(x: i32, lo: i32, hi: i32) -> (r: i32)
    requires
        lo <= hi,
    ensures
        r == clamped(x as int, lo as int, hi as int),
{
    if x < lo {
        lo
    } else if x > hi {
        hi
    } else {
        x
    }
}

fn div8(x: i32) -> (r: i32)
    ensures
        r == div8_toward_zero(x as int),
{
    x / 8
}

/// The sound unit: four tone channels, two direct sound channels, the mixer
/// registers and the buffer of mixed stereo samples.
pub struct Apu {
    pub sound_control_low: SoundControlLow,
    pub sound_control_high: SoundControlHigh,
    pub sound_control_x: SoundControlX,
    pub sound_bias: SoundBias,
    pub square1: SquareChannel,
    pub square2: SquareChannel,
    pub wave: WaveChannel,
    pub noise: NoiseChannel,
    pub direct_sound_a: DirectSoundChannel,
    pub direct_sound_b: DirectSoundChannel,
    pub wave_ram: WaveRam,
    pub cycle_accumulator: usize,
    pub frame_sequencer_cycles: i32,
    pub frame_sequencer_step: u8,
    pub sample_buffer: Vec<i16>,
}

impl Apu {
    /// The channels are in range (see each channel's `wf`).
    pub open spec fn wf(&self) -> bool {
        &&& self.square1.wf()
        &&& self.square2.wf()
        &&& self.wave.wf()
    }

    /// The tone channels' contribution to one side, before the master volume.
    pub open spec fn psg_raw(&self, enable_flags: u8) -> int {
        psg_term(self.square1.enabled, self.square1.output(), enable_flags, 0)
        + psg_term(self.square2.enabled, self.square2.output(), enable_flags, 1)
        + psg_term(self.wave.enabled && self.wave.dac_on(), self.wave.output(self.wave_ram), enable_flags, 2)
        + psg_term(self.noise.enabled, self.noise.output(), enable_flags, 3)
    }

    /// The mix of one side before bias and scaling: the direct sound channels
    /// routed to it plus the tone channels scaled by the side's master volume
    /// (1..8 eighths).
    pub open spec fn side_mix(&self, left: bool) -> int {
        let ds_a = direct_sound_level(self.direct_sound_a.current_sample, self.sound_control_high.dma_sound_a_volume() != 0);
        let ds_b = direct_sound_level(self.direct_sound_b.current_sample, self.sound_control_high.dma_sound_b_volume() != 0);
        let a_routed = if left { self.sound_control_high.dma_sound_a_enable_left() } else { self.sound_control_high.dma_sound_a_enable_right() } != 0;
        let b_routed = if left { self.sound_control_high.dma_sound_b_enable_left() } else { self.sound_control_high.dma_sound_b_enable_right() } != 0;
        let flags = if left { self.sound_control_low.sound_enable_flags_left() } else { self.sound_control_low.sound_enable_flags_right() };
        let master = if left { self.sound_control_low.sound_master_volume_left() } else { self.sound_control_low.sound_master_volume_right() };
        (if a_routed { ds_a } else { 0 }) + (if b_routed { ds_b } else { 0 })
            + div8_toward_zero(self.psg_raw(flags) * (master + 1))
    }

    /// The stereo sample pair the mixer emits: silence when the master switch
    /// is off, otherwise each side's mix offset by twice the bias level.
    pub open spec fn mixed_pair(&self) -> Seq<i16> {
        if self.sound_control_x.psg_fifo_master_enable() == 0 {
            seq![0i16, 0i16]
        } else {
            let bias = 2 * self.sound_bias.bias_level();
            seq![output_sample(self.side_mix(true), bias), output_sample(self.side_mix(false), bias)]
        }
    }

    /// A silent sound unit with every register zero.
    pub fn new() -> (apu: Apu)
        ensures
            apu.wf(),
            apu.sound_control_low.value == 0,
            apu.sound_control_high.value == 0,
            apu.sound_control_x.value == 0,
            apu.sound_bias.value == 0,
            apu.square1.has_sweep && !apu.square1.enabled && apu.square1.dle.index == 0 && apu.square1.fc.index == 0,
            !apu.square2.has_sweep && !apu.square2.enabled && apu.square2.dle.index == 1 && apu.square2.fc.index == 1,
            !apu.wave.enabled,
            !apu.noise.enabled,
            apu.direct_sound_a.current_sample == 0 && apu.direct_sound_a.pending() == Seq::<u8>::empty(),
            apu.direct_sound_b.current_sample == 0 && apu.direct_sound_b.pending() == Seq::<u8>::empty(),
            apu.cycle_accumulator == 0,
            apu.frame_sequencer_cycles == FRAME_SEQUENCER_CYCLES,
            apu.frame_sequencer_step == 0,
            apu.sample_buffer@ == Seq::<i16>::empty(),
    {
        Apu {
            sound_control_low: SoundControlLow::new(),
            sound_control_high: SoundControlHigh::new(),
            sound_control_x: SoundControlX::new(),
            sound_bias: SoundBias::new(),
            square1: SquareChannel::new(true, 0, 0),
            square2: SquareChannel::new(false, 1, 1),
            wave: WaveChannel::new(),
            noise: NoiseChannel::new(),
            direct_sound_a: DirectSoundChannel::new(),
            direct_sound_b: DirectSoundChannel::new(),
            wave_ram: WaveRam::new(),
            cycle_accumulator: 0,
            frame_sequencer_cycles: FRAME_SEQUENCER_CYCLES,
            frame_sequencer_step: 0,
            sample_buffer: Vec::new(),
        }
    }

    /// Brings the sound registers to their power-on state: the bias level is 0x100.
    pub fn register(&mut self)
        ensures
            final(self).sound_bias.bias_level() == 0x100,
            final(self).sound_bias.amplitude_resolution() == old(self).sound_bias.amplitude_resolution(),
            final(self).sound_bias.value == with_bits(old(self).sound_bias.value as u32, 1, 9, 0x100) as u16,
            *final(self) == (Apu { sound_bias: final(self).sound_bias, ..*old(self) }),
    {
        self.sound_bias.set_bias_level(0x100);
    }

    /// The tone channels' part of one side: their routed levels scaled by
    /// `master` eighths.
    fn psg_side(&self, flags: u8, master: i32) -> (r: i32)
        requires
            self.wf(),
            1 <= master <= 8,
        ensures
            r == div8_toward_zero(self.psg_raw(flags) * master),
            -512 <= r <= 15808,
    {
        let channels: [(bool, u8); 4] = [
            (self.square1.is_active(), self.square1.amplitude()),
            (self.square2.is_active(), self.square2.amplitude()),
            (self.wave.is_active(), self.wave.amplitude(&self.wave_ram)),
            (self.noise.is_active(), self.noise.amplitude()),
        ];
        let raw = psg_sum(&channels, flags);
        proof {
            assert(channels@ =~= seq![
                (self.square1.enabled, self.square1.output()),
                (self.square2.enabled, self.square2.output()),
                (self.wave.enabled && self.wave.dac_on(), self.wave.output(self.wave_ram)),
                (self.noise.enabled, self.noise.output()),
            ]);
            reveal_with_fuel(psg_partial, 5);
            assert(raw == self.psg_raw(flags));
        }
        assert(-4096 <= raw * master <= 126464) by (nonlinear_arith)
            requires
                -512 <= raw <= 15808,
                1 <= master <= 8,
        ;
        div8(raw * master)
    }

    /// The mix of one side before bias and scaling (see `side_mix`).
    fn side_value(&self, left: bool) -> (r: i32)
        requires
            self.wf(),
        ensures
            r == self.side_mix(left),
            -2048 <= r <= 20000,
    {
        let ds_a: i32 = if self.sound_control_high.get_dma_sound_a_volume() != 0 {
            self.direct_sound_a.current_sample as i32 * 4
        } else {
            self.direct_sound_a.current_sample as i32 * 2
        };
        let ds_b: i32 = if self.sound_control_high.get_dma_sound_b_volume() != 0 {
            self.direct_sound_b.current_sample as i32 * 4
        } else {
            self.direct_sound_b.current_sample as i32 * 2
        };
        let a_routed = if left {
            self.sound_control_high.get_dma_sound_a_enable_left()
        } else {
            self.sound_control_high.get_dma_sound_a_enable_right()
        } != 0;
        let b_routed = if left {
            self.sound_control_high.get_dma_sound_b_enable_left()
        } else {
            self.sound_control_high.get_dma_sound_b_enable_right()
        } != 0;
        let flags = if left {
            self.sound_control_low.get_sound_enable_flags_left()
        } else {
            self.sound_control_low.get_sound_enable_flags_right()
        };
        let master: i32 = if left {
            self.sound_control_low.get_sound_master_volume_left() as i32
        } else {
            self.sound_control_low.get_sound_master_volume_right() as i32
        } + 1;

        let mut mix: i32 = 0;
        if a_routed {
            mix = mix + ds_a;
        }
        if b_routed {
            mix = mix + ds_b;
        }

        let psg = self.psg_side(flags, master);
        mix + psg
    }

    /// Runs one step of the 512 Hz frame sequencer: lengths on even steps,
    /// the first square channel's sweep on steps 2 and 6, envelopes on step
    /// 7 (see `square_sequenced`, `wave_sequenced`, `noise_sequenced`); the
    /// step then advances modulo 8.
    pub fn clock_frame_sequencer(&mut self)
        requires
            old(self).wf(),
            old(self).frame_sequencer_step < 255,
        ensures
            final(self).wf(),
            square_sequenced(final(self).square1, old(self).square1, old(self).frame_sequencer_step, true),
            square_sequenced(final(self).square2, old(self).square2, old(self).frame_sequencer_step, false),
            wave_sequenced(final(self).wave, old(self).wave, old(self).frame_sequencer_step),
            noise_sequenced(final(self).noise, old(self).noise, old(self).frame_sequencer_step),
            final(self).frame_sequencer_step == (old(self).frame_sequencer_step + 1) % 8,
            *final(self) == (Apu {
                square1: final(self).square1,
                square2: final(self).square2,
                wave: final(self).wave,
                noise: final(self).noise,
                frame_sequencer_step: final(self).frame_sequencer_step,
                ..*old(self)
            }),
    {
        if self.frame_sequencer_step % 2 == 0 {
            self.square1.clock_length();
            self.square2.clock_length();
            self.wave.clock_length();
            self.noise.clock_length();
        }
        let ghost lengths_done = self.square1;
        if self.frame_sequencer_step % 4 == 2 {
            self.square1.clock_sweep();
            assert(lengths_done.is_length_clock_of(old(self).square1) && self.square1.is_sweep_clock_of(lengths_done));
        }
        if self.frame_sequencer_step == 7 {
            self.square1.clock_envelope();
            self.square2.clock_envelope();
            self.noise.clock_envelope();
        }
        self.frame_sequencer_step = (self.frame_sequencer_step + 1) % 8;
    }

    /// Mixes the current output of every channel into one stereo sample pair
    /// and appends it to the sample buffer (left first).
    pub fn mix_and_emit_sample(&mut self)
        requires
            old(self).wf(),
        ensures
            final(self).sample_buffer@ == old(self).sample_buffer@ + old(self).mixed_pair(),
            *final(self) == (Apu { sample_buffer: final(self).sample_buffer, ..*old(self) }),
    {
        if self.sound_control_x.get_psg_fifo_master_enable() == 0 {
            self.sample_buffer.push(0);
            self.sample_buffer.push(0);
            assert(self.sample_buffer@ =~= old(self).sample_buffer@ + old(self).mixed_pair());
            return;
        }
        let left = self.side_value(true);
        let right = self.side_value(false);
        let bias_level = self.sound_bias.get_bias_level() as i32;
        let bias = bias_level << 1;
        assert(bias == 2 * bias_level) by (bit_vector)
            requires
                0 <= bias_level < 512,
                bias == bias_level << 1,
        ;
        let left_sample = output_sample_of(left, bias);
        let right_sample = output_sample_of(right, bias);
        self.sample_buffer.push(left_sample);
        self.sample_buffer.push(right_sample);
        assert(self.sample_buffer@ =~= old(self).sample_buffer@ + old(self).mixed_pair());
    }
}

/// A square channel after one frame sequencer step `step`: even steps clock
/// its length, steps 2 and 6 then also its sweep when `sweeping`, step 7
/// clocks its envelope, the other steps leave it alone.
pub open spec fn square_sequenced(now: SquareChannel, before: SquareChannel, step: u8, sweeping: bool) -> bool {
    if step % 2 == 0 {
        if sweeping && step % 4 == 2 {
            exists|mid: SquareChannel| #[trigger] mid.is_length_clock_of(before) && now.is_sweep_clock_of(mid)
        } else {
            now.is_length_clock_of(before)
        }
    } else if step == 7 {
        now.is_envelope_clock_of(before)
    } else {
        now == before
    }
}

/// The wave channel after frame sequencer step `step`: even steps clock its
/// length.
pub open spec fn wave_sequenced(now: WaveChannel, before: WaveChannel, step: u8) -> bool {
    if step % 2 == 0 { now.is_length_clock_of(before) } else { now == before }
}

/// The noise channel after frame sequencer step `step`: even steps clock its
/// length, step 7 its envelope.
pub open spec fn noise_sequenced(now: NoiseChannel, before: NoiseChannel, step: u8) -> bool {
    if step % 2 == 0 {
        now.is_length_clock_of(before)
    } else if step == 7 {
        now.is_envelope_clock_of(before)
    } else {
        now == before
    }
}

/// The output sample of a mix and a bias (see `output_sample`).
fn output_sample_of(mix: i32, bias: i32) -> (sample: i16)
    requires
        -2048 <= mix <= 20000,
        0 <= bias <= 1022,
    ensures
        sample == output_sample(mix as int, bias as int),
{
    let biased = clamp_i32(mix + bias, 0, 0x3FF) - bias;
    clamp_i32(biased * MIX_SCALE, -32768, 32767) as i16
}

/// Sums the centred levels of the active channels that are routed to a side.
fn psg_sum(channels: &[(bool, u8); 4], enable_flags: u8) -> (sum: i32)
    ensures
        sum == psg_partial(channels@, enable_flags, 4),
        -512 <= sum <= 15808,
{
    let mut sum: i32 = 0;
    let mut i: usize = 0;
    while i < 4
        invariant
            0 <= i <= 4,
            sum == psg_partial(channels@, enable_flags, i as int),
            -128 * i <= sum <= 3952 * i,
        decreases 4 - i,
    {
        let (is_active, amplitude) = channels[i];
        if is_active {
            let bit: u8 = 1u8 << (i as u8);
            let centered: i32 = (amplitude as i32) * 16 - 128;
            if enable_flags & bit != 0 {
                sum = sum + centered;
            }
        }
        i = i + 1;
    }
    sum
}

/// The tone channels' contribution to one side from the first `n` entries of
/// a list of (active, level) pairs.
pub open spec fn psg_partial(channels: Seq<(bool, u8)>, enable_flags: u8, n: int) -> int
    decreases n,
{
    if n <= 0 {
        0
    } else {
        psg_partial(channels, enable_flags, n - 1)
            + psg_term(channels[n - 1].0, channels[n - 1].1, enable_flags, (n - 1) as u8)
    }
}

} // verus!
