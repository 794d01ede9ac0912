use lib::apu::direct_sound::DirectSoundChannel;
use lib::apu::square_channel::SquareChannel;
use lib::apu::Apu;
use std::collections::VecDeque;

const MIX_SCALE: i32 = 64;

fn powered_on() -> Apu {
    let mut apu = Apu::new();
    apu.register();
    apu
}

#[test]
fn pops_one_byte_per_elapsed_period_keeping_the_last() {
    let mut channel = DirectSoundChannel::new();
    let mut fifo: VecDeque<u8> = vec![10, 20, 30].into();
    channel.clock(2, &mut fifo);
    assert_eq!(channel.current_sample, 20);
    assert!(fifo.is_empty());
    channel.clock(1, &mut fifo);
    assert_eq!(channel.current_sample, 30);
}

#[test]
fn empty_fifo_repeats_last_sample() {
    let mut channel = DirectSoundChannel::new();
    channel.current_sample = 42;
    let mut fifo: VecDeque<u8> = VecDeque::new();
    channel.clock(3, &mut fifo);
    assert_eq!(channel.current_sample, 42);
}

#[test]
fn zero_overflows_never_pops() {
    let mut channel = DirectSoundChannel::new();
    channel.current_sample = 5;
    let mut fifo: VecDeque<u8> = vec![99].into();
    channel.clock(0, &mut fifo);
    assert_eq!(channel.current_sample, 5);
    assert_eq!(fifo.len(), 1);
}

#[test]
fn requests_dma_from_word_fifo_before_clocking_the_output_shifter() {
    let mut channel = DirectSoundChannel::new();
    let mut fifo: VecDeque<u8> = (0..32).collect();
    for sample in 0..17 {
        assert!(!channel.clock(1, &mut fifo));
        assert_eq!(channel.current_sample, sample);
    }
    assert_eq!(fifo.len(), 12);
    assert!(channel.clock(1, &mut fifo));
    assert_eq!(channel.current_sample, 17);
}

#[test]
fn queued_word_survives_fifo_reset() {
    let mut channel = DirectSoundChannel::new();
    let mut fifo: VecDeque<u8> = [10, 20, 30, 40, 50].into();
    channel.clock(1, &mut fifo);
    fifo.clear();
    let mut restored = channel;
    for expected in [20, 30, 40] {
        restored.clock(1, &mut fifo);
        assert_eq!(restored.current_sample, expected);
    }
}

#[test]
fn mix_never_panics_or_overflows_at_worst_case_amplitude() {
    let mut apu = powered_on();
    apu.sound_control_x.set_psg_fifo_master_enable(1);
    apu.sound_control_low.set_sound_master_volume_left(7);
    apu.sound_control_low.set_sound_master_volume_right(7);
    apu.sound_control_low.set_sound_enable_flags_left(0xF);
    apu.sound_control_low.set_sound_enable_flags_right(0xF);
    apu.direct_sound_a.current_sample = i8::MIN;
    apu.direct_sound_b.current_sample = i8::MIN;
    apu.sound_control_high.set_dma_sound_a_volume(1);
    apu.sound_control_high.set_dma_sound_b_volume(1);
    apu.sound_control_high.set_dma_sound_a_enable_left(1);
    apu.sound_control_high.set_dma_sound_a_enable_right(1);
    apu.sound_control_high.set_dma_sound_b_enable_left(1);
    apu.sound_control_high.set_dma_sound_b_enable_right(1);
    apu.mix_and_emit_sample();
    assert_eq!(apu.sample_buffer[0], i16::MIN);
    assert_eq!(apu.sample_buffer[1], i16::MIN);
}

#[test]
fn bias_domain_clamp_saturates_rather_than_wrapping() {
    let mut apu = powered_on();
    apu.sound_control_x.set_psg_fifo_master_enable(1);
    apu.sound_control_low.set_sound_master_volume_left(7);
    apu.sound_control_low.set_sound_enable_flags_left(0xF);
    apu.direct_sound_a.current_sample = i8::MIN;
    apu.direct_sound_b.current_sample = i8::MIN;
    apu.sound_control_high.set_dma_sound_a_volume(1);
    apu.sound_control_high.set_dma_sound_b_volume(1);
    apu.sound_control_high.set_dma_sound_a_enable_left(1);
    apu.sound_control_high.set_dma_sound_b_enable_left(1);
    apu.mix_and_emit_sample();
    assert_eq!(apu.sample_buffer[0], i16::MIN);
}

#[test]
fn bias_level_register_measurably_shifts_output() {
    let mut apu = powered_on();
    apu.sound_control_x.set_psg_fifo_master_enable(1);
    apu.direct_sound_a.current_sample = i8::MIN;
    apu.sound_control_high.set_dma_sound_a_enable_left(1);

    apu.sound_bias.set_bias_level(0x10);
    apu.mix_and_emit_sample();
    let at_small_bias = apu.sample_buffer[0];

    apu.sound_bias.set_bias_level(0x100);
    apu.mix_and_emit_sample();
    let at_default_bias = apu.sample_buffer[2];

    assert_ne!(at_small_bias, at_default_bias);
    assert!(at_small_bias.unsigned_abs() < i16::MAX.unsigned_abs());
    assert!(at_default_bias.unsigned_abs() < i16::MAX.unsigned_abs());
}

#[test]
fn true_silence_produces_exactly_zero() {
    let mut apu = powered_on();
    apu.sound_control_x.set_psg_fifo_master_enable(1);
    apu.sound_control_low.set_sound_master_volume_left(7);
    apu.sound_control_low.set_sound_master_volume_right(7);
    apu.mix_and_emit_sample();
    assert_eq!(&apu.sample_buffer[..], &[0, 0]);
}

#[test]
fn direct_sound_100_percent_is_not_amplified_beyond_source() {
    let mut apu = powered_on();
    apu.sound_control_x.set_psg_fifo_master_enable(1);
    apu.direct_sound_a.current_sample = i8::MIN;
    apu.sound_control_high.set_dma_sound_a_volume(1);
    apu.sound_control_high.set_dma_sound_a_enable_left(1);
    apu.mix_and_emit_sample();
    let left = apu.sample_buffer[0] as i32;
    assert!(left.unsigned_abs() <= (i8::MIN.unsigned_abs() as u32) * 4 * MIX_SCALE as u32);
}

#[test]
fn untriggered_psg_channel_enabled_in_mixer_contributes_silence() {
    let mut apu = powered_on();
    apu.sound_control_x.set_psg_fifo_master_enable(1);
    apu.sound_control_low.set_sound_master_volume_left(7);
    apu.sound_control_low.set_sound_master_volume_right(7);
    apu.sound_control_low.set_sound_enable_flags_left(0xF);
    apu.sound_control_low.set_sound_enable_flags_right(0xF);
    apu.mix_and_emit_sample();
    assert_eq!(&apu.sample_buffer[..], &[0, 0]);
}

#[test]
fn active_channel_at_zero_duty_still_contributes_to_mix() {
    let mut apu = powered_on();
    apu.sound_control_x.set_psg_fifo_master_enable(1);
    apu.sound_control_low.set_sound_master_volume_left(7);
    apu.sound_control_low.set_sound_enable_flags_left(0x1);
    // The high byte of SOUND1CNT_H (0x04000063): initial volume 15.
    let dle = apu.square1.dle.get_register() as u32;
    apu.square1.dle.set_register((dle & 0x00FF) | (0xF0 << 8));
    apu.square1.on_trigger();
    assert_eq!(apu.square1.amplitude(), 0);
    apu.mix_and_emit_sample();
    assert_ne!(apu.sample_buffer[0], 0);
}

#[test]
fn master_disable_forces_silence() {
    let mut apu = powered_on();
    apu.sound_control_x.set_psg_fifo_master_enable(0);
    apu.direct_sound_a.current_sample = 127;
    apu.mix_and_emit_sample();
    assert_eq!(&apu.sample_buffer[..], &[0, 0]);
}

#[test]
fn sustained_signal_does_not_decay_toward_zero() {
    let mut apu = powered_on();
    apu.direct_sound_a.current_sample = 100;
    apu.sound_control_high.set_dma_sound_a_volume(1);
    apu.sound_control_high.set_dma_sound_a_enable_left(1);
    for _ in 0..50 {
        apu.mix_and_emit_sample();
    }
    let first = apu.sample_buffer[0];
    let last = *apu.sample_buffer.iter().rev().nth(1).unwrap();
    assert_eq!(first, last);
}

#[test]
fn mix_of_one_direct_sound_sample_has_the_expected_value() {
    let mut apu = powered_on();
    apu.sound_control_x.set_psg_fifo_master_enable(1);
    apu.direct_sound_a.current_sample = 10;
    apu.sound_control_high.set_dma_sound_a_volume(1);
    apu.sound_control_high.set_dma_sound_a_enable_right(1);
    apu.mix_and_emit_sample();
    // Left: nothing routed, so 0. Right: 10 * 4 = 40, biased into range, times 64.
    assert_eq!(&apu.sample_buffer[..], &[0, 40 * 64]);
}

#[test]
fn trigger_resets_lfsr_and_loads_volume() {
    let mut apu = powered_on();
    let ch = &mut apu.noise;
    ch.low.set_initial_volume_of_envelope(12);
    ch.on_trigger();
    assert!(ch.enabled);
    assert_eq!(ch.lfsr, 0x7FFF);
    assert_eq!(ch.volume, 12);
}

#[test]
fn noise_channel_zero_volume_decreasing_envelope_disables_dac() {
    let mut apu = powered_on();
    let ch = &mut apu.noise;
    ch.low.set_initial_volume_of_envelope(0);
    ch.low.set_envelope_direction(0);
    ch.on_trigger();
    assert!(!ch.enabled);
}

#[test]
fn noise_channel_length_expiry_disables_channel() {
    let mut apu = powered_on();
    let ch = &mut apu.noise;
    ch.low.set_initial_volume_of_envelope(15);
    ch.high.set_length_flag(1);
    ch.low.set_sound_length(63);
    ch.on_trigger();
    assert_eq!(ch.length_counter, 1);
    ch.clock_length();
    assert!(!ch.enabled);
}

#[test]
fn narrow_mode_mirrors_feedback_into_bit_6() {
    let mut apu = powered_on();
    let ch = &mut apu.noise;
    ch.low.set_initial_volume_of_envelope(15);
    ch.high.set_counter_step_width(1);
    ch.on_trigger();
    let period = ch.step_period();
    ch.step(period);
    let feedback = (ch.lfsr >> 14) & 1;
    assert_eq!((ch.lfsr >> 6) & 1, feedback);
}

#[test]
fn trigger_enables_and_loads_length() {
    let mut apu = powered_on();
    let ch = &mut apu.square1;
    ch.dle.set_sound_length(20);
    ch.dle.set_initial_volume_of_envelope(15);
    ch.on_trigger();
    assert!(ch.enabled);
    assert_eq!(ch.length_counter, 64 - 20);
    assert_eq!(ch.volume, 15);
}

#[test]
fn square_channel_zero_volume_decreasing_envelope_disables_dac() {
    let mut apu = powered_on();
    let ch = &mut apu.square1;
    ch.dle.set_initial_volume_of_envelope(0);
    ch.dle.set_envelope_direction(0);
    ch.on_trigger();
    assert!(!ch.enabled);
}

#[test]
fn square_channel_length_expiry_disables_channel() {
    let mut apu = powered_on();
    let ch = &mut apu.square1;
    ch.dle.set_initial_volume_of_envelope(15);
    ch.fc.set_length_flag(1);
    ch.dle.set_sound_length(63);
    ch.on_trigger();
    assert_eq!(ch.length_counter, 1);
    ch.clock_length();
    assert!(!ch.enabled);
}

#[test]
fn sweep_overflow_disables_channel() {
    let mut apu = powered_on();
    let ch = &mut apu.square1;
    ch.dle.set_initial_volume_of_envelope(15);
    ch.fc.set_frequency(2000);
    ch.sweep.set_number_of_sweep_shift(1);
    ch.sweep.set_sweep_frequency_direction(0);
    ch.sweep.set_sweep_time(1);
    ch.on_trigger();
    ch.clock_sweep();
    assert!(!ch.enabled);
}

#[test]
fn amplitude_follows_duty_table_and_volume() {
    let mut apu = powered_on();
    let ch = &mut apu.square1;
    ch.dle.set_wave_pattern_duty(0);
    ch.dle.set_initial_volume_of_envelope(9);
    ch.on_trigger();
    assert_eq!(ch.amplitude(), 0);
    for _ in 0..7 {
        ch.step(SquareChannel::step_period(ch.fc.get_frequency()));
    }
    assert_eq!(ch.amplitude(), 9);
}

#[test]
fn dac_off_silences_channel_even_when_triggered() {
    let mut apu = powered_on();
    let ch = &mut apu.wave;
    ch.low.set_sound_channel_3_off(0);
    ch.on_trigger();
    assert!(!ch.enabled);
    assert_eq!(ch.amplitude(&apu.wave_ram), 0);
}

#[test]
fn amplitude_reads_nibble_from_wave_ram() {
    let mut apu = powered_on();
    apu.wave.low.set_wave_ram_bank_number(1);
    apu.wave_ram.write_wave_ram_byte(apu.wave.get_bank_number(), 0, 0xA5);
    apu.wave.low.set_wave_ram_bank_number(0);
    let ch = &mut apu.wave;
    ch.low.set_sound_channel_3_off(1);
    ch.high.set_sound_volume(1);
    ch.on_trigger();
    assert_eq!(ch.amplitude(&apu.wave_ram), 0xA);
    ch.sample_position = 1;
    assert_eq!(ch.amplitude(&apu.wave_ram), 0x5);
}

#[test]
fn bank_number_selects_which_bank_plays_back() {
    let mut apu = powered_on();
    apu.wave.low.set_wave_ram_bank_number(0);
    apu.wave_ram.write_wave_ram_byte(apu.wave.get_bank_number(), 0, 0x30);
    apu.wave.low.set_wave_ram_bank_number(1);
    apu.wave_ram.write_wave_ram_byte(apu.wave.get_bank_number(), 0, 0x70);

    let ch = &mut apu.wave;
    ch.low.set_sound_channel_3_off(1);
    ch.high.set_sound_volume(1);

    ch.low.set_wave_ram_bank_number(0);
    ch.on_trigger();
    assert_eq!(ch.amplitude(&apu.wave_ram), 0x7);

    ch.low.set_wave_ram_bank_number(1);
    ch.on_trigger();
    assert_eq!(ch.amplitude(&apu.wave_ram), 0x3);
}

#[test]
fn dimension_one_plays_64_samples_crossing_both_banks() {
    let mut apu = powered_on();
    apu.wave.low.set_wave_ram_bank_number(1);
    apu.wave_ram.write_wave_ram_byte(apu.wave.get_bank_number(), 0, 0x12);
    apu.wave.low.set_wave_ram_bank_number(0);
    apu.wave_ram.write_wave_ram_byte(apu.wave.get_bank_number(), 0, 0x34);

    let ch = &mut apu.wave;
    ch.low.set_sound_channel_3_off(1);
    ch.high.set_sound_volume(1);
    ch.low.set_wave_ram_dimension(1);
    ch.low.set_wave_ram_bank_number(0);
    ch.on_trigger();

    assert_eq!(ch.amplitude(&apu.wave_ram), 0x1);
    ch.sample_position = 1;
    assert_eq!(ch.amplitude(&apu.wave_ram), 0x2);

    ch.sample_position = 32;
    assert_eq!(ch.amplitude(&apu.wave_ram), 0x3);
    ch.sample_position = 33;
    assert_eq!(ch.amplitude(&apu.wave_ram), 0x4);
}

#[test]
fn dimension_one_step_wraps_sample_position_at_64_not_32() {
    let mut apu = powered_on();
    let ch = &mut apu.wave;
    ch.low.set_sound_channel_3_off(1);
    ch.low.set_wave_ram_dimension(1);
    ch.x.set_sample_rate(2047);
    ch.on_trigger();

    for _ in 0..32 {
        ch.step(8);
    }
    assert_eq!(ch.sample_position, 32);

    for _ in 0..32 {
        ch.step(8);
    }
    assert_eq!(ch.sample_position, 0);
}

#[test]
fn dimension_zero_step_wraps_sample_position_at_32() {
    let mut apu = powered_on();
    let ch = &mut apu.wave;
    ch.low.set_sound_channel_3_off(1);
    ch.low.set_wave_ram_dimension(0);
    ch.x.set_sample_rate(2047);
    ch.on_trigger();

    for _ in 0..32 {
        ch.step(8);
    }
    assert_eq!(ch.sample_position, 0);
}

#[test]
fn wave_channel_length_expiry_disables_channel() {
    let mut apu = powered_on();
    let ch = &mut apu.wave;
    ch.low.set_sound_channel_3_off(1);
    ch.x.set_length_flag(1);
    ch.high.set_sound_length(255);
    ch.on_trigger();
    assert_eq!(ch.length_counter, 1);
    ch.clock_length();
    assert!(!ch.enabled);
}

#[test]
fn frame_sequencer_clocks_length_every_other_step_and_envelope_on_step_seven() {
    let mut apu = powered_on();
    apu.square2.dle.set_initial_volume_of_envelope(10);
    apu.square2.dle.set_envelope_direction(1);
    apu.square2.dle.set_envelope_step_time(1);
    apu.square2.fc.set_length_flag(1);
    apu.square2.dle.set_sound_length(0);
    apu.square2.on_trigger();
    assert_eq!(apu.square2.length_counter, 64);
    assert_eq!(apu.square2.volume, 10);

    for _ in 0..7 {
        apu.clock_frame_sequencer();
    }
    assert_eq!(apu.frame_sequencer_step, 7);
    assert_eq!(apu.square2.length_counter, 60);
    assert_eq!(apu.square2.volume, 10);

    apu.clock_frame_sequencer();
    assert_eq!(apu.frame_sequencer_step, 0);
    assert_eq!(apu.square2.length_counter, 60);
    assert_eq!(apu.square2.volume, 11);
}

#[test]
fn frame_sequencer_sweeps_only_the_first_square_channel_on_steps_two_and_six() {
    let mut apu = powered_on();
    for ch in [&mut apu.square1, &mut apu.square2] {
        ch.dle.set_initial_volume_of_envelope(15);
        ch.fc.set_frequency(1000);
        ch.sweep.set_number_of_sweep_shift(1);
        ch.sweep.set_sweep_frequency_direction(0);
        ch.sweep.set_sweep_time(1);
        ch.on_trigger();
    }
    assert!(apu.square1.enabled);

    apu.clock_frame_sequencer();
    apu.clock_frame_sequencer();
    assert!(apu.square1.enabled);

    apu.clock_frame_sequencer();
    assert!(!apu.square1.enabled);
    assert!(apu.square2.enabled);
}

#[test]
fn direct_sound_takes_at_most_a_word_per_overflow_from_the_front() {
    let mut channel = DirectSoundChannel::new();
    let mut fifo: VecDeque<u8> = (1..=20).collect();
    let asked = channel.clock(2, &mut fifo);
    assert_eq!(fifo.len(), 16);
    assert_eq!(fifo.front(), Some(&5));
    assert!(!asked);
    assert!(!channel.clock(3, &mut fifo));
    assert_eq!(fifo.len(), 12);
    assert_eq!(channel.current_sample, 5);
    assert!(channel.clock(1, &mut fifo));
    assert!(fifo.len() < 16);
}
