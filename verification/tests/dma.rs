use lib::dma::{DMAChannel, DMAController};
use lib::gamepak::BackupType;
use lib::interrupts::interrupts::Interrupts;
use lib::memory::memory_bus::MemoryBus;

fn stub_bus() -> MemoryBus {
    MemoryBus::new(BackupType::Sram)
}

#[test]
fn refill_sound_fifo_transfers_four_words() {
    let mut channel = DMAChannel::new(1);
    let mut bus = stub_bus();
    let base = 0x0200_0000u32;
    for i in 0..4u32 {
        bus.mem_map.write_u32(base + i * 4, 0x1000_0000 * (i + 1));
    }
    channel.internal_source_address = base;

    channel.refill_sound_fifo(&mut bus, true);

    assert_eq!(bus.mem_map.fifo_a.len(), 16);
    assert_eq!(channel.internal_source_address, base + 16);
}

fn one_shot_word_transfer(channel: &mut DMAChannel) {
    channel.control.set_dma_transfer_type(1);
    channel.control.set_source_address_control(0);
    channel.control.set_destination_address_control(0);
    channel.control.set_dma_repeat(0);
    channel.internal_word_count = 1;
}

#[test]
fn dma_reading_protected_region_returns_its_own_last_latched_value() {
    let mut channel = DMAChannel::new(0);
    let mut bus = stub_bus();
    let mut irq = Interrupts::new();
    one_shot_word_transfer(&mut channel);

    let scratch = 0x0300_0000u32;
    bus.mem_map.write_u32(scratch, 0xCAFEBABE);
    channel.internal_source_address = scratch;
    channel.internal_destination_address = 0x0300_1000;
    channel.transfer(&mut bus, &mut irq);

    one_shot_word_transfer(&mut channel);
    channel.internal_source_address = 0x0;
    channel.internal_destination_address = 0x0300_2000;
    channel.transfer(&mut bus, &mut irq);

    assert_eq!(bus.mem_map.read_u32(0x0300_2000), 0xCAFEBABE);
}

#[test]
fn each_dma_channel_has_an_independent_latch() {
    let mut bus = stub_bus();
    let mut irq = Interrupts::new();

    let mut channel0 = DMAChannel::new(0);
    one_shot_word_transfer(&mut channel0);
    bus.mem_map.write_u32(0x0300_0000, 0x1BADF00D);
    channel0.internal_source_address = 0x0300_0000;
    channel0.internal_destination_address = 0x0300_1000;
    channel0.transfer(&mut bus, &mut irq);

    let mut channel1 = DMAChannel::new(1);
    one_shot_word_transfer(&mut channel1);
    bus.mem_map.write_u32(0x0300_0004, 0x2BADCAFE);
    channel1.internal_source_address = 0x0300_0004;
    channel1.internal_destination_address = 0x0300_1004;
    channel1.transfer(&mut bus, &mut irq);

    one_shot_word_transfer(&mut channel1);
    channel1.internal_source_address = 0x0;
    channel1.internal_destination_address = 0x0300_2000;
    channel1.transfer(&mut bus, &mut irq);

    assert_eq!(bus.mem_map.read_u32(0x0300_2000), 0x2BADCAFE);
}

#[test]
fn a_dma_transfer_leaves_its_value_on_the_shared_bus() {
    let mut channel = DMAChannel::new(0);
    let mut bus = stub_bus();
    let mut irq = Interrupts::new();
    one_shot_word_transfer(&mut channel);

    let scratch = 0x0300_0000u32;
    bus.mem_map.write_u32(scratch, 0x1234_5678);
    channel.internal_source_address = scratch;
    channel.internal_destination_address = 0x0300_1000;
    channel.transfer(&mut bus, &mut irq);

    assert_eq!(bus.mem_map.dma_bus_override, Some(0x1234_5678));
}

#[test]
fn one_shot_transfer_switches_off_and_raises_its_interrupt() {
    let mut channel = DMAChannel::new(2);
    let mut bus = stub_bus();
    let mut irq = Interrupts::new();
    channel.control.set_dma_transfer_type(0);
    channel.control.set_irq_upon_end_of_wordcount(1);
    channel.control.set_dma_enable(1);
    channel.internal_word_count = 3;
    channel.internal_source_address = 0x0300_0000;
    channel.internal_destination_address = 0x0300_0100;
    bus.mem_map.write_u32(0x0300_0000, 0x4433_2211);
    bus.mem_map.write_u16(0x0300_0004, 0x6655);
    channel.transfer(&mut bus, &mut irq);
    assert_eq!(bus.mem_map.read_u32(0x0300_0100), 0x4433_2211);
    assert_eq!(bus.mem_map.read_u16(0x0300_0104), 0x6655);
    assert_eq!(channel.internal_source_address, 0x0300_0006);
    assert_eq!(channel.control.get_dma_enable(), 0);
    assert!(channel.previously_disabled);
    assert_eq!(irq.if_interrupt.get_register(), 1 << 10);
    assert_eq!(bus.cycle_clock.get_cycles(), 2);
}

#[test]
fn repeating_transfer_reloads_count_and_destination() {
    let mut channel = DMAChannel::new(3);
    let mut bus = stub_bus();
    let mut irq = Interrupts::new();
    channel.control.set_dma_transfer_type(1);
    channel.control.set_dma_repeat(1);
    channel.control.set_destination_address_control(3);
    channel.destination_address.set_register(0x0300_0200);
    channel.word_count.set_register(0);
    channel.internal_word_count = 2;
    channel.internal_source_address = 0x0300_0000;
    channel.internal_destination_address = 0x0300_0100;
    channel.transfer(&mut bus, &mut irq);
    assert_eq!(channel.internal_destination_address, 0x0300_0200);
    assert_eq!(channel.internal_word_count, 0x10000);
    assert_eq!(irq.if_interrupt.get_register(), 0);
}

#[test]
fn address_steps_follow_the_controls() {
    let mut channel = DMAChannel::new(1);
    channel.internal_source_address = 0x100;
    channel.internal_destination_address = 0x200;
    channel.control.set_source_address_control(1);
    channel.control.set_destination_address_control(2);
    channel.update_source_address();
    channel.update_destination_address();
    assert_eq!(channel.internal_source_address, 0xFE);
    assert_eq!(channel.internal_destination_address, 0x200);
    channel.control.set_dma_transfer_type(1);
    channel.control.set_destination_address_control(3);
    channel.update_destination_address();
    assert_eq!(channel.internal_destination_address, 0x204);
    assert!(DMAChannel::is_dma_protected_region(0x01FF_FFFF));
    assert!(!DMAChannel::is_dma_protected_region(0x0200_0000));
}

#[test]
fn immediate_channel_starts_on_the_update_after_it_is_enabled() {
    let mut ctl = DMAController::new();
    let mut bus = stub_bus();
    let mut irq = Interrupts::new();
    bus.mem_map.write_u32(0x0300_0000, 0xDEAD_BEEF);
    ctl.dma_channels[0].source_address.set_register(0x0300_0000);
    ctl.dma_channels[0].destination_address.set_register(0x0300_0400);
    ctl.dma_channels[0].word_count.set_register(1);
    ctl.dma_channels[0].control.set_dma_transfer_type(1);
    ctl.dma_channels[0].control.set_dma_enable(1);
    ctl.update(&mut bus, &mut irq, [0, 0, 0, 0]);
    assert!(ctl.dma_channels[0].pending_immediate);
    assert_eq!(bus.mem_map.read_u32(0x0300_0400), 0);
    ctl.update(&mut bus, &mut irq, [0, 0, 0, 0]);
    assert_eq!(bus.mem_map.read_u32(0x0300_0400), 0xDEAD_BEEF);
    assert_eq!(ctl.dma_channels[0].control.get_dma_enable(), 0);
}

#[test]
fn vblank_channel_waits_for_vblank_and_sound_feeder_refills_on_overflow() {
    let mut ctl = DMAController::new();
    let mut bus = stub_bus();
    let mut irq = Interrupts::new();
    ctl.dma_channels[2].source_address.set_register(0x0300_0000);
    ctl.dma_channels[2].destination_address.set_register(0x0300_0800);
    ctl.dma_channels[2].word_count.set_register(1);
    ctl.dma_channels[2].control.set_dma_start_timing(1);
    ctl.dma_channels[2].control.set_dma_enable(1);
    bus.mem_map.write_u16(0x0300_0000, 0x1234);
    ctl.update(&mut bus, &mut irq, [0, 0, 0, 0]);
    assert_eq!(bus.mem_map.read_u16(0x0300_0800), 0);
    ctl.vblanking = true;
    ctl.update(&mut bus, &mut irq, [0, 0, 0, 0]);
    assert_eq!(bus.mem_map.read_u16(0x0300_0800), 0x1234);
    assert!(!ctl.vblanking);

    ctl.dma_channels[1].source_address.set_register(0x0300_1000);
    ctl.dma_channels[1].destination_address.set_register(0x0400_00A0);
    ctl.dma_channels[1].control.set_dma_start_timing(3);
    ctl.dma_channels[1].control.set_dma_repeat(1);
    ctl.dma_channels[1].control.set_dma_enable(1);
    ctl.update(&mut bus, &mut irq, [0, 0, 0, 0]);
    assert_eq!(bus.mem_map.fifo_a.len(), 0);
    ctl.update(&mut bus, &mut irq, [1, 0, 0, 0]);
    assert_eq!(bus.mem_map.fifo_a.len(), 16);
    assert_eq!(ctl.dma_channels[1].control.get_dma_enable(), 1);
}
