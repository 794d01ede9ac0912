use vstd::prelude::*;
use crate::interrupts::interrupts::Interrupts;
use crate::memory::dma_registers::{DMAControl, DMADestinationAddress, DMASourceAddress, DMAWordCount};
use crate::bits::with_bits;
use crate::memory::memory_bus::MemoryBus;
use crate::memory::sound_registers::SoundControlHigh;
use crate::memory::memory_map::{halfword_at, with_halfword, with_word, word_at};
use std::collections::VecDeque;

verus! {

/// The bytes one unit of a transfer moves: 2 for halfword transfers, 4 for
/// word transfers.
pub open spec fn unit_size(control: DMAControl) -> u32 {
    if control.dma_transfer_type() == 0 { 2 } else { 4 }
}

/// An address stepped by an address-control field: 0 increments it by one
/// unit, 1 decrements it, 2 keeps it (and 3, for the destination, increments
/// and reloads at the end).
pub open spec fn stepped_address(address: u32, address_control: u8, size: u32) -> int {
    if address_control == 0 || address_control == 3 {
        address + size
    } else if address_control == 1 {
        address - size
    } else {
        address as int
    }
}

/// The number of units a channel moves for a word-count register: 14 bits
/// on channels 0-2 and 16 on channel 3, where 0 stands for the maximum.
pub open spec fn reloaded_word_count(id: usize, count: u16) -> u32 {
    let n = if id != 3 { (count & 0x7FFF) as u32 } else { count as u32 };
    if n == 0 {
        if id != 3 { 0x4000 } else { 0x10000 }
    } else {
        n
    }
}

/// The source address a channel starts from: 27 bits on channel 0 (internal
/// memory only), 28 on the others.
pub open spec fn masked_source(id: usize, address: u32) -> u32 {
    if id == 0 { address & 0x7FF_FFFF } else { address & 0xFFF_FFFF }
}

/// The destination address a channel starts from: 28 bits on channel 3, 27
/// on the others.
pub open spec fn masked_destination(id: usize, address: u32) -> u32 {
    if id == 3 { address & 0xFFF_FFFF } else { address & 0x7FF_FFFF }
}

/// The state a transfer runs through: the memory, the running source and
/// destination addresses, and the value last left on the bus.
pub type TransferState = (Seq<u8>, u32, u32, u32);

/// Whether DMA reads an address from its latch instead of memory: the BIOS
/// region below 0x02000000 cannot be read by DMA.
pub open spec fn protected_address(address: u32) -> bool {
    address < 0x0200_0000
}

/// One unit of a transfer: a word (or halfword) read from the aligned source
/// (or the latch, in the protected region) and written to the aligned
/// destination; the value read stays on the bus; both addresses step.
pub open spec fn transfer_unit(s: TransferState, word: bool, src_ctl: u8, dst_ctl: u8) -> TransferState {
    let (mem, src, dst, latch) = s;
    if word {
        let a = src & 0xFFFF_FFFC;
        let v = if protected_address(a) { latch } else { word_at(mem, a as int) };
        (
            with_word(mem, (dst & 0xFFFF_FFFC) as int, v),
            stepped_address(src, src_ctl, 4) as u32,
            stepped_address(dst, dst_ctl, 4) as u32,
            v,
        )
    } else {
        let a = src & 0xFFFF_FFFE;
        let v: u16 = if protected_address(a) { latch as u16 } else { halfword_at(mem, a as int) };
        (
            with_halfword(mem, (dst & 0xFFFF_FFFE) as int, v),
            stepped_address(src, src_ctl, 2) as u32,
            stepped_address(dst, dst_ctl, 2) as u32,
            if protected_address(a) { latch } else { v as u32 },
        )
    }
}

/// The state after `n` units.
pub open spec fn transfer_units(s: TransferState, n: nat, word: bool, src_ctl: u8, dst_ctl: u8) -> TransferState
    decreases n,
{
    if n == 0 {
        s
    } else {
        transfer_unit(transfer_units(s, (n - 1) as nat, word, src_ctl, dst_ctl), word, src_ctl, dst_ctl)
    }
}

/// Whether a unit can run: the source control is valid, neither address
/// steps out of 32 bits, and the bytes it reads and writes lie in memory.
pub open spec fn transfer_unit_fits(s: TransferState, word: bool, src_ctl: u8, dst_ctl: u8) -> bool {
    let (mem, src, dst, latch) = s;
    let size: u32 = if word { 4 } else { 2 };
    let a = if word { src & 0xFFFF_FFFC } else { src & 0xFFFF_FFFE };
    let d = if word { dst & 0xFFFF_FFFC } else { dst & 0xFFFF_FFFE };
    &&& src_ctl != 3
    &&& 0 <= stepped_address(src, src_ctl, size) <= u32::MAX
    &&& 0 <= stepped_address(dst, dst_ctl, size) <= u32::MAX
    &&& !protected_address(a) ==> a + size <= mem.len()
    &&& d + size <= mem.len()
}

/// Whether all `n` units of a transfer can run.
pub open spec fn transfer_fits(s: TransferState, n: nat, word: bool, src_ctl: u8, dst_ctl: u8) -> bool {
    forall|k: nat| k < n ==> transfer_unit_fits(#[trigger] transfer_units(s, k, word, src_ctl, dst_ctl), word, src_ctl, dst_ctl)
}

/// A transfer that only reads from the protected region writes the value
/// left on the bus before it started (the channel's own latch) at every
/// destination, as a word or its low halfword, and leaves that value on
/// the bus.
pub proof fn lemma_protected_reads_write_the_latch(s: TransferState, n: nat, word: bool, src_ctl: u8, dst_ctl: u8)
    requires
        forall|k: nat| k < n ==> protected_address(
            #[trigger] transfer_units(s, k, word, src_ctl, dst_ctl).1 & (if word { 0xFFFF_FFFCu32 } else { 0xFFFF_FFFEu32 }),
        ),
    ensures
        transfer_units(s, n, word, src_ctl, dst_ctl).3 == s.3,
        forall|k: nat| k < n ==> {
            let before = transfer_units(s, k, word, src_ctl, dst_ctl);
            #[trigger] transfer_units(s, k + 1, word, src_ctl, dst_ctl).0 == if word {
                with_word(before.0, (before.2 & 0xFFFF_FFFC) as int, s.3)
            } else {
                with_halfword(before.0, (before.2 & 0xFFFF_FFFE) as int, s.3 as u16)
            }
        },
    decreases n,
{
    if n > 0 {
        lemma_protected_reads_write_the_latch(s, (n - 1) as nat, word, src_ctl, dst_ctl);
        assert forall|k: nat| k < n implies {
            let before = transfer_units(s, k, word, src_ctl, dst_ctl);
            #[trigger] transfer_units(s, k + 1, word, src_ctl, dst_ctl).0 == if word {
                with_word(before.0, (before.2 & 0xFFFF_FFFC) as int, s.3)
            } else {
                with_halfword(before.0, (before.2 & 0xFFFF_FFFE) as int, s.3 as u16)
            }
        } by {
            if k < n - 1 {
            } else {
                assert(k == n - 1);
                assert(transfer_units(s, k, word, src_ctl, dst_ctl).3 == s.3);
            }
        }
        let m = (n - 1) as nat;
        assert(transfer_units(s, m, word, src_ctl, dst_ctl).3 == s.3);
        assert(protected_address(transfer_units(s, m, word, src_ctl, dst_ctl).1 & (if word { 0xFFFF_FFFCu32 } else { 0xFFFF_FFFEu32 })));
    }
}

/// Whether an address is in cartridge space (0x08000000-0x0DFFFFFF).
pub open spec fn gamepak_address(address: u32) -> bool {
    0x08 <= (address >> 24u32) <= 0x0D
}

/// The cost of starting a transfer: 2 cycles, 2 more when both addresses are
/// in cartridge space.
pub open spec fn transfer_start_cycles(src: u32, dst: u32) -> int {
    if gamepak_address(src) && gamepak_address(dst) { 4 } else { 2 }
}

/// A sound FIFO after a byte is offered to it: it holds at most 32 bytes,
/// and a byte that finds it full is dropped.
pub open spec fn pushed_if_room(fifo: Seq<u8>, byte: u8) -> Seq<u8> {
    if fifo.len() < 32 { fifo.push(byte) } else { fifo }
}

/// A sound FIFO after the four bytes of a word are offered to it, lowest
/// first.
pub open spec fn fifo_with_word(fifo: Seq<u8>, value: u32) -> Seq<u8> {
    pushed_if_room(
        pushed_if_room(
            pushed_if_room(pushed_if_room(fifo, (value & 0xFF) as u8), ((value >> 8u32) & 0xFF) as u8),
            ((value >> 16u32) & 0xFF) as u8,
        ),
        (value >> 24u32) as u8,
    )
}

/// The state a FIFO refill runs through: the running source address, the
/// value last left on the bus, and the FIFO.
pub type RefillState = (u32, u32, Seq<u8>);

/// One word of a FIFO refill: read from the aligned source (or the latch, in
/// the protected region), offered to the FIFO, left on the bus; the source
/// steps by four bytes.
pub open spec fn refill_unit(s: RefillState, mem: Seq<u8>, src_ctl: u8) -> RefillState {
    let (src, latch, fifo) = s;
    let a = src & 0xFFFF_FFFC;
    let v = if protected_address(a) { latch } else { word_at(mem, a as int) };
    (stepped_address(src, src_ctl, 4) as u32, v, fifo_with_word(fifo, v))
}

/// The state after `n` words of a refill.
pub open spec fn refill_units(s: RefillState, mem: Seq<u8>, n: nat, src_ctl: u8) -> RefillState
    decreases n,
{
    if n == 0 { s } else { refill_unit(refill_units(s, mem, (n - 1) as nat, src_ctl), mem, src_ctl) }
}

/// Whether all `n` words of a refill can run: a valid source control, a
/// source that stays in 32 bits, and words read inside memory.
pub open spec fn refill_fits(s: RefillState, mem: Seq<u8>, n: nat, src_ctl: u8) -> bool {
    &&& src_ctl != 3
    &&& forall|k: nat| k < n ==> {
        let src = (#[trigger] refill_units(s, mem, k, src_ctl)).0;
        &&& 0 <= stepped_address(src, src_ctl, 4) <= u32::MAX
        &&& !protected_address(src & 0xFFFF_FFFC) ==> (src & 0xFFFF_FFFC) + 4 <= mem.len()
    }
}

/// Offers the four bytes of a word to a sound FIFO (see `fifo_with_word`).
fn push_word(fifo: &mut VecDeque<u8>, value: u32)
    ensures
        final(fifo)@ == fifo_with_word(old(fifo)@, value),
{
    if fifo.len() < 32 {
        fifo.push_back((value & 0xFF) as u8);
    }
    if fifo.len() < 32 {
        fifo.push_back(((value >> 8u32) & 0xFF) as u8);
    }
    if fifo.len() < 32 {
        fifo.push_back(((value >> 16u32) & 0xFF) as u8);
    }
    if fifo.len() < 32 {
        fifo.push_back((value >> 24u32) as u8);
    }
}

/// What DMA sees of the bus: the memory, sound FIFO A, sound FIFO B, the
/// value left on the bus and the cycle count.
pub type BusState = (Seq<u8>, Seq<u8>, Seq<u8>, Option<u32>, int);

/// The state of a bus as DMA sees it.
pub open spec fn bus_state(bus: &MemoryBus) -> BusState {
    (bus.mem_map.memory@, bus.mem_map.fifo_a@, bus.mem_map.fifo_b@, bus.mem_map.dma_bus_override, bus.cycle_clock.cycles as int)
}

/// The channel, bus and requested interrupts after a whole transfer (see
/// `DMAChannel::transfer`).
pub open spec fn transferred(ch: DMAChannel, b: BusState, irq: u16) -> (DMAChannel, BusState, u16) {
    let end = transfer_units(
        ch.transfer_state(b.0),
        ch.internal_word_count as nat,
        ch.moves_words(),
        ch.control.source_address_control(),
        ch.control.destination_address_control(),
    );
    let one_shot = ch.control.dma_repeat() == 0;
    let ch2 = DMAChannel {
        internal_source_address: end.1,
        last_bus_value: end.3,
        internal_destination_address: if !one_shot && ch.control.destination_address_control() == 3 {
            ch.destination_address.value
        } else {
            end.2
        },
        control: if one_shot {
            DMAControl { value: with_bits(ch.control.value as u32, 15, 1, 0) as u16, ..ch.control }
        } else {
            ch.control
        },
        previously_disabled: if one_shot { true } else { ch.previously_disabled },
        internal_word_count: if one_shot {
            ch.internal_word_count
        } else {
            reloaded_word_count(ch.id, ch.word_count.value)
        },
        ..ch
    };
    let b2 = (
        end.0,
        b.1,
        b.2,
        if ch.internal_word_count > 0 { Some(end.3) } else { b.3 },
        b.4 + transfer_start_cycles(ch.internal_source_address, ch.internal_destination_address),
    );
    let irq2 = if ch.control.irq_upon_end_of_wordcount() != 0 {
        ((irq as u32) | (1u32 << (8 + ch.id) as u32)) as u16
    } else {
        irq
    };
    (ch2, b2, irq2)
}

/// Whether a whole transfer can run on a bus.
pub open spec fn transfer_possible(ch: DMAChannel, b: BusState) -> bool {
    &&& ch.id < 4
    &&& b.4 + 4 <= u32::MAX
    &&& transfer_fits(
        ch.transfer_state(b.0),
        ch.internal_word_count as nat,
        ch.moves_words(),
        ch.control.source_address_control(),
        ch.control.destination_address_control(),
    )
}

/// The channel and bus after a FIFO refill (see `DMAChannel::refill_sound_fifo`).
pub open spec fn refilled(ch: DMAChannel, b: BusState, is_fifo_a: bool) -> (DMAChannel, BusState) {
    let end = refill_units(
        (ch.internal_source_address, ch.last_bus_value, if is_fifo_a { b.1 } else { b.2 }),
        b.0,
        4,
        ch.control.source_address_control(),
    );
    (
        DMAChannel { internal_source_address: end.0, last_bus_value: end.1, ..ch },
        (b.0, if is_fifo_a { end.2 } else { b.1 }, if is_fifo_a { b.2 } else { end.2 }, Some(end.1), b.4 + 2),
    )
}

/// Whether a FIFO refill can run on a bus.
pub open spec fn refill_possible(ch: DMAChannel, b: BusState, is_fifo_a: bool) -> bool {
    &&& b.4 + 2 <= u32::MAX
    &&& refill_fits(
        (ch.internal_source_address, ch.last_bus_value, if is_fifo_a { b.1 } else { b.2 }),
        b.0,
        4,
        ch.control.source_address_control(),
    )
}

/// The address of sound FIFO A.
pub const FIFO_A_ADDRESS: u32 = 0x0400_00A0;

/// The address of sound FIFO B.
pub const FIFO_B_ADDRESS: u32 = 0x0400_00A4;

/// The channel after the registers are loaded into a channel that was just
/// enabled.
pub open spec fn started(ch: DMAChannel) -> DMAChannel {
    if ch.previously_disabled {
        DMAChannel {
            internal_source_address: masked_source(ch.id, ch.source_address.value),
            internal_destination_address: masked_destination(ch.id, ch.destination_address.value),
            internal_word_count: reloaded_word_count(ch.id, ch.word_count.value),
            previously_disabled: false,
            ..ch
        }
    } else {
        ch
    }
}

/// Whether a started channel in sound FIFO mode feeds FIFO A (else B), and
/// whether it feeds one at all: only channels 1 and 2 can, when their
/// destination register holds the FIFO's address.
pub open spec fn feeds_fifo_a(ch: DMAChannel) -> bool {
    (ch.id == 1 || ch.id == 2) && ch.destination_address.value == FIFO_A_ADDRESS
}

pub open spec fn feeds_fifo_b(ch: DMAChannel) -> bool {
    (ch.id == 1 || ch.id == 2) && ch.destination_address.value == FIFO_B_ADDRESS
}

/// Whether a FIFO-feeding channel refills now: its timer overflowed since the
/// last update and its FIFO holds at most 16 bytes.
pub open spec fn fifo_wants_refill(ch: DMAChannel, b: BusState, sound: SoundControlHigh, overflows: Seq<usize>) -> bool {
    let a = feeds_fifo_a(ch);
    let timer = if a { sound.dma_sound_a_timer_select() } else { sound.dma_sound_b_timer_select() };
    let len = if a { b.1.len() } else { b.2.len() };
    overflows[timer as int] > 0 && len <= 16
}

/// What one update does to one channel: an enabled channel is started, then
/// acts by its start timing — immediately (on the update after the one that
/// saw it enabled), at V-blank, at H-blank, or as a sound FIFO feeder (which
/// switches itself off afterwards unless it repeats); a disabled channel
/// forgets a pending immediate start and counts as disabled.
pub open spec fn channel_update(
    ch: DMAChannel,
    b: BusState,
    irq: u16,
    vblanking: bool,
    hblanking: bool,
    sound: SoundControlHigh,
    overflows: Seq<usize>,
) -> (DMAChannel, BusState, u16) {
    if ch.control.dma_enable() == 1 {
        let c = started(ch);
        let timing = c.control.dma_start_timing();
        if timing == 0 {
            if c.pending_immediate {
                transferred(DMAChannel { pending_immediate: false, ..c }, b, irq)
            } else {
                (DMAChannel { pending_immediate: true, ..c }, b, irq)
            }
        } else if timing == 1 {
            if vblanking { transferred(c, b, irq) } else { (c, b, irq) }
        } else if timing == 2 {
            if hblanking { transferred(c, b, irq) } else { (c, b, irq) }
        } else {
            let (c2, b2) = if (feeds_fifo_a(c) || feeds_fifo_b(c)) && fifo_wants_refill(c, b, sound, overflows) {
                refilled(c, b, feeds_fifo_a(c))
            } else {
                (c, b)
            };
            let c3 = if c2.control.dma_repeat() == 0 {
                DMAChannel {
                    control: DMAControl { value: with_bits(c2.control.value as u32, 15, 1, 0) as u16, ..c2.control },
                    ..c2
                }
            } else {
                c2
            };
            (c3, b2, irq)
        }
    } else {
        (DMAChannel { pending_immediate: false, previously_disabled: true, ..ch }, b, irq)
    }
}

/// A freshly enabled immediate channel waits one update: the update that
/// first sees it enabled only marks it pending and moves nothing, and the
/// next update, with the channel still set the same way, runs its transfer.
pub proof fn lemma_immediate_waits_one_update(
    ch: DMAChannel,
    b: BusState,
    irq: u16,
    vblanking: bool,
    hblanking: bool,
    sound: SoundControlHigh,
    overflows: Seq<usize>,
    b_next: BusState,
    irq_next: u16,
    vblanking_next: bool,
    hblanking_next: bool,
    overflows_next: Seq<usize>,
)
    requires
        ch.control.dma_enable() == 1,
        ch.control.dma_start_timing() == 0,
        !ch.pending_immediate,
    ensures
        ({
            let (c1, b1, irq1) = channel_update(ch, b, irq, vblanking, hblanking, sound, overflows);
            &&& c1 == (DMAChannel { pending_immediate: true, ..started(ch) })
            &&& b1 == b
            &&& irq1 == irq
            &&& channel_update(c1, b_next, irq_next, vblanking_next, hblanking_next, sound, overflows_next)
                == transferred(DMAChannel { pending_immediate: false, ..c1 }, b_next, irq_next)
        }),
{
}

/// Whether the transfer or refill that `channel_update` would run can run.
pub open spec fn channel_update_possible(
    ch: DMAChannel,
    b: BusState,
    vblanking: bool,
    hblanking: bool,
    sound: SoundControlHigh,
    overflows: Seq<usize>,
) -> bool {
    ch.control.dma_enable() == 1 ==> {
        let c = started(ch);
        let timing = c.control.dma_start_timing();
        &&& timing == 0 && c.pending_immediate ==> transfer_possible(DMAChannel { pending_immediate: false, ..c }, b)
        &&& timing == 1 && vblanking ==> transfer_possible(c, b)
        &&& timing == 2 && hblanking ==> transfer_possible(c, b)
        &&& timing == 3 && (feeds_fifo_a(c) || feeds_fifo_b(c)) && fifo_wants_refill(c, b, sound, overflows)
            ==> refill_possible(c, b, feeds_fifo_a(c))
    }
}

/// The channels, bus and requested interrupts after the first `k` channels
/// have been updated, in order.
pub open spec fn channels_updated(
    chs: Seq<DMAChannel>,
    b: BusState,
    irq: u16,
    k: nat,
    vblanking: bool,
    hblanking: bool,
    sound: SoundControlHigh,
    overflows: Seq<usize>,
) -> (Seq<DMAChannel>, BusState, u16)
    decreases k,
{
    if k == 0 {
        (chs, b, irq)
    } else {
        let (c, b1, i1) = channels_updated(chs, b, irq, (k - 1) as nat, vblanking, hblanking, sound, overflows);
        let (ch2, b2, i2) = channel_update(c[k - 1], b1, i1, vblanking, hblanking, sound, overflows);
        (c.update(k - 1, ch2), b2, i2)
    }
}

/// Whether every channel's update can run, each on the state the channels
/// before it left.
pub open spec fn channels_update_possible(
    chs: Seq<DMAChannel>,
    b: BusState,
    irq: u16,
    vblanking: bool,
    hblanking: bool,
    sound: SoundControlHigh,
    overflows: Seq<usize>,
) -> bool {
    forall|k: nat| k < 4 ==> {
        let st = #[trigger] channels_updated(chs, b, irq, k, vblanking, hblanking, sound, overflows);
        channel_update_possible(st.0[k as int], st.1, vblanking, hblanking, sound, overflows)
    }
}

/// A DMA channel: its registers and its running source, destination and count.
#[derive(Clone, Copy, Debug)]
pub struct DMAChannel {
    pub source_address: DMASourceAddress,
    pub destination_address: DMADestinationAddress,
    pub word_count: DMAWordCount,
    pub control: DMAControl,
    pub internal_source_address: u32,
    pub internal_destination_address: u32,
    pub internal_word_count: u32,
    pub id: usize,
    pub previously_disabled: bool,
    pub pending_immediate: bool,
    pub last_bus_value: u32,
}

impl DMAChannel {
    /// The transfer state of this channel over a memory.
    pub open spec fn transfer_state(&self, mem: Seq<u8>) -> TransferState {
        (mem, self.internal_source_address, self.internal_destination_address, self.last_bus_value)
    }

    /// Whether the channel moves words (else halfwords).
    pub open spec fn moves_words(&self) -> bool {
        self.control.dma_transfer_type() != 0
    }

    /// Channel `channel` (0-3), idle, with every register zero.
    pub fn new(channel: usize) -> (ch: DMAChannel)
        requires
            channel < 4,
        ensures
            ch.id == channel,
            ch.source_address.index == channel && ch.source_address.value == 0,
            ch.destination_address.index == channel && ch.destination_address.value == 0,
            ch.word_count.index == channel && ch.word_count.value == 0,
            ch.control.index == channel && ch.control.value == 0,
            ch.internal_source_address == 0,
            ch.internal_destination_address == 0,
            ch.internal_word_count == 0,
            ch.previously_disabled,
            !ch.pending_immediate,
            ch.last_bus_value == 0,
    {
        DMAChannel {
            source_address: DMASourceAddress::new(channel),
            destination_address: DMADestinationAddress::new(channel),
            word_count: DMAWordCount::new(channel),
            control: DMAControl::new(channel),
            internal_source_address: 0,
            internal_destination_address: 0,
            internal_word_count: 0,
            id: channel,
            previously_disabled: true,
            pending_immediate: false,
            last_bus_value: 0,
        }
    }

    /// Whether DMA may not read an address: the BIOS region below 0x02000000.
    pub fn is_dma_protected_region(address: u32) -> (protected: bool)
        ensures
            protected == (address < 0x0200_0000),
    {
        address < 0x0200_0000
    }

    /// Steps the running source address by one unit as the source address
    /// control says (3 is not a valid source control).
    pub fn update_source_address(&mut self)
        requires
            old(self).control.source_address_control() != 3,
            0 <= stepped_address(
                old(self).internal_source_address,
                old(self).control.source_address_control(),
                unit_size(old(self).control),
            ) <= u32::MAX,
        ensures
            final(self).internal_source_address == stepped_address(
                old(self).internal_source_address,
                old(self).control.source_address_control(),
                unit_size(old(self).control),
            ),
            *final(self) == (DMAChannel { internal_source_address: final(self).internal_source_address, ..*old(self) }),
    {
        let word_size: u32 = if self.control.get_dma_transfer_type() == 0 { 2 } else { 4 };
        match self.control.get_source_address_control() {
            0 => {
                self.internal_source_address = self.internal_source_address + word_size;
            },
            1 => {
                self.internal_source_address = self.internal_source_address - word_size;
            },
            _ => {},
        }
    }

    /// Steps the running destination address by one unit as the destination
    /// address control says.
    pub fn update_destination_address(&mut self)
        requires
            0 <= stepped_address(
                old(self).internal_destination_address,
                old(self).control.destination_address_control(),
                unit_size(old(self).control),
            ) <= u32::MAX,
        ensures
            final(self).internal_destination_address == stepped_address(
                old(self).internal_destination_address,
                old(self).control.destination_address_control(),
                unit_size(old(self).control),
            ),
            *final(self) == (DMAChannel {
                internal_destination_address: final(self).internal_destination_address,
                ..*old(self)
            }),
    {
        let word_size: u32 = if self.control.get_dma_transfer_type() == 0 { 2 } else { 4 };
        match self.control.get_destination_address_control() {
            0 | 3 => {
                self.internal_destination_address = self.internal_destination_address + word_size;
            },
            1 => {
                self.internal_destination_address = self.internal_destination_address - word_size;
            },
            _ => {},
        }
    }

    /// Reads a word for the transfer: from the latch in the protected region,
    /// else from memory; either way the value is left on the bus.
    fn latched_read_u32(&mut self, mem_map: &mut MemoryBus, address: u32) -> (value: u32)
        requires
            !protected_address(address) ==> address + 3 < old(mem_map).mem_map.memory.len(),
        ensures
            value == (if protected_address(address) {
                old(self).last_bus_value
            } else {
                word_at(old(mem_map).mem_map.memory@, address as int)
            }),
            *final(self) == (DMAChannel { last_bus_value: value, ..*old(self) }),
            final(mem_map).mem_map.dma_bus_override == Some(value),
            final(mem_map).mem_map.memory == old(mem_map).mem_map.memory,
            final(mem_map).mem_map.fifo_a == old(mem_map).mem_map.fifo_a,
            final(mem_map).mem_map.fifo_b == old(mem_map).mem_map.fifo_b,
            final(mem_map).mem_map.flash == old(mem_map).mem_map.flash,
            final(mem_map).mem_map.backup_type == old(mem_map).mem_map.backup_type,
            final(mem_map).mem_map.halt_state == old(mem_map).mem_map.halt_state,
            final(mem_map).cycle_clock == old(mem_map).cycle_clock,
    {
        let value = if DMAChannel::is_dma_protected_region(address) {
            self.last_bus_value
        } else {
            mem_map.mem_map.read_u32(address)
        };
        self.last_bus_value = value;
        mem_map.mem_map.dma_bus_override = Some(value);
        value
    }

    /// Reads a halfword for the transfer: from the latch in the protected
    /// region (whose value stays on the bus), else from memory (and the
    /// halfword read is left on the bus).
    fn latched_read_u16(&mut self, mem_map: &mut MemoryBus, address: u32) -> (value: u16)
        requires
            !protected_address(address) ==> address + 1 < old(mem_map).mem_map.memory.len(),
        ensures
            value == (if protected_address(address) {
                old(self).last_bus_value as u16
            } else {
                halfword_at(old(mem_map).mem_map.memory@, address as int)
            }),
            final(self).last_bus_value == (if protected_address(address) { old(self).last_bus_value } else { value as u32 }),
            *final(self) == (DMAChannel { last_bus_value: final(self).last_bus_value, ..*old(self) }),
            final(mem_map).mem_map.dma_bus_override == Some(final(self).last_bus_value),
            final(mem_map).mem_map.memory == old(mem_map).mem_map.memory,
            final(mem_map).mem_map.fifo_a == old(mem_map).mem_map.fifo_a,
            final(mem_map).mem_map.fifo_b == old(mem_map).mem_map.fifo_b,
            final(mem_map).mem_map.flash == old(mem_map).mem_map.flash,
            final(mem_map).mem_map.backup_type == old(mem_map).mem_map.backup_type,
            final(mem_map).mem_map.halt_state == old(mem_map).mem_map.halt_state,
            final(mem_map).cycle_clock == old(mem_map).cycle_clock,
    {
        if DMAChannel::is_dma_protected_region(address) {
            let latched = self.last_bus_value;
            mem_map.mem_map.dma_bus_override = Some(latched);
            return latched as u16;
        }
        let value = mem_map.mem_map.read_u16(address);
        self.last_bus_value = value as u32;
        mem_map.mem_map.dma_bus_override = Some(value as u32);
        value
    }

    /// Runs `count` units of a transfer from the current running state (see
    /// `transfer_units`).
    fn run_units(&mut self, mem_map: &mut MemoryBus, count: u32)
        requires
            transfer_fits(
                old(self).transfer_state(old(mem_map).mem_map.memory@),
                count as nat,
                old(self).moves_words(),
                old(self).control.source_address_control(),
                old(self).control.destination_address_control(),
            ),
        ensures
            final(self).transfer_state(final(mem_map).mem_map.memory@) == transfer_units(
                old(self).transfer_state(old(mem_map).mem_map.memory@),
                count as nat,
                old(self).moves_words(),
                old(self).control.source_address_control(),
                old(self).control.destination_address_control(),
            ),
            *final(self) == (DMAChannel {
                internal_source_address: final(self).internal_source_address,
                internal_destination_address: final(self).internal_destination_address,
                last_bus_value: final(self).last_bus_value,
                ..*old(self)
            }),
            final(mem_map).mem_map.dma_bus_override == (if count > 0 {
                Some(final(self).last_bus_value)
            } else {
                old(mem_map).mem_map.dma_bus_override
            }),
            final(mem_map).mem_map.memory.len() == old(mem_map).mem_map.memory.len(),
            final(mem_map).mem_map.fifo_a == old(mem_map).mem_map.fifo_a,
            final(mem_map).mem_map.fifo_b == old(mem_map).mem_map.fifo_b,
            final(mem_map).mem_map.flash == old(mem_map).mem_map.flash,
            final(mem_map).mem_map.backup_type == old(mem_map).mem_map.backup_type,
            final(mem_map).mem_map.halt_state == old(mem_map).mem_map.halt_state,
            final(mem_map).cycle_clock == old(mem_map).cycle_clock,
    {
        let word = self.control.get_dma_transfer_type() != 0;
        let ghost init = self.transfer_state(mem_map.mem_map.memory@);
        let ghost sc = self.control.source_address_control();
        let ghost dc = self.control.destination_address_control();
        let mut i: u32 = 0;
        while i < count
            invariant
                i <= count,
                word == old(self).moves_words(),
                sc == old(self).control.source_address_control(),
                dc == old(self).control.destination_address_control(),
                init == old(self).transfer_state(old(mem_map).mem_map.memory@),
                transfer_fits(init, count as nat, word, sc, dc),
                self.transfer_state(mem_map.mem_map.memory@) == transfer_units(init, i as nat, word, sc, dc),
                *self == (DMAChannel {
                    internal_source_address: self.internal_source_address,
                    internal_destination_address: self.internal_destination_address,
                    last_bus_value: self.last_bus_value,
                    ..*old(self)
                }),
                mem_map.mem_map.dma_bus_override == (if i > 0 {
                    Some(self.last_bus_value)
                } else {
                    old(mem_map).mem_map.dma_bus_override
                }),
                mem_map.mem_map.memory.len() == old(mem_map).mem_map.memory.len(),
                mem_map.mem_map.fifo_a == old(mem_map).mem_map.fifo_a,
                mem_map.mem_map.fifo_b == old(mem_map).mem_map.fifo_b,
                mem_map.mem_map.flash == old(mem_map).mem_map.flash,
                mem_map.mem_map.backup_type == old(mem_map).mem_map.backup_type,
                mem_map.mem_map.halt_state == old(mem_map).mem_map.halt_state,
                mem_map.cycle_clock == old(mem_map).cycle_clock,
            decreases count - i,
        {
            proof {
                assert(transfer_unit_fits(transfer_units(init, i as nat, word, sc, dc), word, sc, dc));
            }
            if word {
                let value = self.latched_read_u32(mem_map, self.internal_source_address & 0xFFFF_FFFC);
                mem_map.mem_map.write_u32(self.internal_destination_address & 0xFFFF_FFFC, value);
            } else {
                let value = self.latched_read_u16(mem_map, self.internal_source_address & 0xFFFF_FFFE);
                mem_map.mem_map.write_u16(self.internal_destination_address & 0xFFFF_FFFE, value);
            }
            self.update_source_address();
            self.update_destination_address();
            i = i + 1;
        }
    }

    /// Runs a whole transfer of `internal_word_count` units (see
    /// `transfer_units`), which costs `transfer_start_cycles`. At the end the
    /// channel requests its interrupt (bit 8 + id) when its control asks for
    /// one; a one-shot channel switches itself off and counts as disabled; a
    /// repeating one reloads its count, and its destination address too when
    /// the destination control is 3. Reads of the EEPROM and its preparation
    /// are not part of this model.
    pub fn transfer(&mut self, mem_map: &mut MemoryBus, irq_ctl: &mut Interrupts)
        requires
            old(self).id < 4,
            old(mem_map).cycle_clock.cycles + 4 <= u32::MAX,
            transfer_fits(
                old(self).transfer_state(old(mem_map).mem_map.memory@),
                old(self).internal_word_count as nat,
                old(self).moves_words(),
                old(self).control.source_address_control(),
                old(self).control.destination_address_control(),
            ),
        ensures
            ({
                let end = transfer_units(
                    old(self).transfer_state(old(mem_map).mem_map.memory@),
                    old(self).internal_word_count as nat,
                    old(self).moves_words(),
                    old(self).control.source_address_control(),
                    old(self).control.destination_address_control(),
                );
                &&& final(mem_map).mem_map.memory@ == end.0
                &&& final(self).internal_source_address == end.1
                &&& final(self).last_bus_value == end.3
                &&& final(self).internal_destination_address == (if old(self).control.dma_repeat() != 0
                    && old(self).control.destination_address_control() == 3 {
                    old(self).destination_address.value
                } else {
                    end.2
                })
                &&& final(mem_map).mem_map.dma_bus_override == (if old(self).internal_word_count > 0 {
                    Some(end.3)
                } else {
                    old(mem_map).mem_map.dma_bus_override
                })
            }),
            final(mem_map).cycle_clock.cycles == old(mem_map).cycle_clock.cycles + transfer_start_cycles(
                old(self).internal_source_address,
                old(self).internal_destination_address,
            ),
            final(irq_ctl).if_interrupt.value == (if old(self).control.irq_upon_end_of_wordcount() != 0 {
                ((old(irq_ctl).if_interrupt.value as u32) | (1u32 << (8 + old(self).id) as u32)) as u16
            } else {
                old(irq_ctl).if_interrupt.value
            }),
            final(irq_ctl).ie_interrupt == old(irq_ctl).ie_interrupt,
            final(irq_ctl).ime_interrupt == old(irq_ctl).ime_interrupt,
            old(self).control.dma_repeat() == 0 ==> {
                &&& final(self).control.dma_enable() == 0
                &&& final(self).control.value == crate::bits::with_bits(old(self).control.value as u32, 15, 1, 0) as u16
                &&& final(self).control.index == old(self).control.index
                &&& final(self).previously_disabled
                &&& final(self).internal_word_count == old(self).internal_word_count
            },
            old(self).control.dma_repeat() != 0 ==> {
                &&& final(self).control == old(self).control
                &&& final(self).previously_disabled == old(self).previously_disabled
                &&& final(self).internal_word_count == reloaded_word_count(old(self).id, old(self).word_count.value)
            },
            final(self).source_address == old(self).source_address,
            final(self).destination_address == old(self).destination_address,
            final(self).word_count == old(self).word_count,
            final(self).id == old(self).id,
            final(self).pending_immediate == old(self).pending_immediate,
            final(mem_map).mem_map.fifo_a == old(mem_map).mem_map.fifo_a,
            final(mem_map).mem_map.fifo_b == old(mem_map).mem_map.fifo_b,
            final(mem_map).mem_map.flash == old(mem_map).mem_map.flash,
            final(mem_map).mem_map.backup_type == old(mem_map).mem_map.backup_type,
            final(mem_map).mem_map.halt_state == old(mem_map).mem_map.halt_state,
            (*final(self), bus_state(final(mem_map)), final(irq_ctl).if_interrupt.value) == transferred(
                *old(self),
                bus_state(old(mem_map)),
                old(irq_ctl).if_interrupt.value,
            ),
    {
        mem_map.cycle_clock.cycles = mem_map.cycle_clock.cycles + 2;
        let src_region = self.internal_source_address >> 24u32;
        let dst_region = self.internal_destination_address >> 24u32;
        let src_is_gamepak = 0x08 <= src_region && src_region <= 0x0D;
        let dst_is_gamepak = 0x08 <= dst_region && dst_region <= 0x0D;
        if src_is_gamepak && dst_is_gamepak {
            mem_map.cycle_clock.cycles = mem_map.cycle_clock.cycles + 2;
        }
        let count = self.internal_word_count;
        self.run_units(mem_map, count);
        if self.control.get_irq_upon_end_of_wordcount() != 0 {
            let raised = (irq_ctl.if_interrupt.get_register() as u32) | (1u32 << ((8 + self.id) as u32));
            irq_ctl.if_interrupt.set_register(raised);
        }
        if self.control.get_dma_repeat() == 0 {
            self.control.set_dma_enable(0);
            self.previously_disabled = true;
        } else {
            if self.control.get_destination_address_control() == 3 {
                self.internal_destination_address = self.destination_address.get_address();
            }
            self.reload_wordcount();
        }
    }

    /// Refills a direct sound FIFO (A or B) with four words from the running
    /// source (see `refill_units`), at a cost of 2 cycles.
    pub fn refill_sound_fifo(&mut self, mem_map: &mut MemoryBus, is_fifo_a: bool)
        requires
            old(mem_map).cycle_clock.cycles + 2 <= u32::MAX,
            refill_fits(
                (
                    old(self).internal_source_address,
                    old(self).last_bus_value,
                    if is_fifo_a { old(mem_map).mem_map.fifo_a@ } else { old(mem_map).mem_map.fifo_b@ },
                ),
                old(mem_map).mem_map.memory@,
                4,
                old(self).control.source_address_control(),
            ),
        ensures
            ({
                let end = refill_units(
                    (
                        old(self).internal_source_address,
                        old(self).last_bus_value,
                        if is_fifo_a { old(mem_map).mem_map.fifo_a@ } else { old(mem_map).mem_map.fifo_b@ },
                    ),
                    old(mem_map).mem_map.memory@,
                    4,
                    old(self).control.source_address_control(),
                );
                &&& final(self).internal_source_address == end.0
                &&& final(self).last_bus_value == end.1
                &&& final(mem_map).mem_map.dma_bus_override == Some(end.1)
                &&& is_fifo_a ==> final(mem_map).mem_map.fifo_a@ == end.2 && final(mem_map).mem_map.fifo_b
                    == old(mem_map).mem_map.fifo_b
                &&& !is_fifo_a ==> final(mem_map).mem_map.fifo_b@ == end.2 && final(mem_map).mem_map.fifo_a
                    == old(mem_map).mem_map.fifo_a
            }),
            *final(self) == (DMAChannel {
                internal_source_address: final(self).internal_source_address,
                last_bus_value: final(self).last_bus_value,
                ..*old(self)
            }),
            final(mem_map).cycle_clock.cycles == old(mem_map).cycle_clock.cycles + 2,
            final(mem_map).mem_map.memory == old(mem_map).mem_map.memory,
            final(mem_map).mem_map.flash == old(mem_map).mem_map.flash,
            final(mem_map).mem_map.backup_type == old(mem_map).mem_map.backup_type,
            final(mem_map).mem_map.halt_state == old(mem_map).mem_map.halt_state,
            (*final(self), bus_state(final(mem_map))) == refilled(*old(self), bus_state(old(mem_map)), is_fifo_a),
    {
        mem_map.cycle_clock.cycles = mem_map.cycle_clock.cycles + 2;
        let ghost init: RefillState = (
            self.internal_source_address,
            self.last_bus_value,
            if is_fifo_a { mem_map.mem_map.fifo_a@ } else { mem_map.mem_map.fifo_b@ },
        );
        let ghost mem = mem_map.mem_map.memory@;
        let ghost sc = self.control.source_address_control();
        let mut i: u32 = 0;
        while i < 4
            invariant
                i <= 4,
                mem == old(mem_map).mem_map.memory@,
                sc == old(self).control.source_address_control(),
                init == (
                    old(self).internal_source_address,
                    old(self).last_bus_value,
                    if is_fifo_a { old(mem_map).mem_map.fifo_a@ } else { old(mem_map).mem_map.fifo_b@ },
                ),
                refill_fits(init, mem, 4, sc),
                (self.internal_source_address, self.last_bus_value, if is_fifo_a {
                    mem_map.mem_map.fifo_a@
                } else {
                    mem_map.mem_map.fifo_b@
                }) == refill_units(init, mem, i as nat, sc),
                is_fifo_a ==> mem_map.mem_map.fifo_b == old(mem_map).mem_map.fifo_b,
                !is_fifo_a ==> mem_map.mem_map.fifo_a == old(mem_map).mem_map.fifo_a,
                i > 0 ==> mem_map.mem_map.dma_bus_override == Some(self.last_bus_value),
                *self == (DMAChannel {
                    internal_source_address: self.internal_source_address,
                    last_bus_value: self.last_bus_value,
                    ..*old(self)
                }),
                mem_map.cycle_clock.cycles == old(mem_map).cycle_clock.cycles + 2,
                mem_map.mem_map.memory == old(mem_map).mem_map.memory,
                mem_map.mem_map.flash == old(mem_map).mem_map.flash,
                mem_map.mem_map.backup_type == old(mem_map).mem_map.backup_type,
                mem_map.mem_map.halt_state == old(mem_map).mem_map.halt_state,
            decreases 4 - i,
        {
            proof {
                let k = i as nat;
                assert(k < 4);
                let _ = refill_units(init, mem, k, sc);
            }
            let value = self.latched_read_u32(mem_map, self.internal_source_address & 0xFFFF_FFFC);
            if is_fifo_a {
                push_word(&mut mem_map.mem_map.fifo_a, value);
            } else {
                push_word(&mut mem_map.mem_map.fifo_b, value);
            }
            match self.control.get_source_address_control() {
                0 => {
                    self.internal_source_address = self.internal_source_address + 4;
                },
                1 => {
                    self.internal_source_address = self.internal_source_address - 4;
                },
                _ => {},
            }
            i = i + 1;
        }
    }

    /// Loads the running addresses and count from the registers (see
    /// `masked_source`, `masked_destination` and `reloaded_word_count`).
    fn reload_data(&mut self)
        ensures
            final(self).internal_source_address == masked_source(old(self).id, old(self).source_address.value),
            final(self).internal_destination_address == masked_destination(
                old(self).id,
                old(self).destination_address.value,
            ),
            final(self).internal_word_count == reloaded_word_count(old(self).id, old(self).word_count.value),
            *final(self) == (DMAChannel {
                internal_source_address: final(self).internal_source_address,
                internal_destination_address: final(self).internal_destination_address,
                internal_word_count: final(self).internal_word_count,
                ..*old(self)
            }),
    {
        self.internal_source_address = if self.id == 0 {
            self.source_address.get_address() & 0x7FF_FFFF
        } else {
            self.source_address.get_address() & 0xFFF_FFFF
        };
        self.internal_destination_address = if self.id == 3 {
            self.destination_address.get_address() & 0xFFF_FFFF
        } else {
            self.destination_address.get_address() & 0x7FF_FFFF
        };
        self.reload_wordcount();
    }

    /// Loads the running count from the word-count register (see
    /// `reloaded_word_count`).
    fn reload_wordcount(&mut self)
        ensures
            final(self).internal_word_count == reloaded_word_count(old(self).id, old(self).word_count.value),
            *final(self) == (DMAChannel { internal_word_count: final(self).internal_word_count, ..*old(self) }),
    {
        self.internal_word_count = if self.id != 3 {
            self.word_count.get_register() & 0x7FFF
        } else {
            self.word_count.get_register()
        } as u32;
        if self.internal_word_count == 0 {
            self.internal_word_count = if self.id != 3 { 0x4000 } else { 0x10000 };
        }
    }
}

/// Carries out one update of one channel (see `channel_update`).
fn update_channel(
    ch: &mut DMAChannel,
    mem_map: &mut MemoryBus,
    irq_ctl: &mut Interrupts,
    vblanking: bool,
    hblanking: bool,
    sound: &SoundControlHigh,
    timer_overflows: &[usize; 4],
)
    requires
        channel_update_possible(*old(ch), bus_state(old(mem_map)), vblanking, hblanking, *sound, timer_overflows@),
    ensures
        (*final(ch), bus_state(final(mem_map)), final(irq_ctl).if_interrupt.value) == channel_update(
            *old(ch),
            bus_state(old(mem_map)),
            old(irq_ctl).if_interrupt.value,
            vblanking,
            hblanking,
            *sound,
            timer_overflows@,
        ),
        final(irq_ctl).ie_interrupt == old(irq_ctl).ie_interrupt,
        final(irq_ctl).ime_interrupt == old(irq_ctl).ime_interrupt,
        final(mem_map).mem_map.flash == old(mem_map).mem_map.flash,
        final(mem_map).mem_map.backup_type == old(mem_map).mem_map.backup_type,
        final(mem_map).mem_map.halt_state == old(mem_map).mem_map.halt_state,
{
    if ch.control.get_dma_enable() == 1 {
        if ch.previously_disabled {
            ch.reload_data();
            ch.previously_disabled = false;
        }
        match ch.control.get_dma_start_timing() {
            0 => {
                if ch.pending_immediate {
                    ch.pending_immediate = false;
                    ch.transfer(mem_map, irq_ctl);
                } else {
                    ch.pending_immediate = true;
                }
            },
            1 => {
                if vblanking {
                    ch.transfer(mem_map, irq_ctl);
                }
            },
            2 => {
                if hblanking {
                    ch.transfer(mem_map, irq_ctl);
                }
            },
            _ => {
                let destination = ch.destination_address.get_address();
                let is_fifo_a = (ch.id == 1 || ch.id == 2) && destination == FIFO_A_ADDRESS;
                let is_fifo_b = (ch.id == 1 || ch.id == 2) && destination == FIFO_B_ADDRESS;
                if is_fifo_a || is_fifo_b {
                    let timer = if is_fifo_a {
                        sound.get_dma_sound_a_timer_select() as usize
                    } else {
                        sound.get_dma_sound_b_timer_select() as usize
                    };
                    let fifo_len = if is_fifo_a { mem_map.mem_map.fifo_a.len() } else { mem_map.mem_map.fifo_b.len() };
                    if timer_overflows[timer] > 0 && fifo_len <= 16 {
                        ch.refill_sound_fifo(mem_map, is_fifo_a);
                    }
                }
                if ch.control.get_dma_repeat() == 0 {
                    ch.control.set_dma_enable(0);
                }
            },
        }
    } else {
        ch.pending_immediate = false;
        if !ch.previously_disabled {
            ch.previously_disabled = true;
        }
    }
}

/// The four DMA channels, the blanking events they wait for, and the sound
/// control register that picks the timers of the FIFO feeders.
pub struct DMAController {
    pub dma_channels: [DMAChannel; 4],
    pub hblanking: bool,
    pub vblanking: bool,
    pub sound_control_high: SoundControlHigh,
}

impl DMAController {
    /// Four idle channels, numbered 0-3, with no blanking event pending.
    pub fn new() -> (ctl: DMAController)
        ensures
            forall|i: int| 0 <= i < 4 ==> (#[trigger] ctl.dma_channels@[i]).id == i,
            forall|i: int| 0 <= i < 4 ==> (#[trigger] ctl.dma_channels@[i]).control.value == 0,
            forall|i: int| 0 <= i < 4 ==> (#[trigger] ctl.dma_channels@[i]).previously_disabled,
            forall|i: int| 0 <= i < 4 ==> !(#[trigger] ctl.dma_channels@[i]).pending_immediate,
            !ctl.hblanking,
            !ctl.vblanking,
            ctl.sound_control_high.value == 0,
    {
        DMAController {
            dma_channels: [DMAChannel::new(0), DMAChannel::new(1), DMAChannel::new(2), DMAChannel::new(3)],
            hblanking: false,
            vblanking: false,
            sound_control_high: SoundControlHigh::new(),
        }
    }

    /// Updates every channel in order (see `channels_updated`), each seeing
    /// the same blanking events, then clears the events.
    pub fn update(&mut self, mem_map: &mut MemoryBus, irq_ctl: &mut Interrupts, timer_overflows: [usize; 4])
        requires
            channels_update_possible(
                old(self).dma_channels@,
                bus_state(old(mem_map)),
                old(irq_ctl).if_interrupt.value,
                old(self).vblanking,
                old(self).hblanking,
                old(self).sound_control_high,
                timer_overflows@,
            ),
        ensures
            ({
                let end = channels_updated(
                    old(self).dma_channels@,
                    bus_state(old(mem_map)),
                    old(irq_ctl).if_interrupt.value,
                    4,
                    old(self).vblanking,
                    old(self).hblanking,
                    old(self).sound_control_high,
                    timer_overflows@,
                );
                &&& final(self).dma_channels@ == end.0
                &&& bus_state(final(mem_map)) == end.1
                &&& final(irq_ctl).if_interrupt.value == end.2
            }),
            !final(self).vblanking,
            !final(self).hblanking,
            final(self).sound_control_high == old(self).sound_control_high,
            final(irq_ctl).ie_interrupt == old(irq_ctl).ie_interrupt,
            final(irq_ctl).ime_interrupt == old(irq_ctl).ime_interrupt,
            final(mem_map).mem_map.flash == old(mem_map).mem_map.flash,
            final(mem_map).mem_map.backup_type == old(mem_map).mem_map.backup_type,
            final(mem_map).mem_map.halt_state == old(mem_map).mem_map.halt_state,
    {
        let vblanking = self.vblanking;
        let hblanking = self.hblanking;
        let ghost chs0 = self.dma_channels@;
        let ghost b0 = bus_state(mem_map);
        let ghost irq0 = irq_ctl.if_interrupt.value;
        let mut i: usize = 0;
        while i < 4
            invariant
                i <= 4,
                vblanking == old(self).vblanking,
                hblanking == old(self).hblanking,
                chs0 == old(self).dma_channels@,
                b0 == bus_state(old(mem_map)),
                irq0 == old(irq_ctl).if_interrupt.value,
                channels_update_possible(chs0, b0, irq0, vblanking, hblanking, old(self).sound_control_high, timer_overflows@),
                (self.dma_channels@, bus_state(mem_map), irq_ctl.if_interrupt.value) == channels_updated(
                    chs0,
                    b0,
                    irq0,
                    i as nat,
                    vblanking,
                    hblanking,
                    old(self).sound_control_high,
                    timer_overflows@,
                ),
                self.vblanking == old(self).vblanking,
                self.hblanking == old(self).hblanking,
                self.sound_control_high == old(self).sound_control_high,
                irq_ctl.ie_interrupt == old(irq_ctl).ie_interrupt,
                irq_ctl.ime_interrupt == old(irq_ctl).ime_interrupt,
                mem_map.mem_map.flash == old(mem_map).mem_map.flash,
                mem_map.mem_map.backup_type == old(mem_map).mem_map.backup_type,
                mem_map.mem_map.halt_state == old(mem_map).mem_map.halt_state,
            decreases 4 - i,
        {
            proof {
                let k = i as nat;
                assert(k < 4);
                let _ = channels_updated(chs0, b0, irq0, k, vblanking, hblanking, old(self).sound_control_high, timer_overflows@);
            }
            let mut ch = self.dma_channels[i];
            update_channel(&mut ch, mem_map, irq_ctl, vblanking, hblanking, &self.sound_control_high, &timer_overflows);
            self.dma_channels[i] = ch;
            i = i + 1;
        }
        self.vblanking = false;
        self.hblanking = false;
    }
}

} // verus!
