use vstd::prelude::*;
use std::collections::VecDeque;

verus! {

/// Marks `cycle_counter` as holding the output shifter: the word of samples
/// being played and how many of its bytes are left.
pub const PACKED_SHIFTER: usize = 0x8000_0000;

/// Byte `i` (lowest first) of a word.
pub open spec fn byte_of(word: usize, i: usize) -> u8 {
    ((word >> (i * 8)) & 0xFF) as u8
}

/// The first `count` bytes of a word, lowest first.
pub open spec fn word_bytes(word: usize, count: nat) -> Seq<u8> {
    Seq::new(count, |i: int| byte_of(word, i as usize))
}

/// What one timer overflow does to the output shifter `pending`, the FIFO
/// `fifo` and the playing sample: an empty shifter first takes up to four
/// bytes (one word) from the FIFO; then, if it holds a byte, that byte becomes
/// the playing sample.
pub open spec fn clock_once(state: (Seq<u8>, Seq<u8>, i8)) -> (Seq<u8>, Seq<u8>, i8) {
    let (pending, fifo, sample) = state;
    let (pending, fifo) = if pending.len() == 0 {
        let k = if fifo.len() < 4 { fifo.len() } else { 4 };
        (fifo.take(k as int), fifo.skip(k as int))
    } else {
        (pending, fifo)
    };
    if pending.len() > 0 {
        (pending.drop_first(), fifo, pending[0] as i8)
    } else {
        (pending, fifo, sample)
    }
}

/// The state after `n` timer overflows.
pub open spec fn clock_times(state: (Seq<u8>, Seq<u8>, i8), n: nat) -> (Seq<u8>, Seq<u8>, i8)
    decreases n,
{
    if n == 0 { state } else { clock_once(clock_times(state, (n - 1) as nat)) }
}

/// Whether, at one of the first `n` overflows, the FIFO held fewer than 16
/// bytes (and so asked for a refill).
pub open spec fn refill_requested(state: (Seq<u8>, Seq<u8>, i8), n: nat) -> bool
    decreases n,
{
    if n == 0 {
        false
    } else {
        refill_requested(state, (n - 1) as nat) || clock_times(state, (n - 1) as nat).1.len() < 16
    }
}

/// The FIFO after `n` overflows is what is left of it after dropping at
/// most four bytes per overflow from its front.
proof fn lemma_clock_times_suffix(state: (Seq<u8>, Seq<u8>, i8), n: nat)
    ensures
        clock_times(state, n).1.len() <= state.1.len(),
        state.1.len() - clock_times(state, n).1.len() <= 4 * n,
        clock_times(state, n).1 == state.1.skip(state.1.len() - clock_times(state, n).1.len()),
    decreases n,
{
    if n > 0 {
        lemma_clock_times_suffix(state, (n - 1) as nat);
        let prev = clock_times(state, (n - 1) as nat);
        let d = state.1.len() - prev.1.len();
        let next = clock_once(prev);
        if prev.0.len() == 0 {
            let k = if prev.1.len() < 4 { prev.1.len() } else { 4 };
            assert(next.1 == prev.1.skip(k as int));
            assert(state.1.skip(d).skip(k as int) =~= state.1.skip(d + k));
        }
    }
}

/// Once the FIFO has asked for a refill it holds fewer than 16 bytes, as it
/// never grows.
proof fn lemma_refill_means_short(state: (Seq<u8>, Seq<u8>, i8), n: nat)
    ensures
        refill_requested(state, n) ==> clock_times(state, n).1.len() < 16,
    decreases n,
{
    if n > 0 {
        lemma_refill_means_short(state, (n - 1) as nat);
        let prev = clock_times(state, (n - 1) as nat);
        assert(clock_times(state, n).1.len() <= prev.1.len()) by {
            lemma_clock_times_suffix(prev, 1);
            assert(clock_times(prev, 1) == clock_once(clock_times(prev, 0)));
        }
    }
}

/// A short FIFO asks for a refill at the first overflow.
proof fn lemma_short_fifo_requests(state: (Seq<u8>, Seq<u8>, i8), n: nat)
    requires
        n > 0,
        state.1.len() < 16,
    ensures
        refill_requested(state, n),
    decreases n,
{
    if n > 1 {
        lemma_short_fifo_requests(state, (n - 1) as nat);
    }
}

/// With nothing queued in the shifter or the FIFO, overflows change nothing.
proof fn lemma_empty_stays(state: (Seq<u8>, Seq<u8>, i8), n: nat)
    requires
        state.0.len() == 0,
        state.1.len() == 0,
    ensures
        clock_times(state, n) == state,
    decreases n,
{
    if n > 0 {
        lemma_empty_stays(state, (n - 1) as nat);
        assert(state.1.take(0) =~= state.0);
        assert(state.1.skip(0) =~= state.1);
    }
}

proof fn lemma_insert_byte(word: usize, value: usize, b: usize, i: usize)
    by (bit_vector)
    requires
        b < 4,
        i < b,
        b < 4 ==> word >> (b * 8) == 0,
        value < 256,
    ensures
        ((word | (value << (b * 8))) >> (i * 8)) & 0xFF == (word >> (i * 8)) & 0xFF,
        ((word | (value << (b * 8))) >> (b * 8)) & 0xFF == value,
        b < 3 ==> (word | (value << (b * 8))) >> ((b + 1) * 8) == 0,
        (word | (value << (b * 8))) <= 0xFFFF_FFFF,
{
}

proof fn lemma_insert_first_byte(word: usize, value: usize, b: usize)
    by (bit_vector)
    requires
        b < 4,
        word >> (b * 8) == 0,
        value < 256,
    ensures
        ((word | (value << (b * 8))) >> (b * 8)) & 0xFF == value,
        b < 3 ==> (word | (value << (b * 8))) >> ((b + 1) * 8) == 0,
        (word | (value << (b * 8))) <= 0xFFFF_FFFF,
{
}

proof fn lemma_drop_byte(word: usize, i: usize)
    by (bit_vector)
    requires
        i < 4,
        word <= 0xFFFF_FFFF,
    ensures
        ((word >> 8) >> (i * 8)) & 0xFF == (word >> ((i + 1) * 8)) & 0xFF,
        (word as u8) as usize == (word >> 0) & 0xFF,
        (word >> 8) <= 0xFF_FFFF,
{
}

proof fn lemma_zero_shifts(word: usize, b: usize)
    by (bit_vector)
    ensures
        b < 3 && word >> (b * 8) == 0 ==> word >> ((b + 1) * 8) == 0,
        0usize >> 0usize == 0usize,
        0usize & 0x8000_0000usize == 0usize,
{
}

proof fn lemma_pack(word: usize, remaining: usize)
    by (bit_vector)
    requires
        word <= 0xFF_FFFF,
        remaining < 4,
    ensures
        (0x8000_0000usize | (word << 2) | remaining) & 0x8000_0000usize != 0,
        (0x8000_0000usize | (word << 2) | remaining) & 3 == remaining,
        ((0x8000_0000usize | (word << 2) | remaining) >> 2) & 0xFF_FFFF == word,
{
}

/// A direct sound (DMA audio) channel: plays signed 8-bit samples out of its
/// FIFO, one per overflow of the timer it is bound to.
#[derive(Clone, Copy, Debug)]
pub struct DirectSoundChannel {
    pub current_sample: i8,
    pub cycle_counter: usize,
}

impl DirectSoundChannel {
    /// The bytes still waiting in the output shifter, in playing order.
    pub open spec fn pending(&self) -> Seq<u8> {
        if self.cycle_counter & PACKED_SHIFTER != 0 {
            word_bytes((self.cycle_counter >> 2) & 0xFF_FFFF, (self.cycle_counter & 3) as nat)
        } else {
            Seq::empty()
        }
    }

    /// A silent channel with an empty output shifter.
    pub fn new() -> (ch: DirectSoundChannel)
        ensures
            ch.current_sample == 0,
            ch.pending() == Seq::<u8>::empty(),
    {
        proof {
            lemma_zero_shifts(0, 0);
        }
        DirectSoundChannel { current_sample: 0, cycle_counter: 0 }
    }

    /// Plays `overflows` timer overflows from `fifo` (see `clock_once`), and
    /// says whether the FIFO asked for a refill at any of them. The FIFO only
    /// loses bytes from its front, at most four per overflow; a FIFO of
    /// fewer than 16 bytes always asks, and one that asked ends with fewer
    /// than 16; with nothing queued the playing sample stays.
    pub fn clock(&mut self, overflows: usize, fifo: &mut VecDeque<u8>) -> (request_dma: bool)
        ensures
            overflows == 0 ==> !request_dma && *final(self) == *old(self) && final(fifo)@ == old(fifo)@,
            overflows > 0 ==> {
                let after = clock_times((old(self).pending(), old(fifo)@, old(self).current_sample), overflows as nat);
                &&& final(self).pending() == after.0
                &&& final(fifo)@ == after.1
                &&& final(self).current_sample == after.2
                &&& request_dma == refill_requested(
                    (old(self).pending(), old(fifo)@, old(self).current_sample),
                    overflows as nat,
                )
            },
            final(fifo)@.len() <= old(fifo)@.len(),
            old(fifo)@.len() - final(fifo)@.len() <= 4 * overflows,
            final(fifo)@ == old(fifo)@.skip(old(fifo)@.len() - final(fifo)@.len()),
            overflows > 0 && old(fifo)@.len() < 16 ==> request_dma,
            request_dma ==> final(fifo)@.len() < 16,
            old(fifo)@.len() == 0 && old(self).pending().len() == 0 ==> final(self).current_sample == old(self).current_sample,
    {
        proof {
            let st = (old(self).pending(), old(fifo)@, old(self).current_sample);
            lemma_clock_times_suffix(st, overflows as nat);
            lemma_refill_means_short(st, overflows as nat);
            if overflows > 0 && old(fifo)@.len() < 16 {
                lemma_short_fifo_requests(st, overflows as nat);
            }
            if old(fifo)@.len() == 0 && old(self).pending().len() == 0 {
                lemma_empty_stays(st, overflows as nat);
            }
        }
        if overflows == 0 {
            assert(fifo@.skip(0) =~= fifo@);
            return false;
        }
        let ghost start = (self.pending(), fifo@, self.current_sample);
        let packed: usize = if self.cycle_counter & PACKED_SHIFTER != 0 { self.cycle_counter } else { 0 };
        let mut remaining: usize = packed & 3;
        let mut word: usize = (packed >> 2) & 0xff_ffff;
        assert(remaining < 4 && word <= 0xFF_FFFF) by (bit_vector)
            requires remaining == packed & 3, word == (packed >> 2) & 0xff_ffff;
        assert(packed == 0 ==> remaining == 0) by (bit_vector)
            requires remaining == packed & 3;
        let mut request_dma = false;
        let mut k: usize = 0;
        while k < overflows
            invariant
                0 <= k <= overflows,
                remaining < 4,
                word <= 0xFF_FFFF,
                clock_times(start, k as nat) == (word_bytes(word, remaining as nat), fifo@, self.current_sample),
                request_dma == refill_requested(start, k as nat),
            decreases overflows - k,
        {
            let ghost before = (word_bytes(word, remaining as nat), fifo@, self.current_sample);
            request_dma = request_dma || fifo.len() < 16;
            if remaining == 0 {
                let ghost fifo0 = fifo@;
                word = 0;
                let mut byte: usize = 0;
                proof {
                    lemma_zero_shifts(0, 0);
                }
                while byte < 4
                    invariant
                        byte <= 4,
                        remaining <= byte,
                        remaining == (if fifo0.len() < byte { fifo0.len() } else { byte as nat }),
                        fifo@ == fifo0.skip(remaining as int),
                        byte < 4 ==> word >> (byte * 8) == 0,
                        word <= 0xFFFF_FFFF,
                        remaining == 0 ==> word == 0,
                        word_bytes(word, remaining as nat) == fifo0.take(remaining as int),
                    decreases 4 - byte,
                {
                    match fifo.pop_front() {
                        Some(value) => {
                            let ghost old_word = word;
                            proof {
                                lemma_insert_first_byte(old_word, value as usize, byte);
                                assert forall|i: usize| i < byte implies byte_of(old_word | ((value as usize) << (byte * 8)), i)
                                    == byte_of(old_word, i) by {
                                    lemma_insert_byte(old_word, value as usize, byte, i);
                                }
                            }
                            word = word | ((value as usize) << (byte * 8));
                            remaining = remaining + 1;
                            assert(word_bytes(word, remaining as nat) =~= fifo0.take(remaining as int));
                        },
                        None => {
                            proof {
                                lemma_zero_shifts(word, byte);
                            }
                        },
                    }
                    byte = byte + 1;
                }
                assert(fifo0.take(remaining as int) == fifo0.take(remaining as int));
            }
            if remaining != 0 {
                let ghost old_word = word;
                let ghost old_remaining = remaining;
                proof {
                    lemma_drop_byte(old_word, 0);
                    assert forall|i: usize| i < 3 implies byte_of(old_word >> 8, i) == byte_of(old_word, (i + 1) as usize) by {
                        lemma_drop_byte(old_word, i);
                    }
                }
                self.current_sample = #[verifier::truncate] (word as u8) as i8;
                word = word >> 8;
                remaining = remaining - 1;
                assert(word_bytes(word, remaining as nat) =~= word_bytes(old_word, old_remaining as nat).drop_first());
            }
            k = k + 1;
        }
        proof {
            lemma_pack(word, remaining);
        }
        self.cycle_counter = PACKED_SHIFTER | (word << 2) | remaining;
        request_dma
    }
}

} // verus!
