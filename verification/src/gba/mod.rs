use vstd::prelude::*;

verus! {

/// Whether the keypad raises its interrupt: the interrupt is enabled (bit 14
/// of the key control), at least one button is selected (bits 0-9), and the
/// selected buttons that are pressed (their status bit is 0) are all of them
/// in AND mode (bit 15) or any of them in OR mode.
pub open spec fn keypad_irq(key_status_raw: u16, key_cnt_raw: u16) -> bool {
    let selected = key_cnt_raw & 0x3FF;
    let pressed = !key_status_raw & 0x3FF;
    &&& (key_cnt_raw >> 14u16) & 1 == 1
    &&& selected != 0
    &&& if (key_cnt_raw >> 15u16) & 1 == 1 {
        pressed & selected == selected
    } else {
        pressed & selected != 0
    }
}

/// Whether the keypad interrupt condition holds (see `keypad_irq`).
pub fn keypad_interrupt_condition_met(key_status_raw: u16, key_cnt_raw: u16) -> (fires: bool)
    ensures
        fires == keypad_irq(key_status_raw, key_cnt_raw),
{
    let irq_enabled = (key_cnt_raw >> 14u16) & 1 == 1;
    if !irq_enabled {
        return false;
    }
    let selected = key_cnt_raw & 0x3FF;
    if selected == 0 {
        return false;
    }
    let pressed = (!key_status_raw) & 0x3FF;
    let and_mode = (key_cnt_raw >> 15u16) & 1 == 1;
    if and_mode {
        (pressed & selected) == selected
    } else {
        (pressed & selected) != 0
    }
}

/// A disabled keypad interrupt never fires.
pub proof fn lemma_disabled_keypad_never_fires(key_status_raw: u16, key_cnt_raw: u16)
    requires
        (key_cnt_raw >> 14u16) & 1 == 0,
    ensures
        !keypad_irq(key_status_raw, key_cnt_raw),
{
}

/// With no button selected the keypad interrupt never fires.
pub proof fn lemma_no_selection_never_fires(key_status_raw: u16, key_cnt_raw: u16)
    requires
        key_cnt_raw & 0x3FF == 0,
    ensures
        !keypad_irq(key_status_raw, key_cnt_raw),
{
}

/// Only the selected buttons matter: two key states that agree on them give
/// the same answer.
pub proof fn lemma_unselected_buttons_irrelevant(status_a: u16, status_b: u16, key_cnt_raw: u16)
    requires
        status_a & key_cnt_raw & 0x3FF == status_b & key_cnt_raw & 0x3FF,
    ensures
        keypad_irq(status_a, key_cnt_raw) == keypad_irq(status_b, key_cnt_raw),
{
    assert((!status_a & 0x3FFu16) & (key_cnt_raw & 0x3FFu16) == (!status_b & 0x3FFu16) & (key_cnt_raw & 0x3FFu16))
        by (bit_vector)
        requires
            status_a & key_cnt_raw & 0x3FF == status_b & key_cnt_raw & 0x3FF,
    ;
}

/// The store-multiple that a known bad BIOS dump has at 0x88, and the one the
/// genuine BIOS has.
pub open spec fn bad_stmfd() -> Seq<u8> {
    seq![0x0Cu8, 0x40, 0x2D, 0xE9]
}

pub open spec fn good_stmfd() -> Seq<u8> {
    seq![0x04u8, 0x40, 0x2D, 0xE9]
}

/// The load-multiple that a known bad BIOS dump has at 0x94, and the one the
/// genuine BIOS has.
pub open spec fn bad_ldmfd() -> Seq<u8> {
    seq![0x0Cu8, 0x40, 0xBD, 0xE8]
}

pub open spec fn good_ldmfd() -> Seq<u8> {
    seq![0x04u8, 0x40, 0xBD, 0xE8]
}

/// `mem` with the four bytes at `start` replaced by `good` when they are `bad`.
pub open spec fn replace_word(mem: Seq<u8>, start: int, bad: Seq<u8>, good: Seq<u8>) -> Seq<u8> {
    if mem.subrange(start, start + 4) == bad {
        mem.subrange(0, start) + good + mem.subrange(start + 4, mem.len() as int)
    } else {
        mem
    }
}

/// The memory with the two instructions of the bad BIOS's software interrupt
/// dispatcher corrected.
pub open spec fn patched_bios(mem: Seq<u8>) -> Seq<u8> {
    replace_word(replace_word(mem, 0x88, bad_stmfd(), good_stmfd()), 0x94, bad_ldmfd(), good_ldmfd())
}

/// Replaces the four bytes at `start` by `good` when they equal `bad`.
fn patch_word(mem: &mut Vec<u8>, start: usize, bad: [u8; 4], good: [u8; 4])
    requires
        start + 4 <= old(mem).len(),
    ensures
        final(mem)@ == replace_word(old(mem)@, start as int, bad@, good@),
{
    if mem[start] == bad[0] && mem[start + 1] == bad[1] && mem[start + 2] == bad[2] && mem[start + 3] == bad[3] {
        assert(mem@.subrange(start as int, start + 4) =~= bad@);
        let mut i: usize = 0;
        while i < 4
            invariant
                i <= 4,
                start + 4 <= mem.len(),
                mem.len() == old(mem).len(),
                forall|j: int| 0 <= j < mem.len() ==> mem@[j] == (if start <= j < start + i { good@[j - start] } else { old(mem)@[j] }),
            decreases 4 - i,
        {
            mem.set(start + i, good[i]);
            i = i + 1;
        }
        assert(mem@ =~= old(mem)@.subrange(0, start as int) + good@ + old(mem)@.subrange(start + 4, old(mem)@.len() as int));
    } else {
        assert(old(mem)@.subrange(start as int, start + 4)[0] == mem[start as int]);
        assert(old(mem)@.subrange(start as int, start + 4)[1] == mem[start + 1]);
        assert(old(mem)@.subrange(start as int, start + 4)[2] == mem[start + 2]);
        assert(old(mem)@.subrange(start as int, start + 4)[3] == mem[start + 3]);
        assert(old(mem)@.subrange(start as int, start + 4) != bad@);
    }
}

/// Corrects the software interrupt dispatcher of a known bad BIOS dump in
/// memory (see `patched_bios`).
pub fn patch_known_bad_bios_swi_dispatcher(memory: &mut Vec<u8>)
    requires
        old(memory).len() >= 0x98,
    ensures
        final(memory)@ == patched_bios(old(memory)@),
{
    patch_word(memory, 0x88, [0x0C, 0x40, 0x2D, 0xE9], [0x04, 0x40, 0x2D, 0xE9]);
    patch_word(memory, 0x94, [0x0C, 0x40, 0xBD, 0xE8], [0x04, 0x40, 0xBD, 0xE8]);
    proof {
        assert([0x0Cu8, 0x40, 0x2D, 0xE9]@ =~= bad_stmfd());
    }
}

} // verus!
