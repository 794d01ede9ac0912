use lib::gba::{keypad_interrupt_condition_met, patch_known_bad_bios_swi_dispatcher};

const IRQ_ENABLE: u16 = 1 << 14;
const IRQ_CONDITION_AND: u16 = 1 << 15;
const BUTTON_A: u16 = 1 << 0;
const BUTTON_START: u16 = 1 << 3;
const ALL_RELEASED: u16 = 0xFFFF;

#[test]
fn disabled_never_fires_even_if_selected_buttons_are_pressed() {
    let key_cnt = BUTTON_A;
    let a_pressed = ALL_RELEASED & !BUTTON_A;
    assert!(!keypad_interrupt_condition_met(a_pressed, key_cnt));
}

#[test]
fn or_mode_fires_when_any_selected_button_is_pressed() {
    let key_cnt = IRQ_ENABLE | BUTTON_A | BUTTON_START;
    let only_a_pressed = ALL_RELEASED & !BUTTON_A;
    assert!(keypad_interrupt_condition_met(only_a_pressed, key_cnt));
}

#[test]
fn or_mode_does_not_fire_when_no_selected_button_is_pressed() {
    let key_cnt = IRQ_ENABLE | BUTTON_A | BUTTON_START;
    assert!(!keypad_interrupt_condition_met(ALL_RELEASED, key_cnt));
}

#[test]
fn and_mode_fires_only_when_all_selected_buttons_are_pressed() {
    let key_cnt = IRQ_ENABLE | IRQ_CONDITION_AND | BUTTON_A | BUTTON_START;
    let only_a_pressed = ALL_RELEASED & !BUTTON_A;
    let both_pressed = ALL_RELEASED & !BUTTON_A & !BUTTON_START;
    assert!(!keypad_interrupt_condition_met(only_a_pressed, key_cnt));
    assert!(keypad_interrupt_condition_met(both_pressed, key_cnt));
}

#[test]
fn no_buttons_selected_never_fires() {
    let key_cnt = IRQ_ENABLE | IRQ_CONDITION_AND;
    assert!(!keypad_interrupt_condition_met(ALL_RELEASED, key_cnt));
    assert!(!keypad_interrupt_condition_met(0, key_cnt));
}

#[test]
fn unselected_buttons_being_pressed_is_irrelevant() {
    let key_cnt = IRQ_ENABLE | BUTTON_A;
    let only_start_pressed = ALL_RELEASED & !BUTTON_START;
    assert!(!keypad_interrupt_condition_met(only_start_pressed, key_cnt));
}

#[test]
fn bad_bios_dispatcher_is_patched_and_good_one_left_alone() {
    let mut memory = vec![0u8; 0x100];
    memory[0x88..0x8C].copy_from_slice(&[0x0C, 0x40, 0x2D, 0xE9]);
    memory[0x94..0x98].copy_from_slice(&[0x0C, 0x40, 0xBD, 0xE8]);
    patch_known_bad_bios_swi_dispatcher(&mut memory);
    assert_eq!(&memory[0x88..0x8C], &[0x04, 0x40, 0x2D, 0xE9]);
    assert_eq!(&memory[0x94..0x98], &[0x04, 0x40, 0xBD, 0xE8]);

    let mut other = vec![0x11u8; 0x100];
    let before = other.clone();
    patch_known_bad_bios_swi_dispatcher(&mut other);
    assert_eq!(other, before);
}
