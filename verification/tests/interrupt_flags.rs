use lib::interrupts::{enable_flags, pending_interruipts, service_interrupts, set_interrupts};
use lib::memory::interrupt_registers::{InterruptEnableRegister, InterruptRequestFlags};

#[test]
fn enable_flags_adds_sources_and_keeps_the_others() {
    let mut ie = InterruptEnableRegister::new();
    ie.set_register(0x0001);
    enable_flags(&mut ie, 0x0006);
    assert_eq!(ie.get_register(), 0x0007);
    enable_flags(&mut ie, 0x0002);
    assert_eq!(ie.get_register(), 0x0007);
}

#[test]
fn set_interrupts_adds_requests() {
    let mut irq = InterruptRequestFlags::new();
    set_interrupts(&mut irq, 0x1000);
    set_interrupts(&mut irq, 0x0004);
    assert_eq!(irq.get_register(), 0x1004);
    assert_eq!(irq.get_lcd_v_counter(), 1);
}

#[test]
fn the_pending_query_reports_pending_and_servicing_is_inert() {
    assert!(pending_interruipts());
    service_interrupts();
}
