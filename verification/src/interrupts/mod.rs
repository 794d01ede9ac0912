pub mod interrupts;

use vstd::prelude::*;
use crate::memory::interrupt_registers::{InterruptEnableRegister, InterruptRequestFlags};

verus! {

/// Enables the interrupt sources whose bits are set in `flags`; the others
/// keep their setting.
pub fn enable_flags(ie: &mut InterruptEnableRegister, flags: u16)
    ensures
        final(ie).value == old(ie).value | flags,
{
    let value = ie.get_register() | flags;
    ie.set_register(value as u32);
}

/// Requests the interrupt sources whose bits are set in `flags`; requests
/// already made stay.
pub fn set_interrupts(irq: &mut InterruptRequestFlags, flags: u16)
    ensures
        final(irq).value == old(irq).value | flags,
{
    let value = irq.get_register() | flags;
    irq.set_register(value as u32);
}

/// Whether an interrupt is pending: this reports one as always pending.
pub fn pending_interruipts() -> (pending: bool)
    ensures
        pending,
{
    true
}

/// The servicing hook of this module: it does nothing.
pub fn service_interrupts() {
}

} // verus!
