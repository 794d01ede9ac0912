use vstd::prelude::*;
use crate::gamepak::BackupType;
use crate::gamepak::flash::Flash;
use crate::memory::memory_map::{HaltState, MemoryMap, MEMORY_SIZE};
use crate::operations::timing::CycleClock;

verus! {

/// The system bus: the address space and the cycle clock that bus activity
/// advances.
pub struct MemoryBus {
    pub mem_map: MemoryMap,
    pub cycle_clock: CycleClock,
}

impl MemoryBus {
    /// A bus over a zeroed address space for a cartridge with the given save
    /// memory, with the clock at zero.
    pub fn new(backup_type: BackupType) -> (bus: MemoryBus)
        ensures
            bus.mem_map.memory.len() == MEMORY_SIZE,
            forall|i: int| 0 <= i < MEMORY_SIZE ==> bus.mem_map.memory@[i] == 0,
            bus.mem_map.backup_type == backup_type,
            bus.mem_map.flash == Flash::initial(),
            bus.mem_map.halt_state == HaltState::Running,
            bus.mem_map.fifo_a@ == Seq::<u8>::empty(),
            bus.mem_map.fifo_b@ == Seq::<u8>::empty(),
            bus.mem_map.dma_bus_override.is_none(),
            bus.cycle_clock.cycles == 0,
    {
        MemoryBus { mem_map: MemoryMap::new(backup_type), cycle_clock: CycleClock::new() }
    }
}

} // verus!
