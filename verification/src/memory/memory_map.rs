use vstd::prelude::*;
use crate::gamepak::BackupType;
use crate::gamepak::flash::Flash;
use std::collections::VecDeque;

verus! {

/// Whether the processor runs, waits for an interrupt (HALT) or is stopped
/// until a keypad or cartridge interrupt (STOP).
#[derive(Clone, Copy, Debug, PartialEq, Eq, Structural)]
pub enum HaltState {
    Running,
    Halt,
    Stop,
}

/// The address space: the byte image indexed by address, the kind of save
/// memory and the flash command state, the processor's halt state, the two
/// direct sound FIFOs and the value that the last DMA access left on the bus.
pub struct MemoryMap {
    pub memory: Vec<u8>,
    pub backup_type: BackupType,
    pub flash: Flash,
    pub halt_state: HaltState,
    pub fifo_a: VecDeque<u8>,
    pub fifo_b: VecDeque<u8>,
    pub dma_bus_override: Option<u32>,
}

/// The start of palette RAM.
pub const PALETTE_RAM_START: u32 = 0x0500_0000;

/// The size of the byte image: the whole 28-bit address space.
pub const MEMORY_SIZE: usize = 0x1000_0000;

/// The little-endian halfword at `address`.
pub open spec fn halfword_at(mem: Seq<u8>, address: int) -> u16 {
    (mem[address] as u16 | ((mem[address + 1] as u16) << 8u16)) as u16
}

/// The little-endian word at `address`.
pub open spec fn word_at(mem: Seq<u8>, address: int) -> u32 {
    (mem[address] as u32) | ((mem[address + 1] as u32) << 8u32) | ((mem[address + 2] as u32) << 16u32) | ((
    mem[address + 3] as u32) << 24u32)
}

/// `mem` with the halfword `value` stored little-endian at `address`.
pub open spec fn with_halfword(mem: Seq<u8>, address: int, value: u16) -> Seq<u8> {
    mem.update(address, (value & 0xFF) as u8).update(address + 1, (value >> 8u16) as u8)
}

/// `mem` with the word `value` stored little-endian at `address`.
pub open spec fn with_word(mem: Seq<u8>, address: int, value: u32) -> Seq<u8> {
    mem.update(address, (value & 0xFF) as u8).update(address + 1, ((value >> 8u32) & 0xFF) as u8).update(
        address + 2,
        ((value >> 16u32) & 0xFF) as u8,
    ).update(address + 3, (value >> 24u32) as u8)
}

impl MemoryMap {
    /// A zeroed address space for a cartridge with the given save memory,
    /// with the flash waiting for commands and the processor running.
    pub fn new(backup_type: BackupType) -> (m: MemoryMap)
        ensures
            m.memory.len() == MEMORY_SIZE,
            forall|i: int| 0 <= i < MEMORY_SIZE ==> m.memory@[i] == 0,
            m.backup_type == backup_type,
            m.flash == Flash::initial(),
            m.halt_state == HaltState::Running,
            m.fifo_a@ == Seq::<u8>::empty(),
            m.fifo_b@ == Seq::<u8>::empty(),
            m.dma_bus_override.is_none(),
    {
        MemoryMap {
            memory: vec![0u8; MEMORY_SIZE],
            backup_type,
            flash: Flash::new(),
            halt_state: HaltState::Running,
            fifo_a: VecDeque::new(),
            fifo_b: VecDeque::new(),
            dma_bus_override: None,
        }
    }

    /// The byte at `address`.
    pub fn read_u8(&self, address: u32) -> (byte: u8)
        requires
            address < self.memory.len(),
        ensures
            byte == self.memory@[address as int],
    {
        self.memory[address as usize]
    }

    /// The little-endian halfword at `address`.
    pub fn read_u16(&self, address: u32) -> (half: u16)
        requires
            address + 1 < self.memory.len(),
        ensures
            half == halfword_at(self.memory@, address as int),
    {
        let lo = self.memory[address as usize] as u16;
        let hi = self.memory[address as usize + 1] as u16;
        lo | (hi << 8u16)
    }

    /// The little-endian word at `address`.
    pub fn read_u32(&self, address: u32) -> (word: u32)
        requires
            address + 3 < self.memory.len(),
        ensures
            word == word_at(self.memory@, address as int),
    {
        let a = address as usize;
        (self.memory[a] as u32) | ((self.memory[a + 1] as u32) << 8u32) | ((self.memory[a + 2] as u32) << 16u32)
            | ((self.memory[a + 3] as u32) << 24u32)
    }

    /// Stores a halfword little-endian at `address`.
    pub fn write_u16(&mut self, address: u32, value: u16)
        requires
            address + 1 < old(self).memory.len(),
        ensures
            final(self).memory@ == with_halfword(old(self).memory@, address as int, value),
            *final(self) == (MemoryMap { memory: final(self).memory, ..*old(self) }),
    {
        let a = address as usize;
        self.memory.set(a, (value & 0xFF) as u8);
        self.memory.set(a + 1, (value >> 8u16) as u8);
    }

    /// Stores a word little-endian at `address`.
    pub fn write_u32(&mut self, address: u32, value: u32)
        requires
            address + 3 < old(self).memory.len(),
        ensures
            final(self).memory@ == with_word(old(self).memory@, address as int, value),
            *final(self) == (MemoryMap { memory: final(self).memory, ..*old(self) }),
    {
        let a = address as usize;
        self.memory.set(a, (value & 0xFF) as u8);
        self.memory.set(a + 1, ((value >> 8u32) & 0xFF) as u8);
        self.memory.set(a + 2, ((value >> 16u32) & 0xFF) as u8);
        self.memory.set(a + 3, (value >> 24u32) as u8);
    }
}

} // verus!
