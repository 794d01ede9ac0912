use vstd::prelude::*;
use crate::gamepak::BackupType;
use crate::memory::memory_map::MemoryMap;

verus! {

/// The commands a flash chip accepts after the unlock sequence.
#[derive(Clone, Copy, Debug, PartialEq, Eq, Structural)]
pub enum FlashCommands {
    StartID,
    EndID,
    EnableErase,
    EraseChip,
    EraseSector,
    WriteByte,
    SelectBank,
}

/// Whether a byte is the code of a flash command.
pub open spec fn is_flash_command(value: u8) -> bool {
    value == 0x90 || value == 0xF0 || value == 0x80 || value == 0x10 || value == 0x30 || value == 0xA0
        || value == 0xB0
}

/// The command a command code stands for.
pub open spec fn command_of(value: u8) -> FlashCommands {
    if value == 0x90 {
        FlashCommands::StartID
    } else if value == 0xF0 {
        FlashCommands::EndID
    } else if value == 0x80 {
        FlashCommands::EnableErase
    } else if value == 0x10 {
        FlashCommands::EraseChip
    } else if value == 0x30 {
        FlashCommands::EraseSector
    } else if value == 0xA0 {
        FlashCommands::WriteByte
    } else {
        FlashCommands::SelectBank
    }
}

impl FlashCommands {
    /// The command a command code stands for; other codes are not commands.
    pub fn from(value: u8) -> (command: FlashCommands)
        requires
            is_flash_command(value),
        ensures
            command == command_of(value),
    {
        match value {
            0x90 => FlashCommands::StartID,
            0xF0 => FlashCommands::EndID,
            0x80 => FlashCommands::EnableErase,
            0x10 => FlashCommands::EraseChip,
            0x30 => FlashCommands::EraseSector,
            0xA0 => FlashCommands::WriteByte,
            _ => FlashCommands::SelectBank,
        }
    }
}

/// Where the chip is in its command protocol: waiting for the first unlock
/// write, for the second, for a command, or for a command's parameter.
#[derive(Clone, Copy, Debug, PartialEq, Eq, Structural)]
pub enum FlashPhase {
    Phase1,
    Phase2,
    Command,
    CommandParameter,
}

/// The command state of a flash chip.
#[derive(Clone, Copy, Debug)]
pub struct Flash {
    pub phase: FlashPhase,
    pub enable_id: bool,
    pub enable_erase: bool,
    pub enable_write: bool,
    pub enable_bank_select: bool,
    pub bank: u8,
}

impl Flash {
    /// The index that an address reaches in the selected 64 KiB bank.
    pub open spec fn banked(&self, address: u32) -> int {
        self.bank * 65536 + address
    }

    /// A chip waiting for the unlock sequence, in bank 0, with every mode off.
    pub open spec fn initial() -> Flash {
        Flash {
            phase: FlashPhase::Phase1,
            enable_id: false,
            enable_erase: false,
            enable_write: false,
            enable_bank_select: false,
            bank: 0,
        }
    }

    /// A chip waiting for the unlock sequence, in bank 0, with every mode off.
    pub fn new() -> (flash: Flash)
        ensures
            flash == Flash::initial(),
    {
        Flash {
            phase: FlashPhase::Phase1,
            enable_id: false,
            enable_erase: false,
            enable_write: false,
            enable_bank_select: false,
            bank: 0,
        }
    }

    /// The index that an address reaches in the selected bank.
    pub fn banked_address(&self, address: u32) -> (index: u32)
        requires
            self.banked(address) <= u32::MAX,
        ensures
            index == self.banked(address),
    {
        (self.bank as u32) * 65536 + address
    }
}

/// Whether a command write is addressed to the chip: to 0x0E005555, or to
/// the start of one of the 4 KiB sectors of the first 64 KiB.
pub open spec fn targets_chip(address: u32) -> bool {
    address == 0x0E005555 || address & !0xF000u32 == 0x0E000000
}

/// Whether an address is the start of one of the 4 KiB sectors.
pub open spec fn sector_address(address: u32) -> bool {
    address & !0xF000u32 == 0x0E000000
}

/// The bytes that the chip identification mode answers with, for the
/// manufacturer (offset 0) and the device (offset 1).
pub open spec fn id_code(backup: BackupType, address: u32) -> u8 {
    if backup == BackupType::Flash128K {
        if address & 0xFFFF == 0 { 0xC2 } else { 0x09 }
    } else {
        if address & 0xFFFF == 0 { 0xBF } else { 0xD4 }
    }
}

/// What a read of the flash at `address` gives: the identification bytes at
/// offsets 0 and 1 while identification mode is on, else the byte stored at
/// the banked address.
pub open spec fn flash_byte(f: Flash, backup: BackupType, mem: Seq<u8>, address: u32) -> u8 {
    if f.enable_id && address & 0xFFFF < 2 {
        id_code(backup, address)
    } else {
        mem[f.banked(address)]
    }
}

/// The size of the whole chip: 128 KiB or 64 KiB.
pub open spec fn chip_size(backup: BackupType) -> int {
    if backup == BackupType::Flash128K { 0x2_0000 } else { 0x1_0000 }
}

/// The chip state after a command byte is written in the command phase.
pub open spec fn flash_after_command(f: Flash, backup: BackupType, address: u32, value: u8) -> Flash {
    if !targets_chip(address) {
        f
    } else {
        match command_of(value) {
            FlashCommands::StartID => Flash { enable_id: true, phase: FlashPhase::Phase1, ..f },
            FlashCommands::EndID => Flash { enable_id: false, phase: FlashPhase::Phase1, ..f },
            FlashCommands::EnableErase => Flash { enable_erase: true, phase: FlashPhase::Phase1, ..f },
            FlashCommands::EraseChip => Flash { phase: FlashPhase::Phase1, ..f },
            FlashCommands::WriteByte => Flash { enable_write: true, phase: FlashPhase::CommandParameter, ..f },
            FlashCommands::SelectBank => if backup == BackupType::Flash128K {
                Flash { enable_bank_select: true, phase: FlashPhase::CommandParameter, ..f }
            } else {
                Flash { phase: FlashPhase::Phase1, ..f }
            },
            FlashCommands::EraseSector => if f.enable_erase && sector_address(address) {
                Flash { enable_erase: false, phase: FlashPhase::Phase1, ..f }
            } else {
                f
            },
        }
    }
}

/// The chip state after a parameter byte is written: a pending byte write is
/// used up, or a pending bank selection at 0x0E000000 selects bank
/// `value & 1`; the chip then waits for the unlock sequence again.
pub open spec fn flash_after_parameter(f: Flash, address: u32, value: u8) -> Flash {
    let g = if f.enable_write {
        Flash { enable_write: false, ..f }
    } else if f.enable_bank_select && address == 0x0E000000 {
        Flash { bank: value & 1, enable_bank_select: false, ..f }
    } else {
        f
    };
    Flash { phase: FlashPhase::Phase1, ..g }
}

/// The chip state after any write: the unlock sequence is 0xAA to
/// 0x0E005555 then 0x55 to 0x0E002AAA; other writes in those phases change
/// nothing.
pub open spec fn flash_after_write(f: Flash, backup: BackupType, address: u32, value: u8) -> Flash {
    match f.phase {
        FlashPhase::Phase1 => if address == 0x0E005555 && value == 0xAA {
            Flash { phase: FlashPhase::Phase2, ..f }
        } else {
            f
        },
        FlashPhase::Phase2 => if address == 0x0E002AAA && value == 0x55 {
            Flash { phase: FlashPhase::Command, ..f }
        } else {
            f
        },
        FlashPhase::Command => flash_after_command(f, backup, address, value),
        FlashPhase::CommandParameter => flash_after_parameter(f, address, value),
    }
}

/// `mem` with the indices `lo..hi` set to 0xFF (erased).
pub open spec fn erased(mem: Seq<u8>, lo: int, hi: int) -> Seq<u8> {
    Seq::new(mem.len(), |j: int| if lo <= j < hi { 0xFFu8 } else { mem[j] })
}

/// The memory after a write to the flash: a chip erase clears the whole chip
/// from 0x0E000000, a sector erase the 4 KiB from the banked address, a byte
/// write stores its byte at the banked address.
pub open spec fn memory_after_write(mem: Seq<u8>, f: Flash, backup: BackupType, address: u32, value: u8) -> Seq<u8> {
    match f.phase {
        FlashPhase::Command => if !targets_chip(address) {
            mem
        } else {
            match command_of(value) {
                FlashCommands::EraseChip => if f.enable_erase {
                    erased(mem, 0x0E000000, 0x0E000000 + chip_size(backup))
                } else {
                    mem
                },
                FlashCommands::EraseSector => if f.enable_erase && sector_address(address) {
                    erased(mem, f.banked(address), f.banked(address) + 0x1000)
                } else {
                    mem
                },
                _ => mem,
            }
        },
        FlashPhase::CommandParameter => if f.enable_write {
            mem.update(f.banked(address), value)
        } else {
            mem
        },
        _ => mem,
    }
}

/// The writes the chip can take without failing: in the command phase the
/// byte must be a command code, and every byte an erase or a byte write
/// reaches must lie in memory.
pub open spec fn flash_write_in_range(f: Flash, backup: BackupType, mem_len: int, address: u32, value: u8) -> bool {
    match f.phase {
        FlashPhase::Command => is_flash_command(value) && (targets_chip(address) ==> {
            &&& (command_of(value) == FlashCommands::EraseChip && f.enable_erase)
                ==> 0x0E000000 + chip_size(backup) <= mem_len
            &&& (command_of(value) == FlashCommands::EraseSector && f.enable_erase && sector_address(address))
                ==> f.banked(address) + 0x1000 <= mem_len && f.banked(address) + 0x1000 <= 0x1_0000_0000
        }),
        FlashPhase::CommandParameter => f.enable_write ==> f.banked(address) < mem_len && f.banked(
            address,
        ) <= u32::MAX,
        _ => true,
    }
}

/// Sets bytes `start..start + count` of `mem` to 0xFF.
fn erase_bytes(mem: &mut Vec<u8>, start: usize, count: usize)
    requires
        start + count <= old(mem).len(),
    ensures
        final(mem)@ == erased(old(mem)@, start as int, start + count),
{
    let mut i: usize = 0;
    while i < count
        invariant
            i <= count,
            start + count <= mem.len(),
            mem.len() == old(mem).len(),
            forall|j: int| 0 <= j < mem.len() ==> mem@[j] == (if start <= j < start + i { 0xFFu8 } else { old(mem)@[j] }),
        decreases count - i,
    {
        mem.set(start + i, 0xFF);
        i = i + 1;
    }
    assert(mem@ =~= erased(old(mem)@, start as int, start + count));
}

impl MemoryMap {
    /// Reads a byte of the flash (see `flash_byte`).
    pub fn read_flash(&self, address: u32) -> (byte: u8)
        requires
            !(self.flash.enable_id && address & 0xFFFF < 2) ==> self.flash.banked(address) < self.memory.len()
                && self.flash.banked(address) <= u32::MAX,
        ensures
            byte == flash_byte(self.flash, self.backup_type, self.memory@, address),
    {
        if self.flash.enable_id && (address & 0xFFFF) < 2 {
            if self.backup_type == BackupType::Flash128K {
                return if (address & 0xFFFF) == 0 { 0xC2 } else { 0x09 };
            } else {
                return if (address & 0xFFFF) == 0 { 0xBF } else { 0xD4 };
            }
        }
        self.memory[self.flash.banked_address(address) as usize]
    }

    /// Writes a byte to the flash: steps the command protocol (see
    /// `flash_after_write`) and erases or programs memory (see
    /// `memory_after_write`).
    pub fn write_flash(&mut self, address: u32, value: u8)
        requires
            flash_write_in_range(old(self).flash, old(self).backup_type, old(self).memory.len() as int, address, value),
        ensures
            final(self).flash == flash_after_write(old(self).flash, old(self).backup_type, address, value),
            final(self).memory@ == memory_after_write(
                old(self).memory@,
                old(self).flash,
                old(self).backup_type,
                address,
                value,
            ),
            *final(self) == (MemoryMap { memory: final(self).memory, flash: final(self).flash, ..*old(self) }),
    {
        match self.flash.phase {
            FlashPhase::Phase1 => {
                if address == 0x0E005555 && value == 0xAA {
                    self.flash.phase = FlashPhase::Phase2;
                }
            },
            FlashPhase::Phase2 => {
                if address == 0x0E002AAA && value == 0x55 {
                    self.flash.phase = FlashPhase::Command;
                }
            },
            FlashPhase::Command => {
                self.run_command(address, value);
            },
            FlashPhase::CommandParameter => {
                self.run_command_parameter(address, value);
            },
        }
    }

    /// Carries out a command byte (see `flash_after_command`).
    fn run_command(&mut self, address: u32, value: u8)
        requires
            old(self).flash.phase == FlashPhase::Command,
            flash_write_in_range(old(self).flash, old(self).backup_type, old(self).memory.len() as int, address, value),
        ensures
            final(self).flash == flash_after_command(old(self).flash, old(self).backup_type, address, value),
            final(self).memory@ == memory_after_write(
                old(self).memory@,
                old(self).flash,
                old(self).backup_type,
                address,
                value,
            ),
            *final(self) == (MemoryMap { memory: final(self).memory, flash: final(self).flash, ..*old(self) }),
    {
        let flash_command = FlashCommands::from(value);
        if address == 0x0E005555 || (address & !0xF000u32) == 0x0E000000 {
            match flash_command {
                FlashCommands::StartID => {
                    self.flash.enable_id = true;
                    self.flash.phase = FlashPhase::Phase1;
                },
                FlashCommands::EndID => {
                    self.flash.enable_id = false;
                    self.flash.phase = FlashPhase::Phase1;
                },
                FlashCommands::EnableErase => {
                    self.flash.enable_erase = true;
                    self.flash.phase = FlashPhase::Phase1;
                },
                FlashCommands::EraseChip => {
                    if self.flash.enable_erase {
                        if self.backup_type == BackupType::Flash128K {
                            erase_bytes(&mut self.memory, 0x0E000000, 0x2_0000);
                        } else {
                            erase_bytes(&mut self.memory, 0x0E000000, 0x1_0000);
                        }
                    }
                    self.flash.phase = FlashPhase::Phase1;
                },
                FlashCommands::WriteByte => {
                    self.flash.enable_write = true;
                    self.flash.phase = FlashPhase::CommandParameter;
                },
                FlashCommands::SelectBank => {
                    if self.backup_type == BackupType::Flash128K {
                        self.flash.enable_bank_select = true;
                        self.flash.phase = FlashPhase::CommandParameter;
                    } else {
                        self.flash.phase = FlashPhase::Phase1;
                    }
                },
                FlashCommands::EraseSector => {
                    if self.flash.enable_erase && (address & !0xF000u32) == 0x0E000000 {
                        let start = self.flash.banked_address(address) as usize;
                        erase_bytes(&mut self.memory, start, 0x1000);
                        self.flash.enable_erase = false;
                        self.flash.phase = FlashPhase::Phase1;
                    }
                },
            }
        }
    }

    /// Carries out a parameter byte (see `flash_after_parameter`).
    fn run_command_parameter(&mut self, address: u32, value: u8)
        requires
            old(self).flash.phase == FlashPhase::CommandParameter,
            flash_write_in_range(old(self).flash, old(self).backup_type, old(self).memory.len() as int, address, value),
        ensures
            final(self).flash == flash_after_parameter(old(self).flash, address, value),
            final(self).memory@ == memory_after_write(
                old(self).memory@,
                old(self).flash,
                old(self).backup_type,
                address,
                value,
            ),
            *final(self) == (MemoryMap { memory: final(self).memory, flash: final(self).flash, ..*old(self) }),
    {
        if self.flash.enable_write {
            let index = self.flash.banked_address(address) as usize;
            self.memory.set(index, value);
            self.flash.enable_write = false;
        } else if self.flash.enable_bank_select && address == 0x0E000000 {
            self.flash.bank = value & 1;
            self.flash.enable_bank_select = false;
        }
        self.flash.phase = FlashPhase::Phase1;
    }
}

/// The unlock sequence (0xAA to 0x0E005555, then 0x55 to 0x0E002AAA) takes a
/// waiting chip to the command phase and changes nothing else.
pub proof fn lemma_unlock_sequence(f: Flash, backup: BackupType)
    requires
        f.phase == FlashPhase::Phase1,
    ensures
        flash_after_write(flash_after_write(f, backup, 0x0E005555, 0xAA), backup, 0x0E002AAA, 0x55)
            == (Flash { phase: FlashPhase::Command, ..f }),
{
}

/// A byte programmed through the byte-write command is what a read of the
/// same address gives back afterwards (outside the identification bytes).
pub proof fn lemma_programmed_byte_reads_back(f: Flash, backup: BackupType, mem: Seq<u8>, address: u32, value: u8)
    requires
        f.phase == FlashPhase::CommandParameter,
        f.enable_write,
        !(f.enable_id && address & 0xFFFF < 2),
        0 <= f.banked(address) < mem.len(),
    ensures
        flash_byte(
            flash_after_write(f, backup, address, value),
            backup,
            memory_after_write(mem, f, backup, address, value),
            address,
        ) == value,
{
}

/// After a chip erase every byte of the chip reads as 0xFF in bank 0 (with
/// identification mode off).
pub proof fn lemma_chip_erase_reads_erased(
    f: Flash,
    backup: BackupType,
    mem: Seq<u8>,
    address: u32,
    read_address: u32,
)
    requires
        f.phase == FlashPhase::Command,
        f.enable_erase,
        !f.enable_id,
        f.bank == 0,
        targets_chip(address),
        0x0E000000 <= read_address < 0x0E000000 + chip_size(backup),
        0x0E000000 + chip_size(backup) <= mem.len(),
    ensures
        flash_byte(
            flash_after_write(f, backup, address, 0x10),
            backup,
            memory_after_write(mem, f, backup, address, 0x10),
            read_address,
        ) == 0xFF,
{
}

/// The selected bank is always 0 or 1: no write takes it elsewhere.
pub proof fn lemma_bank_stays_in_range(f: Flash, backup: BackupType, address: u32, value: u8)
    requires
        f.bank <= 1,
    ensures
        flash_after_write(f, backup, address, value).bank <= 1,
{
    assert(value & 1u8 <= 1) by (bit_vector);
}

/// Writes in the two unlock phases never change memory.
pub proof fn lemma_unlock_phases_keep_memory(f: Flash, backup: BackupType, mem: Seq<u8>, address: u32, value: u8)
    requires
        f.phase == FlashPhase::Phase1 || f.phase == FlashPhase::Phase2,
    ensures
        memory_after_write(mem, f, backup, address, value) == mem,
{
}

} // verus!
