pub mod flash;

use vstd::prelude::*;
use vstd::utf8::{decode_utf8, valid_utf8};

verus! {

/// The kind of save memory a cartridge carries.
#[derive(Clone, Copy, Debug, PartialEq, Eq, Structural)]
pub enum BackupType {
    Sram,
    Eeprom,
    Flash64K,
    Flash128K,
    Error,
}

/// Whether `needle` occurs as a contiguous run of bytes in `hay`.
pub open spec fn contains_bytes(hay: Seq<u8>, needle: Seq<u8>) -> bool {
    exists|i: int| 0 <= i && i + needle.len() <= hay.len() && #[trigger] hay.subrange(i, i + needle.len()) == needle
}

/// The library identification strings that a save-memory driver leaves in a
/// ROM, in the order in which they are searched for.
pub open spec fn mem_string(i: int) -> Seq<u8> {
    if i == 0 {
        seq![0x53u8, 0x52, 0x41, 0x4D]
    } else if i == 1 {
        seq![0x45u8, 0x45, 0x50, 0x52, 0x4F, 0x4D]
    } else if i == 2 {
        seq![0x46u8, 0x4C, 0x41, 0x53, 0x48, 0x5F]
    } else if i == 3 {
        seq![0x46u8, 0x4C, 0x41, 0x53, 0x48, 0x35, 0x31, 0x32, 0x5F]
    } else {
        seq![0x46u8, 0x4C, 0x41, 0x53, 0x48, 0x31, 0x4D, 0x5F]
    }
}

/// The save memory that identification string `i` stands for.
pub open spec fn backup_of_mem_string(i: int) -> BackupType {
    if i == 0 {
        BackupType::Sram
    } else if i == 1 {
        BackupType::Eeprom
    } else if i == 2 || i == 3 {
        BackupType::Flash64K
    } else {
        BackupType::Flash128K
    }
}

/// The save memory named by the first identification string, from the
/// `i`-th on, that occurs in the ROM; `Error` when none does.
pub open spec fn backup_from(rom: Seq<u8>, i: int) -> BackupType
    decreases 5 - i,
{
    if i >= 5 {
        BackupType::Error
    } else if contains_bytes(rom, mem_string(i)) {
        backup_of_mem_string(i)
    } else {
        backup_from(rom, i + 1)
    }
}

/// The save memory a ROM asks for: that of the first identification string
/// (SRAM, EEPROM, FLASH_, FLASH512_, FLASH1M_) found in it.
pub open spec fn detected_backup_type(rom: Seq<u8>) -> BackupType {
    backup_from(rom, 0)
}

/// The text of the header field held in bytes `start..end` of a ROM: empty
/// when the ROM is too short or the bytes are not UTF-8.
pub open spec fn header_text(rom: Seq<u8>, start: int, end: int) -> Seq<char> {
    if rom.len() < end {
        Seq::empty()
    } else if valid_utf8(rom.subrange(start, end)) {
        decode_utf8(rom.subrange(start, end))
    } else {
        Seq::empty()
    }
}

/// Identification string `i` as bytes.
fn mem_string_bytes(i: usize) -> (bytes: Vec<u8>)
    requires
        i < 5,
    ensures
        bytes@ == mem_string(i as int),
        bytes.len() > 0,
{
    if i == 0 {
        vec![0x53u8, 0x52, 0x41, 0x4D]
    } else if i == 1 {
        vec![0x45u8, 0x45, 0x50, 0x52, 0x4F, 0x4D]
    } else if i == 2 {
        vec![0x46u8, 0x4C, 0x41, 0x53, 0x48, 0x5F]
    } else if i == 3 {
        vec![0x46u8, 0x4C, 0x41, 0x53, 0x48, 0x35, 0x31, 0x32, 0x5F]
    } else {
        vec![0x46u8, 0x4C, 0x41, 0x53, 0x48, 0x31, 0x4D, 0x5F]
    }
}

/// The save memory that identification string `i` stands for.
fn backup_for(i: usize) -> (b: BackupType)
    requires
        i < 5,
    ensures
        b == backup_of_mem_string(i as int),
{
    if i == 0 {
        BackupType::Sram
    } else if i == 1 {
        BackupType::Eeprom
    } else if i == 2 || i == 3 {
        BackupType::Flash64K
    } else {
        BackupType::Flash128K
    }
}

/// Whether `needle` occurs in `hay` (a search over every window of its length).
fn find_bytes(hay: &Vec<u8>, needle: &Vec<u8>) -> (found: bool)
    requires
        needle.len() > 0,
    ensures
        found == contains_bytes(hay@, needle@),
{
    let n = needle.len();
    if n > hay.len() {
        return false;
    }
    let last = hay.len() - n;
    let mut i: usize = 0;
    while i <= last
        invariant
            n == needle.len(),
            n > 0,
            last + n == hay.len(),
            i <= last + 1,
            forall|k: int| 0 <= k < i ==> #[trigger] hay@.subrange(k, k + n) != needle@,
        decreases last + 1 - i,
    {
        let mut j: usize = 0;
        let mut matched = true;
        while j < n
            invariant
                n == needle.len(),
                last + n == hay.len(),
                i <= last,
                j <= n,
                matched ==> forall|m: int| 0 <= m < j ==> hay@[i + m] == needle@[m],
                !matched ==> hay@.subrange(i as int, i + n) != needle@,
            decreases n - j,
        {
            if hay[i + j] != needle[j] {
                matched = false;
                assert(hay@.subrange(i as int, i + n)[j as int] == hay@[i + j]);
            }
            j = j + 1;
        }
        if matched {
            assert(hay@.subrange(i as int, i + n) =~= needle@);
            return true;
        }
        i = i + 1;
    }
    proof {
        if contains_bytes(hay@, needle@) {
            let k = choose|k: int| 0 <= k && k + needle@.len() <= hay@.len()
                && #[trigger] hay@.subrange(k, k + needle@.len()) == needle@;
            assert(hay@.subrange(k, k + n) != needle@);
        }
    }
    false
}

/// The UTF-8 text that `bytes` encode, or `None` when they are not UTF-8.
/// Calls `std::str::from_utf8`, which accepts exactly the valid UTF-8
/// sequences and then holds the characters they encode.
#[verifier::external_body]
fn utf8_string(bytes: &[u8]) -> (text: Option<String>)
    ensures
        text.is_some() == valid_utf8(bytes@),
        text.is_some() ==> text.unwrap()@ == decode_utf8(bytes@),
{
    match std::str::from_utf8(bytes) {
        Ok(s) => Some(String::from(s)),
        Err(_) => None,
    }
}

/// A cartridge: its ROM, the BIOS it runs with, its save data and the
/// identification fields of its header.
pub struct GamePack {
    pub rom: Vec<u8>,
    pub bios: Vec<u8>,
    pub save_data: Vec<u8>,
    pub title: String,
    pub game_code: String,
    pub maker_code: String,
    pub backup_type: BackupType,
}

impl GamePack {
    /// A cartridge read from a ROM image and a BIOS image: the title, game
    /// code and maker code come from header bytes 0xA0..0xAC, 0xAC..0xB0 and
    /// 0xB0..0xB2 (empty when missing or not UTF-8), the save memory from the
    /// identification strings in the ROM.
    pub fn from_bytes(rom_bytes: Vec<u8>, bios_bytes: Vec<u8>) -> (pack: GamePack)
        ensures
            pack.rom@ == rom_bytes@,
            pack.bios@ == bios_bytes@,
            pack.save_data@ == Seq::<u8>::empty(),
            pack.title@ == header_text(rom_bytes@, 0xA0, 0xAC),
            pack.game_code@ == header_text(rom_bytes@, 0xAC, 0xB0),
            pack.maker_code@ == header_text(rom_bytes@, 0xB0, 0xB2),
            pack.backup_type == detected_backup_type(rom_bytes@),
    {
        let title = GamePack::parse_header_str(&rom_bytes, 0xA0, 0xAC);
        let game_code = GamePack::parse_header_str(&rom_bytes, 0xAC, 0xB0);
        let maker_code = GamePack::parse_header_str(&rom_bytes, 0xB0, 0xB2);
        let backup_type = GamePack::detect_backup_type(&rom_bytes);
        GamePack {
            rom: rom_bytes,
            bios: bios_bytes,
            save_data: Vec::new(),
            title,
            game_code,
            maker_code,
            backup_type,
        }
    }

    /// The text of the header field in bytes `start..end` (see `header_text`).
    fn parse_header_str(rom_bytes: &Vec<u8>, start: usize, end: usize) -> (text: String)
        requires
            start <= end,
        ensures
            text@ == header_text(rom_bytes@, start as int, end as int),
    {
        if rom_bytes.len() < end {
            return String::new();
        }
        let field = vstd::slice::slice_subrange(rom_bytes.as_slice(), start, end);
        match utf8_string(field) {
            Some(text) => text,
            None => String::new(),
        }
    }

    /// Reads the title again from the ROM header.
    pub fn read_title(&mut self)
        ensures
            final(self).title@ == header_text(old(self).rom@, 0xA0, 0xAC),
            final(self).rom == old(self).rom,
            final(self).bios == old(self).bios,
            final(self).save_data == old(self).save_data,
            final(self).game_code == old(self).game_code,
            final(self).maker_code == old(self).maker_code,
            final(self).backup_type == old(self).backup_type,
    {
        self.title = GamePack::parse_header_str(&self.rom, 0xA0, 0xAC);
    }

    /// An empty cartridge with no save memory.
    pub fn default() -> (pack: GamePack)
        ensures
            pack.rom@ == Seq::<u8>::empty(),
            pack.bios@ == Seq::<u8>::empty(),
            pack.save_data@ == Seq::<u8>::empty(),
            pack.title@ == Seq::<char>::empty(),
            pack.game_code@ == Seq::<char>::empty(),
            pack.maker_code@ == Seq::<char>::empty(),
            pack.backup_type == BackupType::Error,
    {
        GamePack {
            rom: Vec::new(),
            bios: Vec::new(),
            save_data: Vec::new(),
            title: String::new(),
            game_code: String::new(),
            maker_code: String::new(),
            backup_type: BackupType::Error,
        }
    }

    /// Replaces the save data.
    pub fn set_save_data(&mut self, save_data: Vec<u8>)
        ensures
            final(self).save_data@ == save_data@,
            final(self).rom == old(self).rom,
            final(self).bios == old(self).bios,
            final(self).title == old(self).title,
            final(self).game_code == old(self).game_code,
            final(self).maker_code == old(self).maker_code,
            final(self).backup_type == old(self).backup_type,
    {
        self.save_data = save_data;
    }

    /// The save memory a ROM asks for (see `detected_backup_type`).
    pub fn detect_backup_type(rom: &Vec<u8>) -> (backup: BackupType)
        ensures
            backup == detected_backup_type(rom@),
    {
        let mut i: usize = 0;
        while i < 5
            invariant
                i <= 5,
                backup_from(rom@, 0) == backup_from(rom@, i as int),
            decreases 5 - i,
        {
            let needle = mem_string_bytes(i);
            if find_bytes(rom, &needle) {
                return backup_for(i);
            }
            i = i + 1;
        }
        BackupType::Error
    }
}

} // verus!
