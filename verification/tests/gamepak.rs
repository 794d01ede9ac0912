use lib::gamepak::flash::{Flash, FlashCommands, FlashPhase};
use lib::gamepak::{BackupType, GamePack};
use lib::memory::memory_map::{HaltState, MemoryMap};

#[test]
fn from_bytes_never_panics_on_short_rom() {
    let pack = GamePack::from_bytes(vec![0u8; 4], vec![]);
    assert_eq!(pack.title, "");
    assert_eq!(pack.game_code, "");
    assert_eq!(pack.maker_code, "");
}

#[test]
fn from_bytes_parses_header_fields() {
    let mut rom = vec![0u8; 0xC0];
    rom[0xA0..0xAC].copy_from_slice(b"TESTGAME\0\0\0\0");
    rom[0xAC..0xB0].copy_from_slice(b"ABCD");
    rom[0xB0..0xB2].copy_from_slice(b"01");

    let pack = GamePack::from_bytes(rom, vec![]);
    assert_eq!(pack.game_code, "ABCD");
    assert_eq!(pack.maker_code, "01");
}

#[test]
fn detect_backup_type_finds_flash1m() {
    let mut rom = vec![0u8; 16];
    rom.extend_from_slice(b"FLASH1M_V100");
    assert_eq!(GamePack::detect_backup_type(&rom), BackupType::Flash128K);
}

#[test]
fn detect_backup_type_takes_the_first_string_in_search_order() {
    let mut rom = b"EEPROM_V124".to_vec();
    rom.extend_from_slice(b"SRAM_V110");
    assert_eq!(GamePack::detect_backup_type(&rom), BackupType::Sram);
    assert_eq!(GamePack::detect_backup_type(&b"FLASH512_V131".to_vec()), BackupType::Flash64K);
    assert_eq!(GamePack::detect_backup_type(&b"FLASH_V121".to_vec()), BackupType::Flash64K);
    assert_eq!(GamePack::detect_backup_type(&b"EEPROM".to_vec()), BackupType::Eeprom);
    assert_eq!(GamePack::detect_backup_type(&b"SRA".to_vec()), BackupType::Error);
    assert_eq!(GamePack::detect_backup_type(&Vec::new()), BackupType::Error);
}

#[test]
fn invalid_utf8_header_field_is_empty() {
    let mut rom = vec![0u8; 0xC0];
    rom[0xA0..0xAC].copy_from_slice(b"HELLO WORLD!");
    rom[0xAC] = 0xFF;
    let mut pack = GamePack::from_bytes(rom, vec![1, 2]);
    assert_eq!(pack.title, "HELLO WORLD!");
    assert_eq!(pack.game_code, "");
    assert_eq!(pack.bios, vec![1, 2]);
    pack.title = String::from("changed");
    pack.read_title();
    assert_eq!(pack.title, "HELLO WORLD!");
    pack.set_save_data(vec![7; 3]);
    assert_eq!(pack.save_data, vec![7, 7, 7]);
}

#[test]
fn default_pack_is_empty() {
    let pack = GamePack::default();
    assert!(pack.rom.is_empty() && pack.bios.is_empty() && pack.save_data.is_empty());
    assert_eq!(pack.title, "");
    assert_eq!(pack.backup_type, BackupType::Error);
}

#[test]
fn flash_commands_decode_their_codes() {
    assert_eq!(FlashCommands::from(0x90), FlashCommands::StartID);
    assert_eq!(FlashCommands::from(0xF0), FlashCommands::EndID);
    assert_eq!(FlashCommands::from(0x80), FlashCommands::EnableErase);
    assert_eq!(FlashCommands::from(0x10), FlashCommands::EraseChip);
    assert_eq!(FlashCommands::from(0x30), FlashCommands::EraseSector);
    assert_eq!(FlashCommands::from(0xA0), FlashCommands::WriteByte);
    assert_eq!(FlashCommands::from(0xB0), FlashCommands::SelectBank);
}

fn unlock(map: &mut MemoryMap) {
    map.write_flash(0x0E00_5555, 0xAA);
    map.write_flash(0x0E00_2AAA, 0x55);
}

fn flash_map(backup_type: BackupType) -> MemoryMap {
    MemoryMap::new(backup_type)
}

#[test]
fn flash_programs_a_byte_and_reads_it_back() {
    let mut map = flash_map(BackupType::Flash64K);
    unlock(&mut map);
    assert_eq!(map.flash.phase, FlashPhase::Command);
    map.write_flash(0x0E00_5555, 0xA0);
    assert_eq!(map.flash.phase, FlashPhase::CommandParameter);
    map.write_flash(0x0E00_1234, 0x5A);
    assert_eq!(map.flash.phase, FlashPhase::Phase1);
    assert_eq!(map.read_flash(0x0E00_1234), 0x5A);
    assert_eq!(map.memory[0x0E00_1234], 0x5A);
}

#[test]
fn flash_identification_mode_reports_the_chip() {
    let mut map = flash_map(BackupType::Flash128K);
    unlock(&mut map);
    map.write_flash(0x0E00_5555, 0x90);
    assert_eq!(map.read_flash(0x0E00_0000), 0xC2);
    assert_eq!(map.read_flash(0x0E00_0001), 0x09);
    unlock(&mut map);
    map.write_flash(0x0E00_5555, 0xF0);
    assert_eq!(map.read_flash(0x0E00_0000), 0);

    let mut small = flash_map(BackupType::Flash64K);
    unlock(&mut small);
    small.write_flash(0x0E00_5555, 0x90);
    assert_eq!(small.read_flash(0x0E00_0000), 0xBF);
    assert_eq!(small.read_flash(0x0E00_0001), 0xD4);
}

#[test]
fn flash_erases_a_sector_and_the_chip() {
    let mut map = flash_map(BackupType::Flash64K);
    map.memory[0x0E00_1000] = 1;
    map.memory[0x0E00_1FFF] = 2;
    map.memory[0x0E00_2000] = 3;
    unlock(&mut map);
    map.write_flash(0x0E00_5555, 0x80);
    unlock(&mut map);
    map.write_flash(0x0E00_1000, 0x30);
    assert_eq!(map.memory[0x0E00_1000], 0xFF);
    assert_eq!(map.memory[0x0E00_1FFF], 0xFF);
    assert_eq!(map.memory[0x0E00_2000], 3);
    assert!(!map.flash.enable_erase);

    unlock(&mut map);
    map.write_flash(0x0E00_5555, 0x80);
    unlock(&mut map);
    map.write_flash(0x0E00_5555, 0x10);
    assert_eq!(map.memory[0x0E00_2000], 0xFF);
    assert_eq!(map.memory[0x0E00_FFFF], 0xFF);
    assert_eq!(map.memory[0x0E01_0000], 0);
}

#[test]
fn flash_bank_selection_moves_reads_to_the_upper_bank() {
    let mut map = flash_map(BackupType::Flash128K);
    map.memory[0x0E01_0004] = 0x77;
    unlock(&mut map);
    map.write_flash(0x0E00_5555, 0xB0);
    map.write_flash(0x0E00_0000, 1);
    assert_eq!(map.flash.bank, 1);
    assert_eq!(map.read_flash(0x0E00_0004), 0x77);
    assert_eq!(Flash::new().banked_address(0x0E00_0004), 0x0E00_0004);
    assert_eq!(map.flash.banked_address(0x0E00_0004), 0x0E01_0004);
}

#[test]
fn writes_outside_the_unlock_sequence_change_nothing() {
    let mut map = flash_map(BackupType::Flash64K);
    map.write_flash(0x0E00_1234, 0xAA);
    assert_eq!(map.flash.phase, FlashPhase::Phase1);
    map.write_flash(0x0E00_5555, 0xAA);
    map.write_flash(0x0E00_2AAB, 0x55);
    assert_eq!(map.flash.phase, FlashPhase::Phase2);
    assert_eq!(map.halt_state, HaltState::Running);
}
