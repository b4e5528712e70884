use gameboy_core::mmu::cartridge::MbcType;
use gameboy_core::mmu::mbc::is_supported;
use gameboy_core::mmu::memory::Memory;
use gameboy_core::{Cartridge, CartridgeError, RTC};

struct StoppedClock;

impl RTC for StoppedClock {
    fn get_current_time(&self) -> u64 {
        0
    }
}

fn rom_with_header(len: usize, title: &[u8], cartridge_type: u8, ram_code: u8) -> Vec<u8> {
    let mut rom = vec![0u8; len];
    for (i, b) in title.iter().enumerate() {
        rom[0x0134 + i] = *b;
    }
    rom[0x0147] = cartridge_type;
    rom[0x0149] = ram_code;
    rom
}

#[test]
fn plain_cartridge_header_is_read() {
    let rom = rom_with_header(0x8000, b"TETRIS", 0x00, 0x00);
    let cartridge = Cartridge::from_rom(rom).unwrap();
    assert_eq!(cartridge.get_name(), "TETRIS");
    assert_eq!(cartridge.get_mbc_type(), MbcType::RomOnly);
    assert_eq!(cartridge.get_rom_banks(), 2);
    assert_eq!(cartridge.get_ram_banks(), 0);
    assert!(!cartridge.has_battery());
    assert!(!cartridge.has_rtc());
    assert!(!cartridge.is_cgb());
    assert_eq!(cartridge.get_ram().len(), 0x8000);
    assert!(is_supported(&cartridge));
}

#[test]
fn title_stops_at_fifteen_characters() {
    let rom = rom_with_header(0x8000, b"ABCDEFGHIJKLMNOPQ", 0x00, 0x00);
    let cartridge = Cartridge::from_rom(rom).unwrap();
    assert_eq!(cartridge.get_name(), "ABCDEFGHIJKLMNO");
}

#[test]
fn empty_title() {
    let rom = rom_with_header(0x8000, b"", 0x00, 0x00);
    let cartridge = Cartridge::from_rom(rom).unwrap();
    assert_eq!(cartridge.get_name(), "");
}

#[test]
fn battery_backed_mbc1_cartridge() {
    let rom = rom_with_header(0x10000, b"GAME", 0x03, 0x03);
    let cartridge = Cartridge::from_rom(rom).unwrap();
    assert_eq!(cartridge.get_mbc_type(), MbcType::Mbc1);
    assert!(cartridge.has_battery());
    assert!(!cartridge.has_rtc());
    assert_eq!(cartridge.get_rom_banks(), 4);
    assert_eq!(cartridge.get_ram_banks(), 4);
    assert_eq!(cartridge.get_ram_size(), 3);
}

#[test]
fn clock_cartridge_has_rtc_and_battery() {
    let rom = rom_with_header(0x8000, b"CLOCK", 0x10, 0x02);
    let cartridge = Cartridge::from_rom(rom).unwrap();
    assert_eq!(cartridge.get_mbc_type(), MbcType::Mbc3);
    assert!(cartridge.has_rtc());
    assert!(cartridge.has_battery());
    assert_eq!(cartridge.get_ram_banks(), 1);
}

#[test]
fn mbc2_and_mbc5_cartridges() {
    let mbc2 = Cartridge::from_rom(rom_with_header(0x8000, b"", 0x06, 0x00)).unwrap();
    assert_eq!(mbc2.get_mbc_type(), MbcType::Mbc2);
    assert_eq!(mbc2.get_ram().len(), 0x200);
    assert!(mbc2.get_ram().iter().all(|b| *b == 0x0F));
    let mbc5 = Cartridge::from_rom(rom_with_header(0x8000, b"", 0x1B, 0x04)).unwrap();
    assert_eq!(mbc5.get_mbc_type(), MbcType::Mbc5);
    assert_eq!(mbc5.get_ram_banks(), 16);
    assert_eq!(mbc5.get_ram().len(), 0x20000);
}

#[test]
fn rom_bank_count_rounds_up_to_a_power_of_two() {
    let cartridge = Cartridge::from_rom(rom_with_header(0xC000, b"", 0x01, 0x00)).unwrap();
    assert_eq!(cartridge.get_rom_banks(), 4);
    let small = Cartridge::from_rom(rom_with_header(0x0150, b"", 0x00, 0x00)).unwrap();
    assert_eq!(small.get_rom_banks(), 2);
}

#[test]
fn color_flag_marks_a_color_game() {
    let mut rom = rom_with_header(0x8000, b"", 0x00, 0x00);
    rom[0x0143] = 0x80;
    assert!(Cartridge::from_rom(rom.clone()).unwrap().is_cgb());
    rom[0x0143] = 0xC0;
    assert!(Cartridge::from_rom(rom.clone()).unwrap().is_cgb());
    rom[0x0143] = 0x40;
    assert!(!Cartridge::from_rom(rom).unwrap().is_cgb());
}

#[test]
fn unknown_cartridge_type_is_refused() {
    let rom = rom_with_header(0x8000, b"", 0x04, 0x00);
    assert_eq!(Cartridge::from_rom(rom).err(), Some(CartridgeError::UnsupportedCartridgeType(0x04)));
    let rom = rom_with_header(0x8000, b"", 0x20, 0x09);
    assert_eq!(Cartridge::from_rom(rom).err(), Some(CartridgeError::UnsupportedCartridgeType(0x20)));
}

#[test]
fn unknown_ram_size_is_refused() {
    let rom = rom_with_header(0x8000, b"", 0x01, 0x05);
    assert_eq!(Cartridge::from_rom(rom).err(), Some(CartridgeError::UnknownRamBanks(0x05)));
}

#[test]
fn cartridges_that_cannot_be_driven_are_recognised() {
    let cartridge = Cartridge::from_rom(rom_with_header(0x8000, b"", 0x1B, 0x02)).unwrap();
    assert!(is_supported(&cartridge));
    let cartridge = Cartridge::from_rom(rom_with_header(0x8000, b"", 0x1B, 0x03)).unwrap();
    assert!(!is_supported(&cartridge));
    let mut rom = rom_with_header(0x8000, b"", 0x01, 0x00);
    rom.truncate(0x6000);
    let cartridge = Cartridge::from_rom(rom).unwrap();
    assert!(!is_supported(&cartridge));
}

#[test]
fn mbc1_switches_rom_banks() {
    let mut rom = rom_with_header(0x10000, b"", 0x01, 0x00);
    for bank in 0..4usize {
        rom[bank * 0x4000 + 0x10] = bank as u8 + 0x40;
    }
    let cartridge = Cartridge::from_rom(rom).unwrap();
    let mut memory = Memory::from_cartridge(cartridge, Box::new(StoppedClock), false);
    assert_eq!(memory.read_byte(0x0010), 0x40);
    assert_eq!(memory.read_byte(0x4010), 0x41);
    memory.write_byte(0x2000, 2);
    assert_eq!(memory.read_byte(0x4010), 0x42);
    memory.write_byte(0x2000, 0);
    assert_eq!(memory.read_byte(0x4010), 0x41);
    memory.write_byte(0x2000, 7);
    assert_eq!(memory.read_byte(0x4010), 0x43);
}

#[test]
fn mbc1_ram_answers_only_when_enabled() {
    let rom = rom_with_header(0x8000, b"", 0x03, 0x02);
    let cartridge = Cartridge::from_rom(rom).unwrap();
    let mut memory = Memory::from_cartridge(cartridge, Box::new(StoppedClock), false);
    assert_eq!(memory.read_byte(0xA000), 0xFF);
    memory.write_byte(0xA000, 0x12);
    memory.write_byte(0x0000, 0x0A);
    assert_eq!(memory.read_byte(0xA000), 0xFF);
    memory.write_byte(0xA000, 0x12);
    assert_eq!(memory.read_byte(0xA000), 0x12);
    memory.write_byte(0x0000, 0x00);
    assert_eq!(memory.read_byte(0xA000), 0xFF);
}

#[test]
fn error_messages_name_the_header_byte() {
    assert_eq!(
        CartridgeError::UnsupportedCartridgeType(0x04).to_string(),
        "Unsupported cartridge type: 0x04"
    );
    assert_eq!(CartridgeError::UnknownRamBanks(0xAB).to_string(), "Unknown number of RAM banks: 0xAB");
    let rom = rom_with_header(0x8000, b"", 0xFE, 0x00);
    let error = Cartridge::from_rom(rom).err().unwrap();
    assert_eq!(error.to_string(), "Unsupported cartridge type: 0xFE");
}

#[test]
fn shortest_header_is_read() {
    let small = Cartridge::from_rom(rom_with_header(0x014A, b"AB", 0x00, 0x00)).unwrap();
    assert_eq!(small.get_name(), "AB");
    assert_eq!(small.get_rom_banks(), 2);
}
