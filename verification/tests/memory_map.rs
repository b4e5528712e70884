use gameboy_core::mmu::interrupt::Interrupt;
use gameboy_core::mmu::memory::Memory;

#[test]
fn work_ram_reads_back_what_was_written() {
    let mut memory = Memory::new();
    memory.write_byte(0xC123, 0x5A);
    assert_eq!(memory.read_byte(0xC123), 0x5A);
    memory.write_byte(0xD000, 0xA5);
    assert_eq!(memory.read_byte(0xD000), 0xA5);
}

#[test]
fn write_leaves_other_addresses_alone() {
    let mut memory = Memory::new();
    memory.write_byte(0xC000, 0x11);
    memory.write_byte(0xC001, 0x22);
    assert_eq!(memory.read_byte(0xC000), 0x11);
    assert_eq!(memory.read_byte(0xC001), 0x22);
}

#[test]
fn echo_ram_mirrors_work_ram() {
    let mut memory = Memory::new();
    memory.write_byte(0xC010, 0x77);
    assert_eq!(memory.read_byte(0xE010), 0x77);
    memory.write_byte(0xE020, 0x66);
    assert_eq!(memory.read_byte(0xC020), 0x66);
}

#[test]
fn high_ram_and_sprite_table_read_back() {
    let mut memory = Memory::new();
    memory.write_byte(0xFF80, 0x42);
    assert_eq!(memory.read_byte(0xFF80), 0x42);
    memory.write_byte(0xFE10, 0x24);
    assert_eq!(memory.read_byte(0xFE10), 0x24);
}

#[test]
fn writing_the_divider_clears_it() {
    let mut memory = Memory::new();
    memory.store(0xFF04, 0x80);
    memory.write_byte(0xFF04, 0x55);
    assert_eq!(memory.read_byte(0xFF04), 0x00);
}

#[test]
fn interrupt_registers_keep_five_bits() {
    let mut memory = Memory::new();
    memory.write_byte(0xFF0F, 0xFF);
    assert_eq!(memory.load(0xFF0F), 0x1F);
    assert_eq!(memory.read_byte(0xFF0F), 0xFF);
    memory.write_byte(0xFF0F, 0x00);
    assert_eq!(memory.read_byte(0xFF0F), 0xE0);
    memory.write_byte(0xFFFF, 0xFF);
    assert_eq!(memory.read_byte(0xFFFF), 0x1F);
}

#[test]
fn timer_control_reads_with_upper_bits_set() {
    let mut memory = Memory::new();
    memory.write_byte(0xFF07, 0x05);
    assert_eq!(memory.read_byte(0xFF07), 0xFD);
}

#[test]
fn word_reads_back_little_endian() {
    let mut memory = Memory::new();
    memory.write_word(0xC100, 0xBEEF);
    assert_eq!(memory.read_byte(0xC100), 0xEF);
    assert_eq!(memory.read_byte(0xC101), 0xBE);
    assert_eq!(memory.read_word(0xC100), 0xBEEF);
}

#[test]
fn requested_enabled_interrupt_is_pending() {
    let mut memory = Memory::new();
    memory.write_byte(0xFF0F, 0x00);
    memory.write_byte(0xFFFF, 0x1F);
    assert_eq!(memory.get_interrupts(), None);
    memory.request_interrupt(Interrupt::Timer);
    assert_eq!(memory.get_interrupts(), Some(Interrupt::Timer));
    memory.request_interrupt(Interrupt::Lcd);
    assert_eq!(memory.get_interrupts(), Some(Interrupt::Lcd));
    memory.remove_interrupt(Interrupt::Lcd);
    assert_eq!(memory.get_interrupts(), Some(Interrupt::Timer));
    memory.remove_interrupt(Interrupt::Timer);
    assert_eq!(memory.get_interrupts(), None);
}

#[test]
fn disabled_interrupt_is_not_pending() {
    let mut memory = Memory::new();
    memory.write_byte(0xFF0F, 0x00);
    memory.write_byte(0xFFFF, 0x01);
    memory.request_interrupt(Interrupt::Joypad);
    assert_eq!(memory.get_interrupts(), None);
    memory.request_interrupt(Interrupt::Vblank);
    assert_eq!(memory.get_interrupts(), Some(Interrupt::Vblank));
}

#[test]
fn cartridge_ram_writes_are_reported() {
    let mut memory = Memory::new();
    memory.write_byte(0xA005, 0x99);
    assert_eq!(memory.read_byte(0xA005), 0x99);
    let changes = memory.take_ram_changes();
    assert_eq!(changes, vec![(5usize, 0x99u8)]);
    assert!(memory.take_ram_changes().is_empty());
}

#[test]
fn rom_writes_change_nothing() {
    let mut memory = Memory::new();
    let before = memory.read_byte(0x0100);
    memory.write_byte(0x0100, 0x12);
    assert_eq!(memory.read_byte(0x0100), before);
    assert!(memory.take_ram_changes().is_empty());
}

#[test]
fn loaded_cartridge_ram_is_read() {
    let mut memory = Memory::new();
    let mut ram = vec![0u8; 0x8000];
    ram[0x10] = 0x3C;
    memory.set_cartridge_ram(ram);
    assert_eq!(memory.read_byte(0xA010), 0x3C);
    assert_eq!(memory.get_cartridge().get_ram()[0x10], 0x3C);
}

#[test]
fn dma_copies_into_the_sprite_table() {
    let mut memory = Memory::new();
    for i in 0..0xA0u16 {
        memory.write_byte(0xC000 + i, i as u8);
    }
    memory.write_byte(0xFF46, 0xC0);
    for i in 0..0xA0u16 {
        assert_eq!(memory.read_byte(0xFE00 + i), i as u8);
    }
}

#[test]
fn sound_is_powered_on_after_boot() {
    let memory = Memory::new();
    // The boot values trigger all four channels (bit 7 of NR14, NR24, NR34, NR44).
    assert_eq!(memory.read_byte(0xFF26), 0xFF);
    assert_eq!(memory.read_byte(0xFF26) & 0x80, 0x80);
}
