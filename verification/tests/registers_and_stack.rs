use gameboy_core::bit_utils::{is_set, set_bit, unset_bit};
use gameboy_core::cpu::flag::Flag;
use gameboy_core::cpu::registers::Registers;
use gameboy_core::cpu::stack;
use gameboy_core::cpu::Cpu;
use gameboy_core::mmu::memory::Memory;
use gameboy_core::mmu::mbc3::Mbc3;
use gameboy_core::Rtc;

#[test]
fn register_pairs_read_back() {
    let mut registers = Registers::new();
    registers.set_bc(0x1234);
    registers.set_de(0xABCD);
    registers.set_hl(0x00FF);
    assert_eq!(registers.get_bc(), 0x1234);
    assert_eq!(registers.b, 0x12);
    assert_eq!(registers.c, 0x34);
    assert_eq!(registers.get_de(), 0xABCD);
    assert_eq!(registers.get_hl(), 0x00FF);
}

#[test]
fn flag_register_drops_bit_three() {
    let mut registers = Registers::new();
    registers.set_af(0x12FF);
    assert_eq!(registers.get_af(), 0x12F7);
    assert_eq!(registers.a, 0x12);
    assert_eq!(Flag::from_bits_truncate(0x08).bits(), 0x00);
}

#[test]
fn flag_operations() {
    let mut flag = Flag::empty();
    flag.insert(Flag::ZERO | Flag::FULL_CARRY);
    assert_eq!(flag.bits(), 0x90);
    assert!(flag.contains(Flag::ZERO));
    flag.toggle(Flag::ZERO | Flag::NEGATIVE);
    assert_eq!(flag.bits(), 0x50);
    flag.set(Flag::HALF_CARRY, true);
    assert_eq!(flag.bits(), 0x70);
    flag.remove(Flag::NEGATIVE);
    assert_eq!(flag.bits(), 0x30);
    flag.set(Flag::FULL_CARRY, false);
    assert_eq!(flag.bits(), 0x20);
}

#[test]
fn boot_state_of_the_processor() {
    let cpu = Cpu::new(false);
    assert_eq!(cpu.registers.get_af(), 0x01B0);
    assert_eq!(cpu.registers.get_bc(), 0x0013);
    assert_eq!(cpu.registers.get_de(), 0x00D8);
    assert_eq!(cpu.registers.get_hl(), 0x014D);
    assert_eq!(cpu.registers.sp, 0xFFFE);
    assert_eq!(cpu.registers.pc, 0x0100);
    assert_eq!(Cpu::new(true).registers.get_af(), 0x11B0);
}

#[test]
fn pop_gives_back_what_push_stored() {
    let mut memory = Memory::new();
    let mut sp: u16 = 0xDFFE;
    stack::push(&mut sp, 0x1234, &mut memory);
    assert_eq!(sp, 0xDFFC);
    assert_eq!(memory.read_byte(0xDFFC), 0x34);
    assert_eq!(memory.read_byte(0xDFFD), 0x12);
    stack::push(&mut sp, 0xBEEF, &mut memory);
    assert_eq!(stack::pop(&mut sp, &memory), 0xBEEF);
    assert_eq!(stack::pop(&mut sp, &memory), 0x1234);
    assert_eq!(sp, 0xDFFE);
}

#[test]
fn stack_pointer_wraps_round() {
    let mut memory = Memory::new();
    let mut sp: u16 = 0x0000;
    stack::push(&mut sp, 0x0A66, &mut memory);
    assert_eq!(sp, 0xFFFE);
    assert_eq!(stack::pop(&mut sp, &memory), 0x0A66);
    assert_eq!(sp, 0x0000);
}

#[test]
fn bit_helpers() {
    assert!(is_set(0b1000_0000, 7));
    assert!(!is_set(0b1000_0000, 6));
    assert_eq!(set_bit(0x00, 3), 0x08);
    assert_eq!(unset_bit(0xFF, 0), 0xFE);
    assert_eq!(unset_bit(set_bit(0x41, 4), 4), 0x41);
}

#[test]
fn rtc_bytes_round_trip() {
    let rtc = Rtc { seconds: 59, minutes: 30, hours: 12, days_low: 0xAB, days_high: 0xC1 };
    let bytes = rtc.to_bytes();
    assert_eq!(bytes, [59, 30, 12, 0xAB, 0xC1]);
    assert_eq!(Rtc::from_bytes(&bytes), rtc);
    assert_eq!(Rtc::new(), Rtc { seconds: 0, minutes: 0, hours: 0, days_low: 0, days_high: 0 });
}

#[test]
fn clock_carries_from_seconds_to_days() {
    let rtc = Rtc { seconds: 59, minutes: 59, hours: 23, days_low: 0, days_high: 0 };
    let next = Mbc3::advance(rtc, 1);
    assert_eq!(next, Rtc { seconds: 0, minutes: 0, hours: 0, days_low: 1, days_high: 0 });
}

#[test]
fn clock_advances_by_days_hours_minutes_and_seconds() {
    let rtc = Rtc::new();
    let next = Mbc3::advance(rtc, 2 * 86400 + 3 * 3600 + 4 * 60 + 5);
    assert_eq!(next, Rtc { seconds: 5, minutes: 4, hours: 3, days_low: 2, days_high: 0 });
}

#[test]
fn day_counter_overflow_sets_the_carry_bit() {
    let rtc = Rtc { seconds: 0, minutes: 0, hours: 0, days_low: 0xFF, days_high: 0x00 };
    let next = Mbc3::advance(rtc, 300 * 86400);
    assert_eq!(next, Rtc { seconds: 0, minutes: 0, hours: 0, days_low: 43, days_high: 0x80 });
}

#[test]
fn day_counter_ninth_bit() {
    let rtc = Rtc { seconds: 0, minutes: 0, hours: 0, days_low: 0xFF, days_high: 0x00 };
    let next = Mbc3::advance(rtc, 86400);
    assert_eq!(next, Rtc { seconds: 0, minutes: 0, hours: 0, days_low: 0, days_high: 0x01 });
}
