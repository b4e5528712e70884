use gameboy_core::cpu::flag::Flag;
use gameboy_core::cpu::Cpu;
use gameboy_core::mmu::memory::Memory;

fn cpu_at_work_ram() -> Cpu {
    let mut cpu = Cpu::default();
    cpu.registers.pc = 0xC000;
    cpu.registers.sp = 0xD000;
    cpu
}

#[test]
fn compare_sets_the_flags_of_subtract_and_keeps_a() {
    for (a, b) in [(0x3Cu8, 0x2Fu8), (0x10, 0x20), (0x42, 0x42), (0x00, 0x01)] {
        let mut memory = Memory::new();
        let mut cmp = cpu_at_work_ram();
        cmp.registers.a = a;
        cmp.registers.b = b;
        cmp.execute_opcode(0xB8, &mut memory);
        let mut sub = cpu_at_work_ram();
        sub.registers.a = a;
        sub.registers.b = b;
        sub.execute_opcode(0x90, &mut memory);
        assert_eq!(cmp.registers.a, a);
        assert_eq!(cmp.registers.f.bits(), sub.registers.f.bits());
        assert_eq!(sub.registers.a, a.wrapping_sub(b));
    }
}

#[test]
fn xor_a_clears_a_and_sets_only_zero() {
    let mut memory = Memory::new();
    let mut cpu = cpu_at_work_ram();
    cpu.registers.a = 0x5A;
    cpu.registers.f.insert(Flag::FULL_CARRY | Flag::NEGATIVE);
    cpu.execute_opcode(0xAF, &mut memory);
    assert_eq!(cpu.registers.a, 0);
    assert_eq!(cpu.registers.f.bits(), 0x80);
}

#[test]
fn add_then_subtract_gives_back_a() {
    for (a, b) in [(0xF0u8, 0x20u8), (0x0F, 0x01), (0x00, 0x00), (0xFF, 0xFF)] {
        let mut memory = Memory::new();
        let mut cpu = cpu_at_work_ram();
        cpu.registers.a = a;
        cpu.registers.b = b;
        cpu.execute_opcode(0x80, &mut memory);
        assert_eq!(cpu.registers.a, a.wrapping_add(b));
        cpu.execute_opcode(0x90, &mut memory);
        assert_eq!(cpu.registers.a, a);
    }
}

#[test]
fn add_carry_and_half_carry() {
    let mut memory = Memory::new();
    let mut cpu = cpu_at_work_ram();
    cpu.registers.a = 0xF8;
    cpu.registers.b = 0x08;
    cpu.execute_opcode(0x80, &mut memory);
    assert_eq!(cpu.registers.a, 0x00);
    assert!(cpu.registers.f.contains(Flag::ZERO));
    assert!(cpu.registers.f.contains(Flag::HALF_CARRY));
    assert!(cpu.registers.f.contains(Flag::FULL_CARRY));
    assert!(!cpu.registers.f.contains(Flag::NEGATIVE));
}

#[test]
fn increment_then_decrement_gives_back_the_register() {
    for v in [0x00u8, 0x0F, 0x7F, 0xFF] {
        let mut memory = Memory::new();
        let mut cpu = cpu_at_work_ram();
        cpu.registers.b = v;
        cpu.execute_opcode(0x04, &mut memory);
        assert_eq!(cpu.registers.b, v.wrapping_add(1));
        cpu.execute_opcode(0x05, &mut memory);
        assert_eq!(cpu.registers.b, v);
    }
}

#[test]
fn increment_keeps_the_carry_flag() {
    let mut memory = Memory::new();
    let mut cpu = cpu_at_work_ram();
    cpu.registers.b = 0xFF;
    cpu.registers.f.insert(Flag::FULL_CARRY);
    cpu.execute_opcode(0x04, &mut memory);
    assert_eq!(cpu.registers.b, 0x00);
    assert!(cpu.registers.f.contains(Flag::ZERO));
    assert!(cpu.registers.f.contains(Flag::HALF_CARRY));
    assert!(cpu.registers.f.contains(Flag::FULL_CARRY));
}

#[test]
fn swap_twice_gives_back_the_register() {
    let mut memory = Memory::new();
    let mut cpu = cpu_at_work_ram();
    memory.write_byte(0xC000, 0x37);
    memory.write_byte(0xC001, 0x37);
    cpu.registers.a = 0xA5;
    cpu.execute_opcode(0xCB, &mut memory);
    assert_eq!(cpu.registers.a, 0x5A);
    cpu.execute_opcode(0xCB, &mut memory);
    assert_eq!(cpu.registers.a, 0xA5);
    assert_eq!(cpu.registers.pc, 0xC002);
}

#[test]
fn decimal_adjust_after_addition() {
    let mut memory = Memory::new();
    let mut cpu = cpu_at_work_ram();
    cpu.registers.a = 0x45;
    cpu.registers.b = 0x38;
    cpu.execute_opcode(0x80, &mut memory);
    cpu.execute_opcode(0x27, &mut memory);
    assert_eq!(cpu.registers.a, 0x83);
    assert!(!cpu.registers.f.contains(Flag::FULL_CARRY));
}

#[test]
fn call_then_return_comes_back() {
    let mut memory = Memory::new();
    let mut cpu = cpu_at_work_ram();
    memory.write_word(0xC000, 0xC200);
    memory.write_byte(0xC200, 0xC9);
    cpu.execute_opcode(0xCD, &mut memory);
    assert_eq!(cpu.registers.pc, 0xC200);
    assert_eq!(cpu.registers.sp, 0xCFFE);
    cpu.execute_opcode(0xC9, &mut memory);
    assert_eq!(cpu.registers.pc, 0xC002);
    assert_eq!(cpu.registers.sp, 0xD000);
}

#[test]
fn decimal_adjust_carries_past_ninety_nine() {
    let mut memory = Memory::new();
    let mut cpu = cpu_at_work_ram();
    cpu.registers.a = 0x45;
    cpu.registers.b = 0x67;
    cpu.execute_opcode(0x80, &mut memory);
    cpu.execute_opcode(0x27, &mut memory);
    assert_eq!(cpu.registers.a, 0x12);
    assert!(cpu.registers.f.contains(Flag::FULL_CARRY));
    assert!(!cpu.registers.f.contains(Flag::HALF_CARRY));
    assert!(!cpu.registers.f.contains(Flag::ZERO));
}

#[test]
fn decimal_adjust_to_zero() {
    let mut memory = Memory::new();
    let mut cpu = cpu_at_work_ram();
    cpu.registers.a = 0x50;
    cpu.registers.b = 0x50;
    cpu.execute_opcode(0x80, &mut memory);
    cpu.execute_opcode(0x27, &mut memory);
    assert_eq!(cpu.registers.a, 0x00);
    assert!(cpu.registers.f.contains(Flag::FULL_CARRY));
    assert!(cpu.registers.f.contains(Flag::ZERO));
}
