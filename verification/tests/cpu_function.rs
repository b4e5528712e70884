use gameboy_core::cpu::function;
use gameboy_core::cpu::registers::Registers;
use gameboy_core::mmu::memory::Memory;

#[test]
fn test_call_nn() {
    let mut memory = Memory::new();
    let mut registers: Registers = Default::default();
    registers.pc = 0xAAAA;
    registers.sp = 0xFF00;

    function::call_nn(&mut registers, 0xBBBB, &mut memory);

    assert_eq!(registers.pc, 0xBBBB);
    assert_eq!(registers.sp, 0xFEFE);
    assert_eq!(memory.read_word(registers.sp), 0xAAAA);
}

#[test]
fn test_ret() {
    let mut memory = Memory::new();
    let mut registers: Registers = Default::default();
    registers.pc = 0xAAAA;
    registers.sp = 0xFF00;

    function::call_nn(&mut registers, 0xBBBB, &mut memory);
    function::ret(&mut registers, &memory);

    assert_eq!(registers.pc, 0xAAAA);
    assert_eq!(registers.sp, 0xFF00);
}
