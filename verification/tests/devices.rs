use gameboy_core::mmu::memory::Memory;
use gameboy_core::serial::Serial;
use gameboy_core::timer::Timer;
use gameboy_core::{Button, Controller};

#[test]
fn divider_counts_every_256_cycles() {
    let mut memory = Memory::new();
    let mut timer = Timer::new();
    memory.write_byte(0xFF04, 0);
    timer.update(255, &mut memory);
    assert_eq!(memory.read_byte(0xFF04), 0);
    timer.update(1, &mut memory);
    assert_eq!(memory.read_byte(0xFF04), 1);
    timer.update(512, &mut memory);
    assert_eq!(memory.read_byte(0xFF04), 3);
    assert_eq!(memory.div_cycles(), 0);
}

#[test]
fn divider_wraps_round() {
    let mut memory = Memory::new();
    let mut timer = Timer::new();
    memory.store(0xFF04, 0xFF);
    timer.update(256, &mut memory);
    assert_eq!(memory.read_byte(0xFF04), 0);
}

#[test]
fn stopped_timer_does_not_count() {
    let mut memory = Memory::new();
    let mut timer = Timer::new();
    memory.write_byte(0xFF07, 0x01);
    memory.write_byte(0xFF05, 0x10);
    timer.update(1000, &mut memory);
    assert_eq!(memory.read_byte(0xFF05), 0x10);
}

#[test]
fn timer_counts_at_the_selected_rate() {
    let mut memory = Memory::new();
    let mut timer = Timer::new();
    memory.write_byte(0xFF07, 0x05);
    memory.write_byte(0xFF05, 0x00);
    timer.update(16 * 3 + 5, &mut memory);
    assert_eq!(memory.read_byte(0xFF05), 3);
    assert_eq!(memory.tima_cycles(), 5);
}

#[test]
fn timer_overflow_reloads_and_requests_interrupt() {
    let mut memory = Memory::new();
    let mut timer = Timer::new();
    memory.write_byte(0xFF0F, 0x00);
    memory.write_byte(0xFF06, 0xAB);
    memory.write_byte(0xFF07, 0x05);
    memory.write_byte(0xFF05, 0xFF);
    timer.update(16, &mut memory);
    assert_eq!(memory.read_byte(0xFF05), 0xAB);
    assert_eq!(memory.read_byte(0xFF0F) & 0x04, 0x04);
}

#[test]
fn serial_shifts_in_ones_and_finishes_with_an_interrupt() {
    let mut memory = Memory::new();
    let mut serial = Serial::new();
    memory.write_byte(0xFF0F, 0x00);
    memory.write_byte(0xFF01, 0x00);
    memory.write_byte(0xFF02, 0x81);
    serial.update(511, &mut memory);
    assert_eq!(memory.read_byte(0xFF01), 0x00);
    serial.update(1, &mut memory);
    assert_eq!(memory.read_byte(0xFF01), 0x01);
    for _ in 0..7 {
        serial.update(512, &mut memory);
    }
    assert_eq!(memory.read_byte(0xFF01), 0xFF);
    assert_eq!(memory.read_byte(0xFF0F) & 0x08, 0x00);
    serial.update(512, &mut memory);
    assert_eq!(memory.read_byte(0xFF02), 0x7F);
    assert_eq!(memory.read_byte(0xFF0F) & 0x08, 0x08);
}

#[test]
fn serial_idle_without_a_transfer() {
    let mut memory = Memory::new();
    let mut serial = Serial::new();
    memory.write_byte(0xFF01, 0x00);
    memory.write_byte(0xFF02, 0x01);
    serial.update(5000, &mut memory);
    assert_eq!(memory.read_byte(0xFF01), 0x00);
}

#[test]
fn pressed_action_button_reads_low_and_interrupts() {
    let mut memory = Memory::new();
    let mut controller = Controller::new();
    memory.write_byte(0xFF0F, 0x00);
    memory.write_byte(0xFF00, 0x10);
    controller.update(&mut memory);
    assert_eq!(memory.read_byte(0xFF00), 0x1F);
    controller.press(Button::A);
    controller.update(&mut memory);
    assert_eq!(memory.read_byte(0xFF00), 0x1E);
    assert_eq!(memory.read_byte(0xFF0F) & 0x10, 0x10);
}

#[test]
fn press_then_release_restores_the_buttons() {
    let mut memory = Memory::new();
    let mut controller = Controller::new();
    memory.write_byte(0xFF00, 0x20);
    controller.press(Button::Left);
    controller.update(&mut memory);
    assert_eq!(memory.read_byte(0xFF00), 0x2D);
    controller.release(Button::Left);
    controller.update(&mut memory);
    assert_eq!(memory.read_byte(0xFF00), 0x2F);
}

#[test]
fn direction_press_is_not_seen_while_actions_are_selected() {
    let mut memory = Memory::new();
    let mut controller = Controller::new();
    memory.write_byte(0xFF0F, 0x00);
    memory.write_byte(0xFF00, 0x10);
    controller.press(Button::Down);
    controller.update(&mut memory);
    assert_eq!(memory.read_byte(0xFF00), 0x1F);
    assert_eq!(memory.read_byte(0xFF0F) & 0x10, 0x00);
}

#[test]
fn second_press_raises_no_new_interrupt() {
    let mut memory = Memory::new();
    let mut controller = Controller::new();
    memory.write_byte(0xFF00, 0x10);
    controller.press(Button::Start);
    controller.update(&mut memory);
    memory.write_byte(0xFF0F, 0x00);
    controller.press(Button::Start);
    controller.update(&mut memory);
    assert_eq!(memory.read_byte(0xFF0F) & 0x10, 0x00);
    assert_eq!(memory.read_byte(0xFF00), 0x17);
}
