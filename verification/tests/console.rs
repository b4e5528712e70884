use gameboy_core::{
    Button, CGBColor, CartridgeError, Color, Gameboy, MappedPixel, PixelMapper, Rtc, StepResult, RTC,
};

struct FixedClock(u64);

impl RTC for FixedClock {
    fn get_current_time(&self) -> u64 {
        self.0
    }
}

struct NullScreen {
    writes: usize,
}

impl PixelMapper for NullScreen {
    fn map_pixel(&mut self, _pixel: usize, _color: Color) {
        self.writes += 1;
    }

    fn cgb_map_pixel(&mut self, _pixel: usize, _color: CGBColor) {
        self.writes += 1;
    }
}

fn game_rom(cartridge_type: u8, ram_code: u8) -> Vec<u8> {
    let mut rom = vec![0u8; 0x8000];
    for (i, b) in b"DEMO".iter().enumerate() {
        rom[0x0134 + i] = *b;
    }
    rom[0x0147] = cartridge_type;
    rom[0x0149] = ram_code;
    rom
}

#[test]
fn console_loads_a_game() {
    let gameboy = Gameboy::from_rom(game_rom(0x03, 0x02), Box::new(FixedClock(0))).ok().unwrap();
    assert_eq!(gameboy.get_cartridge_name(), "DEMO");
    assert!(gameboy.has_battery());
    assert!(!gameboy.has_rtc());
    assert_eq!(gameboy.get_cartridge_ram().len(), 0x8000);
}

#[test]
fn console_refuses_an_unknown_controller() {
    let r = Gameboy::from_rom(game_rom(0x22, 0x00), Box::new(FixedClock(0)));
    assert_eq!(r.err(), Some(CartridgeError::UnsupportedCartridgeType(0x22)));
}

#[test]
fn console_refuses_an_unknown_ram_size() {
    let r = Gameboy::from_rom(game_rom(0x00, 0x07), Box::new(FixedClock(0)));
    assert_eq!(r.err(), Some(CartridgeError::UnknownRamBanks(0x07)));
}

#[test]
fn saved_ram_is_loaded() {
    let mut gameboy = Gameboy::from_rom(game_rom(0x03, 0x02), Box::new(FixedClock(0))).ok().unwrap();
    let mut ram = vec![0u8; 0x8000];
    ram[0] = 0x5A;
    ram[0x7FFF] = 0xA5;
    gameboy.set_cartridge_ram(ram);
    assert_eq!(gameboy.get_cartridge_ram()[0], 0x5A);
    assert_eq!(gameboy.get_cartridge_ram()[0x7FFF], 0xA5);
}

#[test]
fn clock_timestamp_is_kept() {
    let mut gameboy = Gameboy::from_rom(game_rom(0x00, 0x00), Box::new(FixedClock(0))).ok().unwrap();
    let rtc = Rtc { seconds: 1, minutes: 2, hours: 3, days_low: 4, days_high: 5 };
    gameboy.set_last_timestamp(rtc, 1234);
    assert_eq!(gameboy.get_last_timestamp(), (rtc, 1234));
}

#[test]
fn clock_cartridge_reports_rtc() {
    let gameboy = Gameboy::from_rom(game_rom(0x10, 0x02), Box::new(FixedClock(100))).ok().unwrap();
    assert!(gameboy.has_rtc());
    assert!(gameboy.has_battery());
}

#[test]
fn running_a_blank_game_produces_frames() {
    let mut gameboy = Gameboy::from_rom(game_rom(0x00, 0x00), Box::new(FixedClock(0))).ok().unwrap();
    let mut screen = NullScreen { writes: 0 };
    let mut frames = 0;
    for _ in 0..40000 {
        if gameboy.emulate(&mut screen) == StepResult::VBlank {
            frames += 1;
        }
    }
    assert!(frames >= 1);
    assert!(screen.writes >= 160 * 144);
    assert!(gameboy.take_ram_changes().is_empty());
}

#[test]
fn buttons_can_be_pressed_and_released_while_running() {
    let mut gameboy = Gameboy::from_rom(game_rom(0x00, 0x00), Box::new(FixedClock(0))).ok().unwrap();
    let mut screen = NullScreen { writes: 0 };
    gameboy.press_button(Button::Start);
    for _ in 0..100 {
        gameboy.emulate(&mut screen);
    }
    gameboy.release_button(Button::Start);
    for _ in 0..100 {
        gameboy.emulate(&mut screen);
    }
    assert_eq!(gameboy.get_cartridge_name(), "DEMO");
}

#[test]
fn pixels_shown_by_a_step_are_those_handed_to_the_screen() {
    let mut shown = Gameboy::from_rom(game_rom(0x00, 0x00), Box::new(FixedClock(0))).ok().unwrap();
    let mut drawn = Gameboy::from_rom(game_rom(0x00, 0x00), Box::new(FixedClock(0))).ok().unwrap();
    let mut screen = NullScreen { writes: 0 };
    let mut total = 0;
    for _ in 0..30000 {
        let (r, pixels) = shown.emulate_pixels();
        assert_eq!(drawn.emulate(&mut screen), r);
        for p in &pixels {
            match p {
                MappedPixel::Shade(i, _) => assert!(*i < 160 * 144),
                MappedPixel::Rgb(i, _) => assert!(*i < 160 * 144),
            }
        }
        total += pixels.len();
        assert_eq!(screen.writes, total);
    }
    assert!(total >= 160 * 144);
}
