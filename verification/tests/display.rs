use gameboy_core::gpu::mapped_pixel::MappedPixel;
use gameboy_core::gpu::GPU;
use gameboy_core::mmu::interrupt::Interrupt;
use gameboy_core::{CGBColor, Color, PixelMapper};

struct Screen {
    pixels: Vec<Color>,
    writes: usize,
}

impl Screen {
    fn new() -> Screen {
        Screen { pixels: vec![Color::White; 160 * 144], writes: 0 }
    }
}

impl PixelMapper for Screen {
    fn map_pixel(&mut self, pixel: usize, color: Color) {
        self.pixels[pixel] = color;
        self.writes += 1;
    }

    fn cgb_map_pixel(&mut self, _pixel: usize, _color: CGBColor) {
        self.writes += 1;
    }
}

#[test]
fn new_unit_starts_in_vertical_blank() {
    let gpu = GPU::new(false);
    assert_eq!(gpu.get_lcd_status_mode(), 1);
    assert_eq!(gpu.read_byte(0xFF44), 144);
}

#[test]
fn video_ram_and_sprite_table_read_back() {
    let mut gpu = GPU::new(false);
    gpu.write_byte(0x8000, 0x3C);
    gpu.write_byte(0x9FFF, 0x7E);
    gpu.write_byte(0xFE9F, 0x12);
    assert_eq!(gpu.read_byte(0x8000), 0x3C);
    assert_eq!(gpu.read_byte(0x9FFF), 0x7E);
    assert_eq!(gpu.read_byte(0xFE9F), 0x12);
}

#[test]
fn scroll_registers_read_back() {
    let mut gpu = GPU::new(false);
    gpu.write_byte(0xFF42, 0x21);
    gpu.write_byte(0xFF43, 0x43);
    assert_eq!(gpu.read_byte(0xFF42), 0x21);
    assert_eq!(gpu.read_byte(0xFF43), 0x43);
}

#[test]
fn status_reads_with_top_bit_set_and_palette_index_without_color() {
    let gpu = GPU::new(false);
    assert_eq!(gpu.read_byte(0xFF41) & 0x80, 0x80);
    assert_eq!(gpu.read_byte(0xFF68), 0xC0);
    assert_eq!(gpu.read_byte(0xFF69), 0xFF);
}

#[test]
fn color_unit_switches_video_ram_banks() {
    let mut gpu = GPU::new(true);
    gpu.write_byte(0x8000, 0x11);
    gpu.write_byte(0xFF4F, 0x01);
    assert_eq!(gpu.read_byte(0xFF4F), 0xFF);
    assert_eq!(gpu.read_byte(0x8000), 0x00);
    gpu.write_byte(0x8000, 0x22);
    gpu.write_byte(0xFF4F, 0x00);
    assert_eq!(gpu.read_byte(0xFF4F), 0xFE);
    assert_eq!(gpu.read_byte(0x8000), 0x11);
}

#[test]
fn vertical_blank_lines_advance_ly() {
    let mut gpu = GPU::new(false);
    let mut screen = Screen::new();
    for _ in 0..(456 / 4) {
        gpu.step(4, &mut screen);
    }
    assert_eq!(gpu.read_byte(0xFF44), 145);
    assert_eq!(gpu.get_lcd_status_mode(), 1);
}

#[test]
fn vertical_blank_ends_with_the_oam_scan_of_line_zero() {
    let mut gpu = GPU::new(false);
    let mut screen = Screen::new();
    for _ in 0..(4560 / 4) {
        gpu.step(4, &mut screen);
    }
    assert_eq!(gpu.read_byte(0xFF44), 0);
    assert_eq!(gpu.get_lcd_status_mode(), 2);
    for _ in 0..(80 / 4) {
        gpu.step(4, &mut screen);
    }
    assert_eq!(gpu.get_lcd_status_mode(), 3);
}

#[test]
fn one_frame_completes_per_frame_time() {
    let mut gpu = GPU::new(false);
    let mut screen = Screen::new();
    gpu.write_byte(0xFF40, 0x91);
    let mut frames = 0;
    let mut vblank_interrupts = 0;
    for _ in 0..((70224 + 1000) / 4) {
        if gpu.step(4, &mut screen) {
            frames += 1;
        }
        while let Some(interrupt) = gpu.dequeue_interrupt() {
            if interrupt == Interrupt::Vblank {
                vblank_interrupts += 1;
            }
        }
    }
    assert_eq!(frames, 1);
    assert_eq!(vblank_interrupts, 1);
    assert_eq!(screen.writes, 160 * 144);
}

#[test]
fn dequeue_on_a_fresh_unit_gives_nothing() {
    let mut gpu = GPU::new(false);
    assert_eq!(gpu.dequeue_interrupt(), None);
}

fn pixels_of_first_line(gpu: &mut GPU) -> Vec<MappedPixel> {
    let mut pixels = Vec::new();
    while gpu.get_lcd_status_mode() != 3 {
        let (_, shown) = gpu.step_pixels(4);
        assert!(shown.is_empty());
    }
    while gpu.get_lcd_status_mode() == 3 {
        let (_, shown) = gpu.step_pixels(4);
        pixels.extend(shown);
    }
    pixels
}

#[test]
fn first_line_shows_the_background_left_to_right() {
    let mut gpu = GPU::new(false);
    gpu.write_byte(0xFF40, 0x91);
    gpu.write_byte(0xFF47, 0xFC);
    let pixels = pixels_of_first_line(&mut gpu);
    let expected: Vec<MappedPixel> = (0..160).map(|x| MappedPixel::Shade(143 * 160 + x, Color::White)).collect();
    assert_eq!(pixels, expected);
}

#[test]
fn background_palette_picks_the_shade() {
    let mut gpu = GPU::new(false);
    gpu.write_byte(0xFF40, 0x91);
    gpu.write_byte(0xFF47, 0x03);
    let pixels = pixels_of_first_line(&mut gpu);
    assert_eq!(pixels.len(), 160);
    assert!(pixels.iter().all(|p| matches!(p, MappedPixel::Shade(_, Color::Black))));
}

#[test]
fn sprite_is_drawn_over_the_background() {
    let mut gpu = GPU::new(false);
    gpu.write_byte(0xFF40, 0x93);
    gpu.write_byte(0xFF47, 0xFC);
    gpu.write_byte(0xFF48, 0xE4);
    gpu.write_byte(0x8010, 0xFF);
    gpu.write_byte(0x8011, 0x00);
    gpu.write_byte(0xFE00, 16);
    gpu.write_byte(0xFE01, 8 + 20);
    gpu.write_byte(0xFE02, 1);
    gpu.write_byte(0xFE03, 0x00);
    let pixels = pixels_of_first_line(&mut gpu);
    assert_eq!(pixels.len(), 168);
    for x in 0..8 {
        assert_eq!(pixels[160 + x], MappedPixel::Shade(143 * 160 + 20 + x, Color::LightGray));
    }
}

#[test]
fn sprite_behind_a_colored_background_is_hidden() {
    let mut gpu = GPU::new(false);
    gpu.write_byte(0xFF40, 0x93);
    gpu.write_byte(0xFF47, 0xE4);
    gpu.write_byte(0xFF48, 0xE4);
    gpu.write_byte(0x8010, 0xFF);
    gpu.write_byte(0x8011, 0xFF);
    gpu.write_byte(0x9800, 0x01);
    gpu.write_byte(0xFE00, 16);
    gpu.write_byte(0xFE01, 8 + 4);
    gpu.write_byte(0xFE02, 1);
    gpu.write_byte(0xFE03, 0x80);
    let pixels = pixels_of_first_line(&mut gpu);
    assert_eq!(pixels.len(), 160 + 4);
    for x in 0..4 {
        assert_eq!(pixels[160 + x], MappedPixel::Shade(143 * 160 + 8 + x, Color::Black));
    }
}

#[test]
fn screen_off_completes_a_frame_every_70224_cycles() {
    let mut gpu = GPU::new(false);
    let mut screen = Screen::new();
    gpu.write_byte(0xFF40, 0x00);
    assert_eq!(gpu.read_byte(0xFF44), 0);
    let mut frames = 0;
    for _ in 0..(3 * 70224 / 16) {
        if gpu.step(16, &mut screen) {
            frames += 1;
        }
    }
    assert_eq!(frames, 3);
    assert_eq!(screen.writes, 0);
}

#[test]
fn a_completed_frame_is_in_vertical_blank_at_line_144() {
    let mut gpu = GPU::new(false);
    let mut screen = Screen::new();
    gpu.write_byte(0xFF40, 0x91);
    let mut seen = false;
    for _ in 0..((70224 + 1000) / 4) {
        if gpu.step(4, &mut screen) {
            assert_eq!(gpu.get_lcd_status_mode(), 1);
            assert_eq!(gpu.read_byte(0xFF44), 144);
            assert_eq!(gpu.dequeue_interrupt(), Some(Interrupt::Vblank));
            seen = true;
        }
        while gpu.dequeue_interrupt().is_some() {}
    }
    assert!(seen);
}
