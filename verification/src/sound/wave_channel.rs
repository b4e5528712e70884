use vstd::prelude::*;
use crate::bit_utils::is_set;
use crate::sound::pulse_channel::lemma_timer_load_bits;

verus! {

/// The wave channel: its registers and the 32 four-bit samples of wave RAM are kept
/// and read back; its waveform is not generated.
pub struct WaveChannel {
    dac_enabled: bool,
    length_load: u8,
    timer_load: u16,
    length_enable: bool,
    trigger_bit: bool,
    volume_code: u8,
    wave_table: Vec<u8>,
    length_counter: u16,
    enabled: bool,
    timer: i32,
    position_counter: u8,
    output_vol: u8,
}

pub struct WaveView {
    pub dac_enabled: bool,
    pub length_load: u8,
    pub timer_load: u16,
    pub length_enable: bool,
    pub trigger_bit: bool,
    pub volume_code: u8,
    pub wave_table: Seq<u8>,
    pub length_counter: u16,
    pub enabled: bool,
    pub timer: i32,
    pub position_counter: u8,
    pub output_vol: u8,
}

impl View for WaveChannel {
    type V = WaveView;

    closed spec fn view(&self) -> WaveView {
        WaveView {
            dac_enabled: self.dac_enabled,
            length_load: self.length_load,
            timer_load: self.timer_load,
            length_enable: self.length_enable,
            trigger_bit: self.trigger_bit,
            volume_code: self.volume_code,
            wave_table: self.wave_table@,
            length_counter: self.length_counter,
            enabled: self.enabled,
            timer: self.timer,
            position_counter: self.position_counter,
            output_vol: self.output_vol,
        }
    }
}

impl WaveView {
    pub open spec fn wf(self) -> bool {
        self.wave_table.len() == 16 && self.timer_load <= 0x7FF
    }

    pub open spec fn initial() -> WaveView {
        WaveView {
            dac_enabled: false,
            length_load: 0,
            timer_load: 0,
            length_enable: false,
            trigger_bit: false,
            volume_code: 0,
            wave_table: Seq::new(16, |i: int| 0u8),
            length_counter: 0,
            enabled: false,
            timer: 0,
            position_counter: 0,
            output_vol: 0,
        }
    }

    /// Reads one of the registers 0xFF1A..=0xFF1E or a byte of wave RAM (0xFF30..=0xFF3F).
    pub open spec fn read(self, address: u16) -> u8 {
        if address == 0xFF1A {
            (if self.dac_enabled { 1u8 } else { 0u8 }) << 7u8
        } else if address == 0xFF1B {
            self.length_load
        } else if address == 0xFF1C {
            self.volume_code << 5u8
        } else if address == 0xFF1D {
            (self.timer_load & 0xFF) as u8
        } else if address == 0xFF1E {
            ((self.timer_load >> 8u16) & 0x07) as u8 | ((if self.length_enable { 1u8 } else { 0u8 }) << 6u8) | ((
            if self.trigger_bit {
                1u8
            } else {
                0u8
            }) << 7u8)
        } else {
            self.wave_table[address - 0xFF30]
        }
    }

    /// The channel restarted: enabled, the length counter reloaded when it ran out,
    /// the timer reloaded and the sample position reset.
    pub open spec fn triggered(self) -> WaveView {
        WaveView {
            enabled: true,
            length_counter: if self.length_counter == 0 { 256u16 } else { self.length_counter },
            timer: ((2048 - self.timer_load) * 2) as i32,
            position_counter: 0,
            ..self
        }
    }

    pub open spec fn write(self, address: u16, value: u8) -> WaveView {
        if address == 0xFF1A {
            WaveView { dac_enabled: value & (1u8 << 7u8) != 0, ..self }
        } else if address == 0xFF1B {
            WaveView { length_load: value, ..self }
        } else if address == 0xFF1C {
            WaveView { volume_code: (value >> 5u8) & 0x03, ..self }
        } else if address == 0xFF1D {
            WaveView { timer_load: (self.timer_load & 0x700) | value as u16, ..self }
        } else if address == 0xFF1E {
            let c = WaveView {
                timer_load: (self.timer_load & 0xFF) | (((value as u16) & 0x7) << 8u16),
                length_enable: value & (1u8 << 6u8) != 0,
                trigger_bit: value & (1u8 << 7u8) != 0,
                ..self
            };
            if value & (1u8 << 7u8) != 0 {
                c.triggered()
            } else {
                c
            }
        } else {
            WaveView { wave_table: self.wave_table.update(address - 0xFF30, value), ..self }
        }
    }
}

/// The addresses the wave channel answers.
pub open spec fn wave_address(address: u16) -> bool {
    (0xFF1A <= address <= 0xFF1E) || (0xFF30 <= address <= 0xFF3F)
}

impl WaveChannel {
    pub fn new() -> (r: WaveChannel)
        ensures
            r@ == WaveView::initial(),
            r@.wf(),
    {
        let r = WaveChannel {
            dac_enabled: false,
            length_load: 0,
            timer_load: 0,
            length_enable: false,
            trigger_bit: false,
            volume_code: 0,
            wave_table: vec![0u8; 16],
            length_counter: 0,
            enabled: false,
            timer: 0,
            position_counter: 0,
            output_vol: 0,
        };
        assert(r@.wave_table =~= Seq::new(16, |i: int| 0u8));
        r
    }

    /// The waveform is not generated, so a clock tick changes nothing.
    pub fn step(&mut self)
        ensures
            final(self)@ == old(self)@,
    {
    }

    pub fn length_click(&mut self)
        ensures
            final(self)@ == old(self)@,
    {
    }

    pub fn read_byte(&self, address: u16) -> (r: u8)
        requires
            self@.wf(),
            wave_address(address),
        ensures
            r == self@.read(address),
    {
        if address == 0xFF1A {
            let dac_enabled: u8 = if self.dac_enabled { 1 } else { 0 };
            dac_enabled << 7u8
        } else if address == 0xFF1B {
            self.length_load
        } else if address == 0xFF1C {
            self.volume_code << 5u8
        } else if address == 0xFF1D {
            (self.timer_load & 0xFF) as u8
        } else if address == 0xFF1E {
            let length_enable: u8 = if self.length_enable { 1 } else { 0 };
            let trigger_bit: u8 = if self.trigger_bit { 1 } else { 0 };
            ((self.timer_load >> 8u16) & 0x07) as u8 | (length_enable << 6u8) | (trigger_bit << 7u8)
        } else {
            self.wave_table[(address - 0xFF30) as usize]
        }
    }

    pub fn write_byte(&mut self, address: u16, value: u8)
        requires
            old(self)@.wf(),
            wave_address(address),
        ensures
            final(self)@ == old(self)@.write(address, value),
            final(self)@.wf(),
    {
        proof {
            lemma_timer_load_bits(self.timer_load, value);
        }
        if address == 0xFF1A {
            self.dac_enabled = is_set(value, 7);
        } else if address == 0xFF1B {
            self.length_load = value;
        } else if address == 0xFF1C {
            self.volume_code = (value >> 5u8) & 0x03;
        } else if address == 0xFF1D {
            self.timer_load = (self.timer_load & 0x700) | value as u16;
        } else if address == 0xFF1E {
            self.timer_load = (self.timer_load & 0xFF) | ((value as u16 & 0x7) << 8u16);
            self.length_enable = is_set(value, 6);
            self.trigger_bit = is_set(value, 7);
            if self.trigger_bit {
                self.trigger();
            }
        } else {
            self.wave_table.set((address - 0xFF30) as usize, value);
        }
    }

    fn trigger(&mut self)
        requires
            old(self)@.wf(),
        ensures
            final(self)@ == old(self)@.triggered(),
            final(self)@.wf(),
    {
        self.enabled = true;
        if self.length_counter == 0 {
            self.length_counter = 256;
        }
        self.timer = (2048 - self.timer_load as i32) * 2;
        self.position_counter = 0;
    }

    /// The length counter has not run out.
    pub fn get_status(&self) -> (r: bool)
        ensures
            r == (self@.length_counter > 0),
    {
        self.length_counter > 0
    }

    pub fn get_output_vol(&self) -> (r: u8)
        ensures
            r == self@.output_vol,
    {
        self.output_vol
    }
}

} // verus!
