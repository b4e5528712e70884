use vstd::prelude::*;
use crate::bit_utils::is_set;

verus! {

/// A square-wave channel: its registers are kept and read back; its waveform is not generated.
#[derive(Clone, Copy, PartialEq, Eq, Structural)]
pub struct PulseChannel {
    pub sweep_shift: u8,
    pub sweep_negate: bool,
    pub sweep_period_load: u8,
    pub length_load: u8,
    pub duty: u8,
    pub envelope_period: u8,
    pub envelope_period_load: u8,
    pub envelope_add_mode: bool,
    pub volume_load: u8,
    pub volume: u8,
    pub timer_load: u16,
    pub length_enable: bool,
    pub trigger_bit: bool,
    pub length_counter: u8,
    pub dac_enabled: bool,
    pub enabled: bool,
    pub timer: i32,
    pub envelope_running: bool,
    pub sweep_shadow: u16,
    pub sweep_enable: bool,
    pub sweep_period: i32,
    pub output_vol: u8,
}

/// Which of the five registers of a square-wave channel an address selects
/// (0: sweep, 1: length and duty, 2: envelope, 3: frequency low, 4: frequency high).
pub open spec fn pulse_register(address: u16) -> u16 {
    (address % 0xF) % 0x5
}

/// Bounds of the register fields of a pulse channel and of its 11-bit frequency.
pub proof fn lemma_timer_load_bits(t: u16, v: u8)
    by (bit_vector)
    requires
        t <= 0x7FF,
    ensures
        (t & 0x700) | (v as u16) <= 0x7FF,
        (t & 0xFF) | (((v as u16) & 0x7) << 8u16) <= 0x7FF,
        ((t >> 8u16) & 0x07) as u8 == (t >> 8u16) & 0x07,
        v & 0x07 <= 0x07,
        (v >> 4u8) & 0x07 <= 0x07,
        (v >> 4u8) & 0x0F <= 0x0F,
        (v >> 6u8) & 0x3 <= 0x3,
{
}

impl PulseChannel {
    /// Registers in range: the frequency has eleven bits and the shift and period three.
    pub open spec fn wf(self) -> bool {
        &&& self.timer_load <= 0x7FF
        &&& self.sweep_shadow <= 0x7FF
        &&& self.sweep_shift <= 7
    }

    pub fn new() -> (r: PulseChannel)
        ensures
            r == PulseChannel::initial(),
            r.wf(),
    {
        PulseChannel {
            sweep_shift: 0,
            sweep_negate: false,
            sweep_period_load: 0,
            length_load: 0,
            duty: 0,
            envelope_period: 0,
            envelope_period_load: 0,
            envelope_add_mode: false,
            volume_load: 0,
            volume: 0,
            timer_load: 0,
            length_enable: false,
            trigger_bit: false,
            length_counter: 0,
            dac_enabled: true,
            timer: 0,
            sweep_enable: false,
            envelope_running: true,
            sweep_shadow: 0,
            enabled: false,
            sweep_period: 0,
            output_vol: 0,
        }
    }

    pub open spec fn initial() -> PulseChannel {
        PulseChannel {
            sweep_shift: 0,
            sweep_negate: false,
            sweep_period_load: 0,
            length_load: 0,
            duty: 0,
            envelope_period: 0,
            envelope_period_load: 0,
            envelope_add_mode: false,
            volume_load: 0,
            volume: 0,
            timer_load: 0,
            length_enable: false,
            trigger_bit: false,
            length_counter: 0,
            dac_enabled: true,
            timer: 0,
            sweep_enable: false,
            envelope_running: true,
            sweep_shadow: 0,
            enabled: false,
            sweep_period: 0,
            output_vol: 0,
        }
    }

    /// The waveform is not generated, so a clock tick changes nothing.
    pub fn step(&mut self)
        ensures
            *final(self) == *old(self),
    {
    }

    pub fn length_click(&mut self)
        ensures
            *final(self) == *old(self),
    {
    }

    pub fn sweep_click(&mut self)
        ensures
            *final(self) == *old(self),
    {
    }

    pub fn env_click(&mut self)
        ensures
            *final(self) == *old(self),
    {
    }

    pub open spec fn read(self, address: u16) -> u8 {
        let r = pulse_register(address);
        if r == 0 {
            self.sweep_shift | ((if self.sweep_negate { 1u8 } else { 0u8 }) << 3u8) | (self.sweep_period_load << 4u8)
        } else if r == 1 {
            (self.length_load & 0x3F) | ((self.duty & 0x03) << 6u8)
        } else if r == 2 {
            (self.envelope_period_load & 0x07) | ((if self.envelope_add_mode { 1u8 } else { 0u8 }) << 3u8) | ((
            self.volume_load & 0x0F) << 4u8)
        } else if r == 3 {
            (self.timer_load & 0xFF) as u8
        } else {
            ((self.timer_load >> 8u16) & 0x07) as u8 | ((if self.length_enable { 1u8 } else { 0u8 }) << 6u8) | ((
            if self.trigger_bit {
                1u8
            } else {
                0u8
            }) << 7u8)
        }
    }

    pub fn read_byte(&self, address: u16) -> (r: u8)
        ensures
            r == self.read(address),
    {
        let reg = (address % 0xF) % 0x5;
        if reg == 0 {
            let sweep_negate: u8 = if self.sweep_negate { 1 } else { 0 };
            self.sweep_shift | (sweep_negate << 3u8) | (self.sweep_period_load << 4u8)
        } else if reg == 1 {
            (self.length_load & 0x3F) | ((self.duty & 0x03) << 6u8)
        } else if reg == 2 {
            let envelope_add_mode: u8 = if self.envelope_add_mode { 1 } else { 0 };
            (self.envelope_period_load & 0x07) | (envelope_add_mode << 3u8) | ((self.volume_load & 0x0F) << 4u8)
        } else if reg == 3 {
            (self.timer_load & 0xFF) as u8
        } else {
            let trigger_bit: u8 = if self.trigger_bit { 1 } else { 0 };
            let length_enable: u8 = if self.length_enable { 1 } else { 0 };
            ((self.timer_load >> 8u16) & 0x07) as u8 | (length_enable << 6u8) | (trigger_bit << 7u8)
        }
    }

    /// The channel restarted: enabled, the length counter reloaded when it ran out,
    /// the timer, envelope and sweep reloaded, and the sweep frequency checked.
    pub open spec fn triggered(self) -> PulseChannel {
        let period = if self.sweep_period_load == 0 { 8i32 } else { self.sweep_period_load as i32 };
        let c = PulseChannel {
            enabled: true,
            length_counter: if self.length_counter == 0 { 64u8 } else { self.length_counter },
            timer: ((2048 - self.timer_load) * 4) as i32,
            envelope_running: true,
            envelope_period: self.envelope_period_load,
            volume: self.volume_load,
            sweep_shadow: self.timer_load,
            sweep_period: period,
            sweep_enable: period > 0 || self.sweep_shift > 0,
            ..self
        };
        if c.sweep_shift > 0 {
            c.sweep_checked().0
        } else {
            c
        }
    }

    /// The next sweep frequency, and the channel, switched off when that frequency
    /// passes 2047.
    pub open spec fn sweep_checked(self) -> (PulseChannel, u16) {
        let delta = self.sweep_shadow >> self.sweep_shift;
        let freq = if self.sweep_negate {
            (self.sweep_shadow - delta) as u16
        } else {
            (delta + self.sweep_shadow) as u16
        };
        (if freq > 2047 {
            PulseChannel { enabled: false, ..self }
        } else {
            self
        }, freq)
    }

    pub open spec fn write(self, address: u16, value: u8) -> PulseChannel {
        let r = pulse_register(address);
        if r == 0 {
            PulseChannel {
                sweep_shift: value & 0x07,
                sweep_negate: value & (1u8 << 3u8) != 0,
                sweep_period_load: (value >> 4u8) & 0x07,
                ..self
            }
        } else if r == 1 {
            PulseChannel { length_load: value & 0x3F, duty: (value >> 6u8) & 0x3, ..self }
        } else if r == 2 {
            PulseChannel {
                dac_enabled: (value & 0xF8) != 0,
                volume_load: (value >> 4u8) & 0x0F,
                envelope_add_mode: value & (1u8 << 3u8) != 0,
                envelope_period_load: value & 0x7,
                envelope_period: value & 0x7,
                volume: (value >> 4u8) & 0x0F,
                ..self
            }
        } else if r == 3 {
            PulseChannel { timer_load: (self.timer_load & 0x700) | value as u16, ..self }
        } else {
            let c = PulseChannel {
                timer_load: (self.timer_load & 0xFF) | (((value as u16) & 0x7) << 8u16),
                length_enable: value & (1u8 << 6u8) != 0,
                trigger_bit: value & (1u8 << 7u8) != 0,
                ..self
            };
            if value & (1u8 << 7u8) != 0 {
                c.triggered()
            } else {
                c
            }
        }
    }

    pub fn write_byte(&mut self, address: u16, value: u8)
        requires
            old(self).wf(),
        ensures
            *final(self) == old(self).write(address, value),
            final(self).wf(),
    {
        proof {
            lemma_timer_load_bits(self.timer_load, value);
        }
        let reg = (address % 0xF) % 0x5;
        if reg == 0 {
            self.sweep_shift = value & 0x07;
            self.sweep_negate = is_set(value, 3);
            self.sweep_period_load = (value >> 4u8) & 0x07;
        } else if reg == 1 {
            self.length_load = value & 0x3F;
            self.duty = (value >> 6u8) & 0x3;
        } else if reg == 2 {
            self.dac_enabled = (value & 0xF8) != 0;
            self.volume_load = (value >> 4u8) & 0x0F;
            self.envelope_add_mode = is_set(value, 3);
            self.envelope_period_load = value & 0x7;
            self.envelope_period = self.envelope_period_load;
            self.volume = self.volume_load;
        } else if reg == 3 {
            self.timer_load = (self.timer_load & 0x700) | value as u16;
        } else {
            self.timer_load = (self.timer_load & 0xFF) | ((value as u16 & 0x7) << 8u16);
            self.length_enable = is_set(value, 6);
            self.trigger_bit = is_set(value, 7);
            if is_set(value, 7) {
                self.trigger();
            }
        }
    }

    fn trigger(&mut self)
        requires
            old(self).wf(),
        ensures
            *final(self) == old(self).triggered(),
            final(self).wf(),
    {
        self.enabled = true;
        if self.length_counter == 0 {
            self.length_counter = 64;
        }
        self.timer = (2048 - self.timer_load as i32) * 4;
        self.envelope_running = true;
        self.envelope_period = self.envelope_period_load;
        self.volume = self.volume_load;
        self.sweep_shadow = self.timer_load;
        self.sweep_period = self.sweep_period_load as i32;
        if self.sweep_period == 0 {
            self.sweep_period = 8;
        }
        self.sweep_enable = self.sweep_period > 0 || self.sweep_shift > 0;
        if self.sweep_shift > 0 {
            let _ = self.sweep_calculation();
        }
    }

    fn sweep_calculation(&mut self) -> (r: u16)
        requires
            old(self).wf(),
        ensures
            (*final(self), r) == old(self).sweep_checked(),
            final(self).wf(),
    {
        proof {
            lemma_shift_le(self.sweep_shadow, self.sweep_shift as u16);
        }
        let mut new_freq = self.sweep_shadow >> (self.sweep_shift as u16);
        if self.sweep_negate {
            new_freq = self.sweep_shadow - new_freq;
        } else {
            new_freq += self.sweep_shadow;
        }
        if new_freq > 2047 {
            self.enabled = false;
        }
        new_freq
    }

    /// The length counter has not run out.
    pub fn get_status(&self) -> (r: bool)
        ensures
            r == (self.length_counter > 0),
    {
        self.length_counter > 0
    }

    pub fn get_output_vol(&self) -> (r: u8)
        ensures
            r == self.output_vol,
    {
        self.output_vol
    }
}

/// A right shift never makes a value larger.
pub proof fn lemma_shift_le(x: u16, s: u16)
    by (bit_vector)
    ensures
        x >> s <= x,
{
}

} // verus!
