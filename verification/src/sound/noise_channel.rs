use vstd::prelude::*;
use crate::bit_utils::is_set;

verus! {

/// The noise channel: a 15-bit linear-feedback shift register clocked by a divisor,
/// a length counter and a volume envelope.
#[derive(Clone, Copy, PartialEq, Eq, Structural)]
pub struct NoiseChannel {
    pub length_load: u8,
    pub volume: u8,
    pub volume_load: u8,
    pub envelope_add_mode: bool,
    pub envelope_period: i32,
    pub envelope_period_load: u8,
    pub length_counter: u8,
    pub divisor_code: u8,
    pub width_mode: bool,
    pub clock_shift: u8,
    pub length_enable: bool,
    pub trigger_bit: bool,
    pub dac_enabled: bool,
    pub enabled: bool,
    pub timer: i32,
    pub envelope_running: bool,
    pub lfsr: u16,
    pub output_vol: u8,
}

/// The timer reload of each divisor code.
pub open spec fn divisor(code: u8) -> i32 {
    if code == 0 {
        8
    } else {
        (code as i32 * 16) as i32
    }
}

fn divisor_of(code: u8) -> (r: i32)
    requires
        code <= 7,
    ensures
        r == divisor(code),
{
    if code == 0 {
        8
    } else {
        code as i32 * 16
    }
}

/// Bounds of the register fields of the noise channel and of its shifted divisor.
pub proof fn lemma_noise_bits(v: u8, d: i32, s: u8, lfsr: u16)
    by (bit_vector)
    requires
        8 <= d <= 112,
        s <= 15,
    ensures
        v & 0x07 <= 7,
        v & 0x3F <= 0x3F,
        (v >> 4u8) & 0x0F <= 15,
        8 <= d << (s as i32) <= 112 * 0x8000,
        (lfsr & 0x1) ^ ((lfsr >> 1u16) & 0x1) <= 1,
{
}

impl NoiseChannel {
    /// The fields hold what their registers can hold, and the counters lie in the ranges
    /// they are reloaded to.
    pub open spec fn wf(self) -> bool {
        &&& self.divisor_code <= 7
        &&& self.clock_shift <= 15
        &&& self.volume <= 15
        &&& self.volume_load <= 15
        &&& self.envelope_period_load <= 7
        &&& 0 <= self.envelope_period <= 8
        &&& 0 <= self.timer <= 112 * 0x8000
    }

    pub open spec fn initial() -> NoiseChannel {
        NoiseChannel {
            length_load: 0,
            volume: 0,
            volume_load: 0,
            envelope_add_mode: false,
            envelope_period: 0,
            envelope_period_load: 0,
            length_counter: 0,
            divisor_code: 0,
            width_mode: false,
            clock_shift: 0,
            length_enable: false,
            trigger_bit: false,
            dac_enabled: false,
            enabled: false,
            timer: 0,
            envelope_running: false,
            lfsr: 0,
            output_vol: 0,
        }
    }

    pub fn new() -> (r: NoiseChannel)
        ensures
            r == NoiseChannel::initial(),
            r.wf(),
    {
        NoiseChannel {
            length_load: 0,
            volume: 0,
            volume_load: 0,
            envelope_add_mode: false,
            envelope_period: 0,
            envelope_period_load: 0,
            length_counter: 0,
            divisor_code: 0,
            width_mode: false,
            clock_shift: 0,
            length_enable: false,
            trigger_bit: false,
            dac_enabled: false,
            enabled: false,
            timer: 0,
            envelope_running: false,
            lfsr: 0,
            output_vol: 0,
        }
    }

    /// One clock: when the timer runs out it is reloaded and the shift register shifts
    /// right, feeding back the exclusive or of its two low bits into bit 14 (and into
    /// bit 6 as well in 7-bit mode); the output is the volume while the channel and its
    /// DAC are on and bit 0 is clear, and silence otherwise.
    pub open spec fn stepped(self) -> NoiseChannel {
        let t = self.timer - 1;
        if t <= 0 {
            let result = (self.lfsr & 0x1) ^ ((self.lfsr >> 1u16) & 0x1);
            let l0 = (self.lfsr >> 1u16) | (result << 14u16);
            let l1 = if self.width_mode {
                (l0 & !0x40u16) | (result << 6u16)
            } else {
                l0
            };
            NoiseChannel {
                timer: divisor(self.divisor_code) << (self.clock_shift as i32),
                lfsr: l1,
                output_vol: if self.enabled && self.dac_enabled && (l1 & 0x1) == 0 {
                    self.volume
                } else {
                    0
                },
                ..self
            }
        } else {
            NoiseChannel { timer: t as i32, ..self }
        }
    }

    pub fn step(&mut self)
        requires
            old(self).wf(),
        ensures
            *final(self) == old(self).stepped(),
            final(self).wf(),
    {
        self.timer -= 1;
        if self.timer <= 0 {
            let d = divisor_of(self.divisor_code);
            proof {
                lemma_noise_bits(0, d, self.clock_shift, self.lfsr);
            }
            self.timer = d << (self.clock_shift as i32);
            let result = (self.lfsr & 0x1) ^ ((self.lfsr >> 1u16) & 0x1);
            self.lfsr >>= 1u16;
            self.lfsr |= result << 14u16;
            if self.width_mode {
                self.lfsr &= !0x40u16;
                self.lfsr |= result << 6u16;
            }
            if self.enabled && self.dac_enabled && (self.lfsr & 0x1) == 0 {
                self.output_vol = self.volume;
            } else {
                self.output_vol = 0;
            }
        }
    }

    pub open spec fn length_clicked(self) -> NoiseChannel {
        if self.length_counter > 0 && self.length_enable {
            let n = (self.length_counter - 1) as u8;
            NoiseChannel { length_counter: n, enabled: if n == 0 { false } else { self.enabled }, ..self }
        } else {
            self
        }
    }

    pub fn length_click(&mut self)
        ensures
            *final(self) == old(self).length_clicked(),
    {
        if self.length_counter > 0 && self.length_enable {
            self.length_counter -= 1;
            if self.length_counter == 0 {
                self.enabled = false;
            }
        }
    }

    /// One envelope clock: when the period runs out it is reloaded (a period of zero
    /// counts as eight) and, while the envelope runs, the volume steps up or down by one
    /// within 0..=15; reaching either end stops the envelope.
    pub open spec fn env_clicked(self) -> NoiseChannel {
        let p = self.envelope_period - 1;
        if p <= 0 {
            let p1: i32 = if self.envelope_period_load == 0 { 8 } else { self.envelope_period_load as i32 };
            let v = if self.envelope_running && self.envelope_period_load > 0 {
                if self.envelope_add_mode && self.volume < 15 {
                    (self.volume + 1) as u8
                } else if !self.envelope_add_mode && self.volume > 0 {
                    (self.volume - 1) as u8
                } else {
                    self.volume
                }
            } else {
                self.volume
            };
            NoiseChannel {
                envelope_period: p1,
                volume: v,
                envelope_running: if v == 0 || v == 15 { false } else { self.envelope_running },
                ..self
            }
        } else {
            NoiseChannel { envelope_period: p as i32, ..self }
        }
    }

    pub fn env_click(&mut self)
        requires
            old(self).wf(),
        ensures
            *final(self) == old(self).env_clicked(),
            final(self).wf(),
    {
        self.envelope_period -= 1;
        if self.envelope_period <= 0 {
            self.envelope_period = self.envelope_period_load as i32;
            if self.envelope_period == 0 {
                self.envelope_period = 8;
            }
            if self.envelope_running && self.envelope_period_load > 0 {
                if self.envelope_add_mode && self.volume < 15 {
                    self.volume += 1;
                } else if !self.envelope_add_mode && self.volume > 0 {
                    self.volume -= 1;
                }
            }
            if self.volume == 0 || self.volume == 15 {
                self.envelope_running = false;
            }
        }
    }

    /// Reads one of the registers 0xFF1F..=0xFF23.
    pub open spec fn read(self, address: u16) -> u8 {
        if address == 0xFF1F {
            0
        } else if address == 0xFF20 {
            self.length_load & 0x3F
        } else if address == 0xFF21 {
            (self.envelope_period_load & 0x07) | ((if self.envelope_add_mode { 1u8 } else { 0u8 }) << 3u8) | ((
            self.volume_load & 0x0F) << 4u8)
        } else if address == 0xFF22 {
            self.divisor_code | ((if self.width_mode { 1u8 } else { 0u8 }) << 3u8) | (self.clock_shift << 4u8)
        } else {
            ((if self.length_enable { 1u8 } else { 0u8 }) << 6u8) | ((if self.trigger_bit { 1u8 } else { 0u8 }) << 7u8)
        }
    }

    pub fn read_byte(&self, address: u16) -> (r: u8)
        requires
            0xFF1F <= address <= 0xFF23,
        ensures
            r == self.read(address),
    {
        if address == 0xFF1F {
            0
        } else if address == 0xFF20 {
            self.length_load & 0x3F
        } else if address == 0xFF21 {
            let envelope_add_mode: u8 = if self.envelope_add_mode { 1 } else { 0 };
            (self.envelope_period_load & 0x07) | (envelope_add_mode << 3u8) | ((self.volume_load & 0x0F) << 4u8)
        } else if address == 0xFF22 {
            let width_mode: u8 = if self.width_mode { 1 } else { 0 };
            self.divisor_code | (width_mode << 3u8) | (self.clock_shift << 4u8)
        } else {
            let length_enable: u8 = if self.length_enable { 1 } else { 0 };
            let trigger_bit: u8 = if self.trigger_bit { 1 } else { 0 };
            (length_enable << 6u8) | (trigger_bit << 7u8)
        }
    }

    /// The channel restarted: enabled, length counter reloaded when it ran out, timer,
    /// envelope and volume reloaded, and the shift register filled with ones.
    pub open spec fn triggered(self) -> NoiseChannel {
        NoiseChannel {
            enabled: true,
            length_counter: if self.length_counter == 0 { 64u8 } else { self.length_counter },
            timer: divisor(self.divisor_code) << (self.clock_shift as i32),
            envelope_period: self.envelope_period_load as i32,
            envelope_running: true,
            volume: self.volume_load,
            lfsr: 0x7FFF,
            ..self
        }
    }

    /// Writes one of the registers 0xFF1F..=0xFF23.
    pub open spec fn write(self, address: u16, value: u8) -> NoiseChannel {
        if address == 0xFF1F {
            self
        } else if address == 0xFF20 {
            NoiseChannel { length_load: value & 0x3F, ..self }
        } else if address == 0xFF21 {
            NoiseChannel {
                dac_enabled: (value & 0xF8) != 0,
                volume_load: (value >> 4u8) & 0x0F,
                envelope_add_mode: value & (1u8 << 3u8) != 0,
                envelope_period_load: value & 0x07,
                ..self
            }
        } else if address == 0xFF22 {
            NoiseChannel {
                divisor_code: value & 0x07,
                width_mode: value & (1u8 << 3u8) != 0,
                clock_shift: (value >> 4u8) & 0x0F,
                ..self
            }
        } else {
            let c = NoiseChannel {
                length_enable: value & (1u8 << 6u8) != 0,
                trigger_bit: value & (1u8 << 7u8) != 0,
                ..self
            };
            if value & (1u8 << 7u8) != 0 {
                c.triggered()
            } else {
                c
            }
        }
    }

    pub fn write_byte(&mut self, address: u16, value: u8)
        requires
            old(self).wf(),
            0xFF1F <= address <= 0xFF23,
        ensures
            *final(self) == old(self).write(address, value),
            final(self).wf(),
    {
        proof {
            lemma_noise_bits(value, 8, 0, 0);
        }
        if address == 0xFF1F {
        } else if address == 0xFF20 {
            self.length_load = value & 0x3F;
        } else if address == 0xFF21 {
            self.dac_enabled = (value & 0xF8) != 0;
            self.volume_load = (value >> 4u8) & 0x0F;
            self.envelope_add_mode = is_set(value, 3);
            self.envelope_period_load = value & 0x07;
        } else if address == 0xFF22 {
            self.divisor_code = value & 0x07;
            self.width_mode = is_set(value, 3);
            self.clock_shift = (value >> 4u8) & 0x0F;
        } else {
            self.length_enable = is_set(value, 6);
            self.trigger_bit = is_set(value, 7);
            if self.trigger_bit {
                self.trigger();
            }
        }
    }

    fn trigger(&mut self)
        requires
            old(self).wf(),
        ensures
            *final(self) == old(self).triggered(),
            final(self).wf(),
    {
        self.enabled = true;
        if self.length_counter == 0 {
            self.length_counter = 64;
        }
        let d = divisor_of(self.divisor_code);
        proof {
            lemma_noise_bits(0, d, self.clock_shift, 0);
        }
        self.timer = d << (self.clock_shift as i32);
        self.envelope_period = self.envelope_period_load as i32;
        self.envelope_running = true;
        self.volume = self.volume_load;
        self.lfsr = 0x7FFF;
    }

    /// The length counter has not run out.
    pub fn get_status(&self) -> (r: bool)
        ensures
            r == (self.length_counter > 0),
    {
        self.length_counter > 0
    }

    pub fn reset_length_counter(&mut self)
        ensures
            *final(self) == (NoiseChannel { length_counter: 0, ..*old(self) }),
    {
        self.length_counter = 0;
    }

    pub fn get_output_vol(&self) -> (r: u8)
        ensures
            r == self.output_vol,
    {
        self.output_vol
    }
}

} // verus!
