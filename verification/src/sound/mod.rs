use vstd::prelude::*;
use crate::bit_utils::is_set;

pub mod noise_channel;
pub mod pulse_channel;
pub mod wave_channel;

use self::noise_channel::NoiseChannel;
use self::pulse_channel::PulseChannel;
use self::wave_channel::{WaveChannel, WaveView, wave_address};

verus! {

/// Samples per audio buffer (left and right interleaved).
pub const SAMPLE_SIZE: usize = 4096;

/// The audio unit: four channels, the master volume and panning registers, the frame
/// sequencer that clocks the channels' length, sweep and envelope units, and the
/// down-sampler that counts samples into the audio buffer.
pub struct Sound {
    wave_channel: WaveChannel,
    pulse_channel_1: PulseChannel,
    pulse_channel_2: PulseChannel,
    noise_channel: NoiseChannel,
    vin_l_enable: bool,
    vin_l_volume: u8,
    vin_r_enable: bool,
    vin_r_volume: u8,
    left_enables: [bool; 4],
    right_enables: [bool; 4],
    power_control: bool,
    frame_sequence_count_down: i32,
    frame_sequencer: u8,
    down_sample_count: i32,
    buffer_fill_amount: usize,
}

pub struct SoundView {
    pub wave: WaveView,
    pub pulse1: PulseChannel,
    pub pulse2: PulseChannel,
    pub noise: NoiseChannel,
    pub vin_l_enable: bool,
    pub vin_l_volume: u8,
    pub vin_r_enable: bool,
    pub vin_r_volume: u8,
    pub left_enables: Seq<bool>,
    pub right_enables: Seq<bool>,
    pub power_control: bool,
    pub frame_sequence_count_down: i32,
    pub frame_sequencer: u8,
    pub down_sample_count: i32,
    pub buffer_fill_amount: usize,
}

impl View for Sound {
    type V = SoundView;

    closed spec fn view(&self) -> SoundView {
        SoundView {
            wave: self.wave_channel@,
            pulse1: self.pulse_channel_1,
            pulse2: self.pulse_channel_2,
            noise: self.noise_channel,
            vin_l_enable: self.vin_l_enable,
            vin_l_volume: self.vin_l_volume,
            vin_r_enable: self.vin_r_enable,
            vin_r_volume: self.vin_r_volume,
            left_enables: self.left_enables@,
            right_enables: self.right_enables@,
            power_control: self.power_control,
            frame_sequence_count_down: self.frame_sequence_count_down,
            frame_sequencer: self.frame_sequencer,
            down_sample_count: self.down_sample_count,
            buffer_fill_amount: self.buffer_fill_amount,
        }
    }
}

/// The bits that always read as one in each register 0xFF10..=0xFF26.
pub open spec fn read_or_mask(offset: int) -> u8 {
    if offset == 0 {
        0x80
    } else if offset == 1 || offset == 6 {
        0x3f
    } else if offset == 2 || offset == 7 || offset == 17 || offset == 18 || offset == 20 || offset
        == 21 {
        0x00
    } else if offset == 4 || offset == 9 || offset == 14 || offset == 19 {
        0xbf
    } else if offset == 10 {
        0x7f
    } else if offset == 12 {
        0x9f
    } else if offset == 22 {
        0x70
    } else {
        0xff
    }
}

fn read_or_mask_of(offset: u16) -> (r: u8)
    requires
        offset <= 22,
    ensures
        r == read_or_mask(offset as int),
{
    if offset == 0 {
        0x80
    } else if offset == 1 || offset == 6 {
        0x3f
    } else if offset == 2 || offset == 7 || offset == 17 || offset == 18 || offset == 20 || offset
        == 21 {
        0x00
    } else if offset == 4 || offset == 9 || offset == 14 || offset == 19 {
        0xbf
    } else if offset == 10 {
        0x7f
    } else if offset == 12 {
        0x9f
    } else if offset == 22 {
        0x70
    } else {
        0xff
    }
}

pub open spec fn b2u(b: bool) -> u8 {
    if b {
        1
    } else {
        0
    }
}

/// The addresses of the audio unit whose reads are answered: 0xFF10..=0xFF26.
pub open spec fn sound_readable(address: u16) -> bool {
    0xFF10 <= address <= 0xFF26
}

impl SoundView {
    pub open spec fn wf(self) -> bool {
        &&& self.wave.wf()
        &&& self.pulse1.wf()
        &&& self.pulse2.wf()
        &&& self.noise.wf()
        &&& self.left_enables.len() == 4
        &&& self.right_enables.len() == 4
        &&& 1 <= self.frame_sequence_count_down <= 8192
        &&& self.frame_sequencer <= 7
        &&& 1 <= self.down_sample_count <= 95
        &&& self.buffer_fill_amount < SAMPLE_SIZE
    }

    pub open spec fn initial() -> SoundView {
        SoundView {
            wave: WaveView::initial(),
            pulse1: PulseChannel::initial(),
            pulse2: PulseChannel::initial(),
            noise: NoiseChannel::initial(),
            vin_l_enable: false,
            vin_l_volume: 0,
            vin_r_enable: false,
            vin_r_volume: 0,
            left_enables: seq![false, false, false, false],
            right_enables: seq![false, false, false, false],
            power_control: false,
            frame_sequence_count_down: 8192,
            frame_sequencer: 0,
            down_sample_count: 95,
            buffer_fill_amount: 0,
        }
    }

    /// Reads a register 0xFF10..=0xFF26; the bits the register does not hold read as one.
    pub open spec fn read(self, address: u16) -> u8 {
        let value = if address <= 0xFF14 {
            self.pulse1.read(address)
        } else if address <= 0xFF19 {
            self.pulse2.read(address)
        } else if address <= 0xFF1E {
            self.wave.read(address)
        } else if address <= 0xFF23 {
            self.noise.read(address)
        } else if address == 0xFF24 {
            (b2u(self.vin_l_enable) << 7u8) | (self.vin_l_volume << 4u8) | (b2u(self.vin_r_enable) << 3u8)
                | self.vin_r_volume
        } else if address == 0xFF25 {
            b2u(self.right_enables[0]) | (b2u(self.right_enables[1]) << 1u8) | (b2u(self.right_enables[2]) << 2u8)
                | (b2u(self.right_enables[3]) << 3u8) | (b2u(self.left_enables[0]) << 4u8) | (b2u(
                self.left_enables[1],
            ) << 5u8) | (b2u(self.left_enables[2]) << 6u8) | (b2u(self.left_enables[3]) << 7u8)
        } else {
            (b2u(self.power_control) << 7u8) | b2u(self.pulse1.length_counter > 0) | (b2u(
                self.pulse2.length_counter > 0,
            ) << 1u8) | (b2u(self.wave.length_counter > 0) << 2u8) | (b2u(self.noise.length_counter > 0)
                << 3u8)
        };
        value | read_or_mask(address - 0xFF10)
    }

    /// A write to any register but the power register 0xFF26.
    pub open spec fn write_register(self, address: u16, value: u8) -> SoundView {
        if address <= 0xFF14 {
            SoundView { pulse1: self.pulse1.write(address, value), ..self }
        } else if address <= 0xFF19 {
            SoundView { pulse2: self.pulse2.write(address, value), ..self }
        } else if address <= 0xFF1E {
            SoundView { wave: self.wave.write(address, value), ..self }
        } else if address <= 0xFF23 {
            SoundView { noise: self.noise.write(address, value), ..self }
        } else if address == 0xFF24 {
            SoundView {
                vin_l_enable: value & (1u8 << 7u8) != 0,
                vin_l_volume: (value & 0b0111_0000) >> 4u8,
                vin_r_enable: value & (1u8 << 3u8) != 0,
                vin_r_volume: value & 0b111,
                ..self
            }
        } else if address == 0xFF25 {
            SoundView {
                left_enables: Seq::new(4, |i: int| value & (1u8 << (i as u8)) != 0),
                right_enables: Seq::new(4, |i: int| value & (1u8 << ((i + 4) as u8)) != 0),
                ..self
            }
        } else if 0xFF27 <= address <= 0xFF2F {
            self
        } else {
            SoundView { wave: self.wave.write(address, value), ..self }
        }
    }

    /// Zero written, in order, to every register from `from` up to 0xFF25.
    pub open spec fn cleared_from(self, from: int) -> SoundView
        decreases 0xFF26 - from,
    {
        if from > 0xFF25 || from < 0xFF10 {
            self
        } else {
            self.write_register(from as u16, 0).cleared_from(from + 1)
        }
    }

    /// `values[a - 0xFF00]` written, in order, to every register `a` from `from` up to
    /// 0xFF3F.
    pub open spec fn written_from(self, from: int, values: Seq<u8>) -> SoundView
        decreases 0xFF40 - from,
    {
        if from > 0xFF3F || from < 0xFF10 {
            self
        } else {
            self.write(from as u16, values[from - 0xFF00]).written_from(from + 1, values)
        }
    }

    /// A write to any register 0xFF10..=0xFF3F. Clearing bit 7 of 0xFF26 powers the
    /// unit off and zeroes every register up to 0xFF25; setting it while off powers the
    /// unit on and zeroes the wave RAM.
    pub open spec fn write(self, address: u16, value: u8) -> SoundView {
        if address == 0xFF26 {
            if value & (1u8 << 7u8) == 0 {
                SoundView { power_control: false, ..self.cleared_from(0xFF10) }
            } else if !self.power_control {
                SoundView {
                    wave: WaveView { wave_table: Seq::new(16, |i: int| 0u8), ..self.wave },
                    power_control: true,
                    ..self
                }
            } else {
                self
            }
        } else {
            self.write_register(address, value)
        }
    }

    /// One clock of the unit: the frame sequencer counts down from 8192 and, when it
    /// runs out, clocks the length counters on steps 0, 2, 4 and 6, the sweep on steps
    /// 2 and 6 and the envelopes on step 7 of its eight steps; every 95 clocks two
    /// samples are counted into the buffer.
    pub open spec fn tick(self) -> SoundView {
        let c = self.frame_sequence_count_down - 1;
        let fire = c == 0;
        let seq = self.frame_sequencer;
        let noise0 = if fire && (seq == 0 || seq == 4 || seq == 2 || seq == 6) {
            self.noise.length_clicked()
        } else if fire && seq == 7 {
            self.noise.env_clicked()
        } else {
            self.noise
        };
        let next_seq: u8 = if fire {
            if seq + 1 >= 8 {
                0
            } else {
                (seq + 1) as u8
            }
        } else {
            seq
        };
        let d = self.down_sample_count - 1;
        SoundView {
            noise: noise0.stepped(),
            frame_sequence_count_down: if fire { 8192 } else { c as i32 },
            frame_sequencer: next_seq,
            down_sample_count: if d <= 0 { 95 } else { d as i32 },
            buffer_fill_amount: if d <= 0 { (self.buffer_fill_amount + 2) as usize } else { self.buffer_fill_amount },
            ..self
        }
    }

    /// The unit after `cycles` clocks, and whether the audio buffer filled; the run
    /// stops at the clock that fills the buffer, which starts over empty.
    pub open spec fn run(self, cycles: nat) -> (SoundView, bool)
        decreases cycles,
    {
        if cycles == 0 {
            (self, false)
        } else {
            let t = self.tick();
            if t.buffer_fill_amount >= SAMPLE_SIZE {
                (SoundView { buffer_fill_amount: 0, ..t }, true)
            } else {
                t.run((cycles - 1) as nat)
            }
        }
    }
}

proof fn lemma_vin_bits(v: u8)
    by (bit_vector)
    ensures
        (v & 0b0111_0000) >> 4u8 <= 7,
        v & 0b111 <= 7,
{
}

impl Sound {
    pub fn new() -> (r: Sound)
        ensures
            r@ == SoundView::initial(),
            r@.wf(),
    {
        let r = Sound {
            wave_channel: WaveChannel::new(),
            pulse_channel_1: PulseChannel::new(),
            pulse_channel_2: PulseChannel::new(),
            noise_channel: NoiseChannel::new(),
            vin_l_enable: false,
            vin_l_volume: 0,
            vin_r_enable: false,
            vin_r_volume: 0,
            left_enables: [false; 4],
            right_enables: [false; 4],
            power_control: false,
            frame_sequence_count_down: 8192,
            frame_sequencer: 0,
            down_sample_count: 95,
            buffer_fill_amount: 0,
        };
        assert(r@.left_enables =~= seq![false, false, false, false]);
        assert(r@.right_enables =~= seq![false, false, false, false]);
        r
    }

    fn tick(&mut self)
        requires
            old(self)@.wf(),
        ensures
            final(self)@ == old(self)@.tick(),
            final(self)@.noise.wf(),
            final(self)@.pulse1.wf(),
            final(self)@.pulse2.wf(),
            final(self)@.wave.wf(),
            final(self)@.left_enables.len() == 4,
            final(self)@.right_enables.len() == 4,
            1 <= final(self)@.frame_sequence_count_down <= 8192,
            final(self)@.frame_sequencer <= 7,
            1 <= final(self)@.down_sample_count <= 95,
            final(self)@.buffer_fill_amount <= old(self)@.buffer_fill_amount + 2,
    {
        self.frame_sequence_count_down -= 1;
        if self.frame_sequence_count_down == 0 {
            self.frame_sequence_count_down = 8192;
            if self.frame_sequencer == 0 || self.frame_sequencer == 4 {
                self.pulse_channel_1.length_click();
                self.pulse_channel_2.length_click();
                self.wave_channel.length_click();
                self.noise_channel.length_click();
            } else if self.frame_sequencer == 2 || self.frame_sequencer == 6 {
                self.pulse_channel_1.sweep_click();
                self.pulse_channel_1.length_click();
                self.pulse_channel_2.length_click();
                self.wave_channel.length_click();
                self.noise_channel.length_click();
            } else if self.frame_sequencer == 7 {
                self.pulse_channel_1.env_click();
                self.pulse_channel_2.env_click();
                self.noise_channel.env_click();
            }
            self.frame_sequencer += 1;
            if self.frame_sequencer >= 8 {
                self.frame_sequencer = 0;
            }
        }
        self.pulse_channel_1.step();
        self.pulse_channel_2.step();
        self.wave_channel.step();
        self.noise_channel.step();

        self.down_sample_count -= 1;
        if self.down_sample_count <= 0 {
            self.down_sample_count = 95;
            self.buffer_fill_amount += 2;
        }
    }

    /// Runs the unit for `cycles` clocks; returns whether the audio buffer filled up,
    /// in which case the run stops at that clock (see `SoundView::run`).
    pub fn step(&mut self, cycles: i32) -> (r: bool)
        requires
            old(self)@.wf(),
            cycles >= 0,
        ensures
            (final(self)@, r) == old(self)@.run(cycles as nat),
            final(self)@.wf(),
    {
        let mut remaining = cycles;
        while remaining != 0
            invariant
                self@.wf(),
                remaining >= 0,
                self@.run(remaining as nat) == old(self)@.run(cycles as nat),
            decreases remaining,
        {
            remaining -= 1;
            let ghost before = self@;
            self.tick();
            if self.buffer_fill_amount >= SAMPLE_SIZE {
                self.buffer_fill_amount = 0;
                assert(before.run((remaining + 1) as nat) == (self@, true));
                return true;
            }
            assert(before.run((remaining + 1) as nat) == self@.run(remaining as nat));
        }
        false
    }

    pub fn read_byte(&self, address: u16) -> (r: u8)
        requires
            self@.wf(),
            sound_readable(address),
        ensures
            r == self@.read(address),
    {
        let value = if address <= 0xFF14 {
            self.pulse_channel_1.read_byte(address)
        } else if address <= 0xFF19 {
            self.pulse_channel_2.read_byte(address)
        } else if address <= 0xFF1E {
            self.wave_channel.read_byte(address)
        } else if address <= 0xFF23 {
            self.noise_channel.read_byte(address)
        } else if address == 0xFF24 {
            let vin_l_enable: u8 = if self.vin_l_enable { 1 } else { 0 };
            let vin_r_enable: u8 = if self.vin_r_enable { 1 } else { 0 };
            (vin_l_enable << 7u8) | (self.vin_l_volume << 4u8) | (vin_r_enable << 3u8) | self.vin_r_volume
        } else if address == 0xFF25 {
            let r0: u8 = if self.right_enables[0] { 1 } else { 0 };
            let r1: u8 = if self.right_enables[1] { 1 } else { 0 };
            let r2: u8 = if self.right_enables[2] { 1 } else { 0 };
            let r3: u8 = if self.right_enables[3] { 1 } else { 0 };
            let l0: u8 = if self.left_enables[0] { 1 } else { 0 };
            let l1: u8 = if self.left_enables[1] { 1 } else { 0 };
            let l2: u8 = if self.left_enables[2] { 1 } else { 0 };
            let l3: u8 = if self.left_enables[3] { 1 } else { 0 };
            r0 | (r1 << 1u8) | (r2 << 2u8) | (r3 << 3u8) | (l0 << 4u8) | (l1 << 5u8) | (l2 << 6u8) | (l3 << 7u8)
        } else {
            let power: u8 = if self.power_control { 1 } else { 0 };
            let s1: u8 = if self.pulse_channel_1.get_status() { 1 } else { 0 };
            let s2: u8 = if self.pulse_channel_2.get_status() { 1 } else { 0 };
            let s3: u8 = if self.wave_channel.get_status() { 1 } else { 0 };
            let s4: u8 = if self.noise_channel.get_status() { 1 } else { 0 };
            (power << 7u8) | s1 | (s2 << 1u8) | (s3 << 2u8) | (s4 << 3u8)
        };
        value | read_or_mask_of(address - 0xFF10)
    }

    fn write_register(&mut self, address: u16, value: u8)
        requires
            old(self)@.wf(),
            0xFF10 <= address <= 0xFF3F,
            address != 0xFF26,
        ensures
            final(self)@ == old(self)@.write_register(address, value),
            final(self)@.wf(),
    {
        if address <= 0xFF14 {
            self.pulse_channel_1.write_byte(address, value);
        } else if address <= 0xFF19 {
            self.pulse_channel_2.write_byte(address, value);
        } else if address <= 0xFF1E {
            self.wave_channel.write_byte(address, value);
        } else if address <= 0xFF23 {
            self.noise_channel.write_byte(address, value);
        } else if address == 0xFF24 {
            proof {
                lemma_vin_bits(value);
            }
            self.vin_l_enable = is_set(value, 7);
            self.vin_l_volume = (value & 0b0111_0000) >> 4u8;
            self.vin_r_enable = is_set(value, 3);
            self.vin_r_volume = value & 0b111;
        } else if address == 0xFF25 {
            let mut i: usize = 0;
            while i < 4
                invariant
                    i <= 4,
                    self@.wf(),
                    self@ == (SoundView { left_enables: self@.left_enables, right_enables: self@.right_enables, ..old(self)@ }),
                    forall|k: int| 0 <= k < i ==> self@.left_enables[k] == (value & (1u8 << (k as u8)) != 0),
                    forall|k: int| 0 <= k < i ==> self@.right_enables[k] == (value & (1u8 << ((k + 4) as u8)) != 0),
                decreases 4 - i,
            {
                let l = is_set(value, i as u8);
                let r = is_set(value, i as u8 + 4);
                self.left_enables[i] = l;
                self.right_enables[i] = r;
                i += 1;
            }
            assert(self@.left_enables =~= Seq::new(4, |i: int| value & (1u8 << (i as u8)) != 0));
            assert(self@.right_enables =~= Seq::new(4, |i: int| value & (1u8 << ((i + 4) as u8)) != 0));
        } else if address <= 0xFF2F {
        } else {
            self.wave_channel.write_byte(address, value);
        }
    }

    /// Writes a register 0xFF10..=0xFF3F (see `SoundView::write`).
    pub fn write_byte(&mut self, address: u16, value: u8)
        requires
            old(self)@.wf(),
            0xFF10 <= address <= 0xFF3F,
        ensures
            final(self)@ == old(self)@.write(address, value),
            final(self)@.wf(),
    {
        if address == 0xFF26 {
            if !is_set(value, 7) {
                let mut i: u16 = 0xFF10;
                while i <= 0xFF25
                    invariant
                        0xFF10 <= i <= 0xFF26,
                        self@.wf(),
                        self@.cleared_from(i as int) == old(self)@.cleared_from(0xFF10),
                    decreases 0xFF26 - i,
                {
                    self.write_register(i, 0);
                    i += 1;
                }
                self.power_control = false;
            } else if !self.power_control {
                let mut i: u16 = 0xFF30;
                while i <= 0xFF3F
                    invariant
                        0xFF30 <= i <= 0xFF40,
                        self@.wf(),
                        self@ == (SoundView { wave: self@.wave, ..old(self)@ }),
                        self@.wave == (WaveView { wave_table: self@.wave.wave_table, ..old(self)@.wave }),
                        forall|k: int| 0 <= k < i - 0xFF30 ==> self@.wave.wave_table[k] == 0,
                    decreases 0xFF40 - i,
                {
                    self.wave_channel.write_byte(i, 0);
                    i += 1;
                }
                assert(self@.wave.wave_table =~= Seq::new(16, |i: int| 0u8));
                self.power_control = true;
            }
        } else {
            self.write_register(address, value);
        }
    }
}

} // verus!
