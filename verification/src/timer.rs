use vstd::prelude::*;
use crate::mmu::interrupt::Interrupt;
use crate::mmu::memory::{
    Memory, MemoryView, DIVIDER_INDEX, SELECTABLE_TIMER_INDEX, TIMER_CONTROL_INDEX, TIMER_RESET_INDEX,
};

verus! {

/// The divider and the programmable timer; their state lives in memory.
pub struct Timer {}

/// The cycles per increment of TIMA for the clock select bits of TAC.
pub open spec fn timer_frequency(tac: u8) -> int {
    let select = tac % 4;
    if select == 0 {
        1024
    } else if select == 1 {
        16
    } else if select == 2 {
        64
    } else {
        256
    }
}

/// Bit 2 of TAC starts the timer.
pub open spec fn timer_enabled(tac: u8) -> bool {
    (tac / 4) % 2 == 1
}

/// `m` after `k` increments of TIMA: each one past 0xFF reloads it from TMA and
/// requests the timer interrupt.
pub open spec fn tima_ticked(m: MemoryView, k: nat) -> MemoryView
    decreases k,
{
    if k == 0 {
        m
    } else {
        let m1 = tima_ticked(m, (k - 1) as nat);
        let tima = m1.load(0xFF05);
        if tima == 0xFF {
            m1.interrupt_requested(2).stored(0xFF05, m1.load(0xFF06))
        } else {
            m1.stored(0xFF05, (tima + 1) as u8)
        }
    }
}

/// `m` after the timer has run `cycles` cycles: DIV counts every 256 cycles and,
/// while enabled, TIMA counts at the frequency that TAC selects; the cycles left
/// over are kept for the next update.
pub open spec fn timer_updated(m: MemoryView, cycles: int) -> MemoryView {
    let d = m.div_cycles + cycles;
    let m1 = MemoryView { div_cycles: (d % 256) as i32, ..m.stored(0xFF04, ((m.load(0xFF04) + d / 256) % 256) as u8) };
    let tac = m1.load(0xFF07);
    if timer_enabled(tac) {
        let freq = timer_frequency(tac);
        let t = m1.tima_cycles + cycles;
        tima_ticked(MemoryView { tima_cycles: (t % freq) as i32, ..m1 }, (t / freq) as nat)
    } else {
        m1
    }
}

proof fn lemma_tima_ticked_cycles(m: MemoryView, k: nat, c: i32)
    ensures
        tima_ticked(MemoryView { tima_cycles: c, ..m }, k) == (MemoryView { tima_cycles: c, ..tima_ticked(m, k) }),
        tima_ticked(m, k).tima_cycles == m.tima_cycles,
        m.wf() ==> tima_ticked(m, k).wf(),
    decreases k,
{
    if k > 0 {
        lemma_tima_ticked_cycles(m, (k - 1) as nat, c);
    }
}

proof fn lemma_quotient(t: int, r: int, i: int, freq: int)
    by (nonlinear_arith)
    requires
        t == r + i * freq,
        0 <= r < freq,
        freq > 0,
        i >= 0,
    ensures
        i == t / freq,
        r == t % freq,
{
}

proof fn lemma_tima_ticked_div(m: MemoryView, k: nat)
    requires
        m.wf(),
    ensures
        tima_ticked(m, k).load(0xFF04) == m.load(0xFF04),
        tima_ticked(m, k).div_cycles == m.div_cycles,
        tima_ticked(m, k).wf(),
    decreases k,
{
    if k > 0 {
        lemma_tima_ticked_div(m, (k - 1) as nat);
    }
}

/// The divider counts once every 256 cycles: however the cycles are split, 256 of
/// them add one to DIV (wrapping).
pub proof fn lemma_divider_rate(m: MemoryView)
    requires
        m.wf(),
    ensures
        timer_updated(m, 256).load(0xFF04) == (m.load(0xFF04) + 1) % 256,
        timer_updated(m, 256).div_cycles == m.div_cycles,
{
    let d = m.div_cycles + 256;
    assert(d / 256 == 1 && d % 256 == m.div_cycles);
    let m1 = MemoryView { div_cycles: (d % 256) as i32, ..m.stored(0xFF04, ((m.load(0xFF04) + d / 256) % 256) as u8) };
    let tac = m1.load(0xFF07);
    if timer_enabled(tac) {
        let freq = timer_frequency(tac);
        let t = m1.tima_cycles + 256;
        lemma_tima_ticked_div(MemoryView { tima_cycles: (t % freq) as i32, ..m1 }, (t / freq) as nat);
        lemma_tima_ticked_cycles(MemoryView { tima_cycles: (t % freq) as i32, ..m1 }, (t / freq) as nat, 0);
    }
}

/// The programmable timer counts at the rate its clock select picks (TAC bits 0-1):
/// 4096 Hz, 262144 Hz, 65536 Hz and 16384 Hz of the 4194304 Hz clock, that is once
/// every 1024, 16, 64 and 256 cycles. From a fresh period, one cycle short of it
/// leaves TIMA alone and the full period adds one.
pub proof fn lemma_timer_periods(m: MemoryView)
    requires
        m.wf(),
        m.load(0xFF07) & 0x04 != 0,
        m.tima_cycles == 0,
        m.load(0xFF05) < 0xFF,
    ensures
        ({
            let select = m.load(0xFF07) & 0x03;
            let period = if select == 0 {
                1024int
            } else if select == 1 {
                16int
            } else if select == 2 {
                64int
            } else {
                256int
            };
            &&& 4194304int / period == (if select == 0 {
                4096int
            } else if select == 1 {
                262144int
            } else if select == 2 {
                65536int
            } else {
                16384int
            })
            &&& timer_updated(m, period - 1).load(0xFF05) == m.load(0xFF05)
            &&& timer_updated(m, period).load(0xFF05) == m.load(0xFF05) + 1
        }),
{
    let tac = m.load(0xFF07);
    assert((tac & 0x04 != 0) == ((tac / 4) % 2 == 1) && (tac & 0x03) == tac % 4) by (bit_vector);
    reveal_with_fuel(tima_ticked, 2);
}

impl Timer {
    pub fn new() -> (r: Timer) {
        Timer {  }
    }

    /// Runs the divider and the timer for `cycles` cycles.
    pub fn update(&mut self, cycles: i32, memory: &mut Memory)
        requires
            old(memory)@.wf(),
            0 <= cycles <= i32::MAX - 1024,
        ensures
            final(memory)@ == timer_updated(old(memory)@, cycles as int),
            final(memory)@.wf(),
    {
        let ghost m0 = memory@;
        let mut div_cycles = memory.div_cycles() + cycles;
        let ghost d = div_cycles as int;
        let ghost mut ticks: int = 0;
        while div_cycles >= 256
            invariant
                memory@.wf(),
                m0.wf(),
                memory@ == m0.stored(0xFF04, ((m0.load(0xFF04) + ticks) % 256) as u8),
                d == div_cycles + ticks * 256,
                0 <= ticks,
                0 <= div_cycles,
            decreases div_cycles,
        {
            div_cycles -= 256;
            let mut div = memory.load(DIVIDER_INDEX);
            let ghost x = m0.load(0xFF04) + ticks;
            assert(div == (x % 256) as u8);
            div = div.wrapping_add(1);
            proof {
                vstd::arithmetic::div_mod::lemma_add_mod_noop(x, 1, 256);
                assert(div == ((x + 1) % 256) as u8);
            }
            memory.store(DIVIDER_INDEX, div);
            proof {
                ticks = ticks + 1;
                assert(memory@.high_ram =~= m0.stored(0xFF04, ((m0.load(0xFF04) + ticks) % 256) as u8).high_ram);
            }
        }
        proof {
            lemma_quotient(d, div_cycles as int, ticks, 256);
        }
        memory.set_div_cycles(div_cycles);
        let ghost m1 = memory@;
        assert(m1 == MemoryView {
            div_cycles: (d % 256) as i32,
            ..m0.stored(0xFF04, ((m0.load(0xFF04) + d / 256) % 256) as u8)
        });
        let tac = memory.load(TIMER_CONTROL_INDEX);
        if (tac / 4) % 2 == 1 {
            let freq: i32 = if tac % 4 == 0 {
                1024
            } else if tac % 4 == 1 {
                16
            } else if tac % 4 == 2 {
                64
            } else {
                256
            };
            let mut tima_cycles = memory.tima_cycles() + cycles;
            let ghost t = tima_cycles as int;
            let ghost mut k: nat = 0;
            while tima_cycles >= freq
                invariant
                    memory@.wf(),
                    memory@ == tima_ticked(m1, k),
                    t == tima_cycles + k * freq,
                    0 <= tima_cycles,
                    freq == timer_frequency(tac),
                    16 <= freq <= 1024,
                    m1.wf(),
                decreases tima_cycles,
            {
                tima_cycles -= freq;
                let mut tima = memory.load(SELECTABLE_TIMER_INDEX);
                if tima == 0xFF {
                    tima = memory.load(TIMER_RESET_INDEX);
                    memory.request_interrupt(Interrupt::Timer);
                } else {
                    tima += 1;
                }
                memory.store(SELECTABLE_TIMER_INDEX, tima);
                proof {
                    k = k + 1;
                }
            }
            proof {
                lemma_quotient(t, tima_cycles as int, k as int, freq as int);
                lemma_tima_ticked_cycles(m1, k, tima_cycles);
            }
            memory.set_tima_cycles(tima_cycles);
        }
    }
}

} // verus!
