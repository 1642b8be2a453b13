//! The timer subsystem: the free-running divider whose high byte is DIV,
//! the TIMA counter with its TMA reload value, and the TAC control
//! register (bit 2 enable, bits 0-1 clock select).

use vstd::prelude::*;

verus! {

/// Timer state. `div_counter` is the internal 16-bit divider; DIV reads
/// its high byte. `tima_counter` accumulates T-cycles toward the next
/// TIMA increment.
#[derive(Clone, Copy, Debug, PartialEq, Eq, Structural)]
pub struct Timer {
    /// Internal 16-bit divider; DIV is its upper 8 bits.
    pub div_counter: u16,
    /// TIMA, the timer counter.
    pub tima: u8,
    /// TMA, the value reloaded into TIMA on overflow.
    pub tma: u8,
    /// TAC: bit 2 enable, bits 0-1 clock select.
    pub tac: u8,
    /// T-cycles accumulated toward the next TIMA increment.
    pub tima_counter: u32,
    /// Latched when TIMA overflows; cleared by the interconnect.
    pub interrupt_requested: bool,
}

/// T-cycles per TIMA increment for each TAC clock select.
pub open spec fn spec_threshold(tac: u8) -> u32 {
    match tac & 0x03 {
        0u8 => 1024u32,
        1u8 => 16u32,
        2u8 => 64u32,
        _ => 256u32,
    }
}

/// A timer whose accumulator has not yet reached the increment threshold;
/// every operation keeps this.
pub open spec fn timer_wf(t: Timer) -> bool {
    t.tima_counter < spec_threshold(t.tac)
}

/// TIMA stepping: while the accumulator holds a full threshold, pay one
/// threshold for one TIMA increment; an overflow reloads TMA and latches
/// the interrupt.
pub open spec fn spec_tima_loop(tima: u8, tma: u8, acc: int, threshold: int, irq: bool) -> (
    u8,
    int,
    bool,
)
    recommends
        threshold >= 16,
    decreases acc when threshold >= 16 && acc >= 0
{
    if acc >= threshold {
        if tima == 0xFF {
            spec_tima_loop(tma, tma, acc - threshold, threshold, true)
        } else {
            spec_tima_loop((tima + 1) as u8, tma, acc - threshold, threshold, irq)
        }
    } else {
        (tima, acc, irq)
    }
}

/// The whole timer after `cycles` T-cycles: the divider always advances;
/// TIMA advances only with TAC bit 2 set.
pub open spec fn spec_timer_step(t: Timer, cycles: u32) -> Timer {
    let div = t.div_counter.wrapping_add(cycles as u16);
    if t.tac & 0x04 != 0 {
        let r = spec_tima_loop(
            t.tima,
            t.tma,
            t.tima_counter + cycles,
            spec_threshold(t.tac) as int,
            t.interrupt_requested,
        );
        Timer {
            div_counter: div,
            tima: r.0,
            tima_counter: r.1 as u32,
            interrupt_requested: r.2,
            ..t
        }
    } else {
        Timer { div_counter: div, ..t }
    }
}

/// The byte a read of a timer register returns; DIV is the divider's
/// high byte and TAC reads with its upper five bits high.
pub open spec fn spec_timer_read(t: Timer, addr: u16) -> u8 {
    if addr == 0xFF04 {
        (t.div_counter >> 8) as u8
    } else if addr == 0xFF05 {
        t.tima
    } else if addr == 0xFF06 {
        t.tma
    } else if addr == 0xFF07 {
        t.tac | 0xF8
    } else {
        0xFF
    }
}

/// The timer after a register write: any DIV write clears the divider; a
/// TAC write that changes the clock select clears the accumulator.
pub open spec fn spec_timer_write(t: Timer, addr: u16, val: u8) -> Timer {
    if addr == 0xFF04 {
        Timer { div_counter: 0u16, ..t }
    } else if addr == 0xFF05 {
        Timer { tima: val, ..t }
    } else if addr == 0xFF06 {
        Timer { tma: val, ..t }
    } else if addr == 0xFF07 {
        if (t.tac & 0x03) != (val & 0x03) {
            Timer { tac: val & 0x07, tima_counter: 0u32, ..t }
        } else {
            Timer { tac: val & 0x07, ..t }
        }
    } else {
        t
    }
}

impl Timer {
    /// A timer with every register and counter at zero.
    pub fn new() -> (r: Timer)
        ensures
            r == (Timer {
                div_counter: 0u16,
                tima: 0u8,
                tma: 0u8,
                tac: 0u8,
                tima_counter: 0u32,
                interrupt_requested: false,
            }),
            timer_wf(r),
    {
        Timer {
            div_counter: 0,
            tima: 0,
            tma: 0,
            tac: 0,
            tima_counter: 0,
            interrupt_requested: false,
        }
    }

    /// Advance the timer by `cycles` T-cycles.
    pub fn step(&mut self, cycles: u32)
        requires
            timer_wf(*old(self)),
            cycles < 0x8000_0000,
        ensures
            *final(self) == spec_timer_step(*old(self), cycles),
            timer_wf(*final(self)),
    {
        self.div_counter = self.div_counter.wrapping_add(cycles as u16);

        if self.tac & 0x04 != 0 {
            let threshold: u32 = match self.tac & 0x03 {
                0 => 1024,
                1 => 16,
                2 => 64,
                _ => 256,
            };
            assert(threshold == spec_threshold(self.tac));
            self.tima_counter = self.tima_counter + cycles;
            let ghost start = *self;
            while self.tima_counter >= threshold
                invariant
                    threshold == spec_threshold(self.tac),
                    self.tac == start.tac,
                    self.tma == start.tma,
                    self.div_counter == start.div_counter,
                    spec_tima_loop(
                        self.tima,
                        self.tma,
                        self.tima_counter as int,
                        threshold as int,
                        self.interrupt_requested,
                    ) == spec_tima_loop(
                        start.tima,
                        start.tma,
                        start.tima_counter as int,
                        threshold as int,
                        start.interrupt_requested,
                    ),
                decreases self.tima_counter,
            {
                self.tima_counter = self.tima_counter - threshold;
                if self.tima == 0xFF {
                    self.tima = self.tma;
                    self.interrupt_requested = true;
                } else {
                    self.tima = self.tima + 1;
                }
            }
        }
    }

    /// Read a timer register.
    pub fn read(&self, addr: u16) -> (r: u8)
        ensures
            r == spec_timer_read(*self, addr),
    {
        match addr {
            0xFF04 => (self.div_counter >> 8) as u8,
            0xFF05 => self.tima,
            0xFF06 => self.tma,
            0xFF07 => self.tac | 0xF8,
            _ => 0xFF,
        }
    }

    /// Write a timer register.
    pub fn write(&mut self, addr: u16, val: u8)
        requires
            timer_wf(*old(self)),
        ensures
            *final(self) == spec_timer_write(*old(self), addr, val),
            timer_wf(*final(self)),
    {
        match addr {
            0xFF04 => {
                self.div_counter = 0;
            },
            0xFF05 => {
                self.tima = val;
            },
            0xFF06 => {
                self.tma = val;
            },
            0xFF07 => {
                let old_clock = self.tac & 0x03;
                let new_clock = val & 0x03;
                if old_clock != new_clock {
                    self.tima_counter = 0;
                }
                self.tac = val & 0x07;
                proof {
                    assert(((val & 0x07) & 0x03) == (val & 0x03)) by (bit_vector);
                }
            },
            _ => {},
        }
    }

    /// Drop the latched interrupt request.
    pub fn clear_interrupt(&mut self)
        ensures
            *final(self) == (Timer { interrupt_requested: false, ..*old(self) }),
    {
        self.interrupt_requested = false;
    }
}

/// With the timer enabled and TIMA at 0xFF, exactly one threshold of
/// T-cycles rolls TIMA over: it reloads TMA and latches the interrupt,
/// whatever the clock select.
pub proof fn lemma_tima_overflow_after_threshold(t: Timer)
    requires
        timer_wf(t),
        t.tac & 0x04 != 0,
        t.tima == 0xFF,
        t.tima_counter == 0,
    ensures
        spec_timer_step(t, spec_threshold(t.tac)).tima == t.tma,
        spec_timer_step(t, spec_threshold(t.tac)).interrupt_requested,
{
    let th = spec_threshold(t.tac) as int;
    assert(spec_tima_loop(0xFFu8, t.tma, th, th, t.interrupt_requested) == spec_tima_loop(
        t.tma,
        t.tma,
        0,
        th,
        true,
    ));
}


/// Any write to the divider register clears the whole internal divider,
/// whatever the value written.
pub proof fn lemma_div_write_resets(t: Timer, val: u8)
    ensures
        spec_timer_write(t, 0xFF04, val).div_counter == 0,
{
}

} // verus!
