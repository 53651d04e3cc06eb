//! The four hardware timers.
use crate::interrupt::{Interrupt, IrqBitmask};
use vstd::prelude::*;

verus! {

/// One timer. Bits 1..0 of `ctrl` select the prescaler, bit 2 makes the timer
/// count overflows of the timer before it, bit 6 asks for an interrupt on
/// overflow, bit 7 enables the timer.
#[derive(Debug, Clone, Copy, PartialEq, Eq, Structural)]
pub struct Timer {
    pub data: u16,
    pub initial_data: u16,
    pub ctrl: u16,
    /// Cycles seen since the last tick.
    pub cycles: usize,
}

/// The full periods and the remainder of `total` cycles under the prescaler
/// selection `sel`: a period is 1, 64, 256 or 1024 cycles.
pub open spec fn prescale(sel: u16, total: usize) -> (usize, usize) {
    if sel == 0 {
        (total, 0)
    } else if sel == 1 {
        (total / 64, total % 64)
    } else if sel == 2 {
        (total / 256, total % 256)
    } else {
        (total / 1024, total % 1024)
    }
}

/// `x + y`, held at `usize::MAX`.
pub open spec fn sat_add_usize(x: usize, y: usize) -> usize {
    if x + y > usize::MAX {
        usize::MAX
    } else {
        (x + y) as usize
    }
}

/// The interrupt source of timer `id`.
pub open spec fn timer_irq(id: int) -> Interrupt {
    if id == 0 {
        Interrupt::Timer0_Overflow
    } else if id == 1 {
        Interrupt::Timer1_Overflow
    } else if id == 2 {
        Interrupt::Timer2_Overflow
    } else {
        Interrupt::Timer3_Overflow
    }
}

impl Timer {
    pub open spec fn enabled(self) -> bool {
        self.ctrl & 0x80 != 0
    }

    pub open spec fn cascade(self) -> bool {
        self.ctrl & 0x04 != 0
    }

    pub open spec fn irq_enabled(self) -> bool {
        self.ctrl & 0x40 != 0
    }

    /// How many ticks the timer receives in a step of `cycles` cycles, given
    /// whether the timer before it overflowed in the same step: a cascading
    /// timer receives one tick per such overflow, any other one tick per
    /// full prescaler period.
    pub open spec fn ticks(self, cycles: usize, carry_in: bool) -> int {
        if !self.enabled() {
            0
        } else if self.cascade() {
            if carry_in {
                1
            } else {
                0
            }
        } else {
            prescale(self.ctrl & 3, sat_add_usize(self.cycles, cycles)).0 as int
        }
    }

    /// The timer after a step, and whether it overflowed. A timer that is
    /// carried past `0xffff` starts again from its reload value.
    pub open spec fn stepped(self, cycles: usize, carry_in: bool) -> (Timer, bool) {
        let ticks = self.ticks(cycles, carry_in);
        let rest = if self.enabled() && !self.cascade() {
            prescale(self.ctrl & 3, sat_add_usize(self.cycles, cycles)).1
        } else {
            self.cycles
        };
        if self.data + ticks > 0xffff {
            (Timer { data: self.initial_data, cycles: rest, ..self }, true)
        } else {
            (Timer { data: (self.data + ticks) as u16, cycles: rest, ..self }, false)
        }
    }

    pub fn new() -> (r: Timer)
        ensures
            r == (Timer { data: 0, initial_data: 0, ctrl: 0, cycles: 0 }),
    {
        Timer { data: 0, initial_data: 0, ctrl: 0, cycles: 0 }
    }

    /// Advances the timer by one step. Returns whether it overflowed.
    pub fn step(&mut self, cycles: usize, carry_in: bool) -> (overflowed: bool)
        ensures
            (*final(self), overflowed) == old(self).stepped(cycles, carry_in),
    {
        let enabled = self.ctrl & 0x80 != 0;
        let cascade = self.ctrl & 0x04 != 0;
        let mut ticks: usize = 0;
        if enabled {
            if cascade {
                if carry_in {
                    ticks = 1;
                }
            } else {
                let sel = self.ctrl & 3;
                let total = self.cycles.saturating_add(cycles);
                if sel == 0 {
                    ticks = total;
                    self.cycles = 0;
                } else if sel == 1 {
                    ticks = total / 64;
                    self.cycles = total % 64;
                } else if sel == 2 {
                    ticks = total / 256;
                    self.cycles = total % 256;
                } else {
                    ticks = total / 1024;
                    self.cycles = total % 1024;
                }
            }
        }
        if ticks > 0xffff - self.data as usize {
            self.data = self.initial_data;
            true
        } else {
            self.data = (self.data as usize + ticks) as u16;
            false
        }
    }
}

#[derive(Debug, Clone, Copy)]
pub struct Timers {
    pub timers: [Timer; 4],
}

impl Timers {
    /// The timers after a step of `cycles` cycles, timer 0 first, each
    /// handing its overflow to the next.
    pub open spec fn stepped(self, cycles: usize) -> Seq<(Timer, bool)> {
        let t0 = self.timers[0].stepped(cycles, false);
        let t1 = self.timers[1].stepped(cycles, t0.1);
        let t2 = self.timers[2].stepped(cycles, t1.1);
        let t3 = self.timers[3].stepped(cycles, t2.1);
        seq![t0, t1, t2, t3]
    }

    /// The requests that the step adds to `irqs`: one for each timer that
    /// overflowed and asks for an interrupt.
    pub open spec fn stepped_irqs(self, cycles: usize, irqs: IrqBitmask) -> IrqBitmask {
        let s = self.stepped(cycles);
        irqs.with_irq_if(s[0].1 && s[0].0.irq_enabled(), Interrupt::Timer0_Overflow).with_irq_if(
            s[1].1 && s[1].0.irq_enabled(),
            Interrupt::Timer1_Overflow,
        ).with_irq_if(s[2].1 && s[2].0.irq_enabled(), Interrupt::Timer2_Overflow).with_irq_if(
            s[3].1 && s[3].0.irq_enabled(),
            Interrupt::Timer3_Overflow,
        )
    }

    /// The timers after power-on: stopped and zero.
    pub open spec fn is_power_on(self) -> bool {
        forall|i: int|
            0 <= i < 4 ==> self.timers[i] == (Timer { data: 0, initial_data: 0, ctrl: 0, cycles: 0 })
    }

    pub fn new() -> (r: Timers)
        ensures
            r.is_power_on(),
    {
        Timers { timers: [Timer::new(), Timer::new(), Timer::new(), Timer::new()] }
    }

    /// The four timers after a step of `cycles` cycles.
    pub open spec fn spec_step(self, cycles: usize) -> Timers {
        let s = self.stepped(cycles);
        Timers { timers: [s[0].0, s[1].0, s[2].0, s[3].0] }
    }

    /// Advances the four timers by `cycles` cycles and raises the interrupts
    /// of those that overflowed.
    pub fn step(&mut self, cycles: usize, irqs: &mut IrqBitmask)
        ensures
            *final(self) == old(self).spec_step(cycles),
            *final(irqs) == old(self).stepped_irqs(cycles, *old(irqs)),
    {
        let mut carry = false;
        let mut t = self.timers[0];
        carry = t.step(cycles, carry);
        self.timers[0] = t;
        if carry && t.ctrl & 0x40 != 0 {
            irqs.add_irq(Interrupt::Timer0_Overflow);
        }
        let mut t = self.timers[1];
        carry = t.step(cycles, carry);
        self.timers[1] = t;
        if carry && t.ctrl & 0x40 != 0 {
            irqs.add_irq(Interrupt::Timer1_Overflow);
        }
        let mut t = self.timers[2];
        carry = t.step(cycles, carry);
        self.timers[2] = t;
        if carry && t.ctrl & 0x40 != 0 {
            irqs.add_irq(Interrupt::Timer2_Overflow);
        }
        let mut t = self.timers[3];
        carry = t.step(cycles, carry);
        self.timers[3] = t;
        if carry && t.ctrl & 0x40 != 0 {
            irqs.add_irq(Interrupt::Timer3_Overflow);
        }
        assert(self.timers =~= old(self).spec_step(cycles).timers);
    }
}

} // verus!
