//! Programmable interval timer: a free-running divider plus a
//! configurable-rate counter with a one-step-delayed reload and
//! interrupt request on overflow.

use vstd::prelude::*;

verus! {

/// Timer state. The divider advances regardless of the enable bit; the
/// counter advances only while bit 2 of the control register is set.
pub struct Timer {
    /// Free-running 16-bit divider; the bus exposes its high byte.
    pub div: u16,
    /// The 8-bit counter.
    pub tima: u8,
    /// Clock edges per counter increment, derived from the control register.
    pub tima_speed: u16,
    /// Reload value applied one step after the counter overflows.
    pub tma: u8,
    /// Control register: bit 2 enables the counter, bits 0-1 select the rate.
    pub tac: u8,
    /// Clock edges accumulated towards the next counter increment.
    pub counter: u16,
    /// Clock edges accumulated towards the next divider increment.
    pub div_counter: u8,
    /// Latched overflow: the reload and interrupt happen on the next step.
    pub tima_overflow_last_step: bool,
}

impl Timer {
    /// Structural bounds every reachable timer state satisfies.
    pub open spec fn wf(self) -> bool {
        &&& (self.tima_speed == 4 || self.tima_speed == 16 || self.tima_speed == 64
            || self.tima_speed == 256)
        &&& self.counter < 512
        &&& self.div_counter < 16
    }

    /// The counter rate selected by the low two control bits.
    pub open spec fn rate_spec(tac: u8) -> u16 {
        if tac & 0x3 == 0 {
            256
        } else if tac & 0x3 == 1 {
            4
        } else if tac & 0x3 == 2 {
            16
        } else {
            64
        }
    }

    /// The timer state after advancing by `clock_t` clock edges.
    pub open spec fn step_spec(self, clock_t: u8) -> Timer {
        let divided = if self.div_counter + clock_t >= 16 {
            Timer { div_counter: 0, div: ((self.div + 1) % 0x10000) as u16, ..self }
        } else {
            Timer { div_counter: (self.div_counter + clock_t) as u8, ..self }
        };
        if self.tac & 0x4 != 0 {
            let reloaded = if divided.tima_overflow_last_step {
                Timer { tima: divided.tma, tima_overflow_last_step: false, ..divided }
            } else {
                divided
            };
            if reloaded.counter + clock_t >= reloaded.tima_speed {
                if reloaded.tima == 0xFF {
                    Timer { counter: 0, tima_overflow_last_step: true, ..reloaded }
                } else {
                    Timer { counter: 0, tima: (reloaded.tima + 1) as u8, ..reloaded }
                }
            } else {
                Timer { counter: (reloaded.counter + clock_t) as u16, ..reloaded }
            }
        } else {
            divided
        }
    }

    /// Whether advancing by `clock_t` raises the timer interrupt request:
    /// exactly when a latched overflow is consumed by this step.
    pub open spec fn step_request(self, clock_t: u8) -> bool {
        self.tac & 0x4 != 0 && self.tima_overflow_last_step
    }

    /// Fresh timer: everything cleared, slowest rate selected.
    pub fn new() -> (t: Timer)
        ensures
            t == (Timer {
                div: 0,
                tima: 0,
                tima_speed: 256,
                tma: 0,
                tac: 0,
                counter: 0,
                div_counter: 0,
                tima_overflow_last_step: false,
            }),
            t.wf(),
    {
        Timer {
            div: 0,
            tima: 0,
            tima_speed: 256,
            tma: 0,
            tac: 0,
            counter: 0,
            div_counter: 0,
            tima_overflow_last_step: false,
        }
    }

    /// Re-derive the counter rate from the control register.
    pub fn update(&mut self)
        ensures
            *final(self) == (Timer { tima_speed: Timer::rate_spec(old(self).tac), ..*old(self) }),
            old(self).counter < 512 && old(self).div_counter < 16 ==> final(self).wf(),
    {
        let rate = self.tac & 0x3;
        if rate == 0 {
            self.tima_speed = 256;
        } else if rate == 1 {
            self.tima_speed = 4;
        } else if rate == 2 {
            self.tima_speed = 16;
        } else {
            self.tima_speed = 64;
        }
    }

    /// Advance the timer by `clock_t` clock edges. Returns true exactly when
    /// the one-step-delayed reload fires, which also requests the timer
    /// interrupt.
    pub fn step(&mut self, clock_t: u8) -> (request: bool)
        requires
            old(self).wf(),
            clock_t <= 240,
        ensures
            *final(self) == old(self).step_spec(clock_t),
            request == old(self).step_request(clock_t),
            final(self).wf(),
    {
        let sum = self.div_counter as u16 + clock_t as u16;
        if sum >= 16 {
            self.div_counter = 0;
            self.div = self.div.wrapping_add(1);
        } else {
            self.div_counter = sum as u8;
        }

        let mut request = false;
        if self.tac & 0x4 != 0 {
            if self.tima_overflow_last_step {
                self.tima = self.tma;
                self.tima_overflow_last_step = false;
                request = true;
            }
            let acc = self.counter + clock_t as u16;
            if acc >= self.tima_speed {
                self.counter = 0;
                if self.tima == 0xFF {
                    self.tima_overflow_last_step = true;
                } else {
                    self.tima = self.tima + 1;
                }
            } else {
                self.counter = acc;
            }
        }
        request
    }
}

} // verus!
