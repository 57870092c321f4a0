//! The 32X PWM: not a synthesizer at all, but a pulse-width DAC pair that the
//! SH-2s stream samples into.
//!
//! The VGM's `0xB2 ad dd` carries a register nibble and a 12-bit value.
//! Register 1 sets the cycle (the pulse period, which is also the sample
//! rate); 2, 3 and 4 write the left, right or both duty values. The output is
//! the duty against the cycle, centred.
//!
//! The rate is fixed at reset, at the standard `clock / 1042`, so a rip that
//! programs an unusual cycle plays at a slightly shifted pitch rather than a
//! shifted rate.

use vstd::prelude::*;
use crate::bits::{lemma_u16};

use crate::chip::{div_trunc, ChipCore, ChipState};

verus! {

/// The standard 32X cycle: 1042 clocks a sample, 22.05 kHz.
pub const STANDARD_CYCLE: u32 = 1042;

/// The PWM.
#[derive(Debug)]
pub struct Pwm {
    pub rate: u32,
    /// The programmed cycle, for scaling duties.
    pub cycle: u32,
    pub left: u32,
    pub right: u32,
}

/// What a duty of `duty` against `cycle` sounds like: centred, scaled so a
/// full swing is 16000 either way.
pub open spec fn duty_level(duty: u32, cycle: u32) -> i32 {
    let d = if duty < cycle { duty } else { cycle };
    div_trunc((d - cycle / 2) * 16_000, cycle as int) as i32
}

impl Pwm {
    /// The chip at `rate`, idling at the standard cycle.
    pub open spec fn idle(rate: u32) -> Pwm {
        Pwm { rate, cycle: STANDARD_CYCLE, left: STANDARD_CYCLE / 2, right: STANDARD_CYCLE / 2 }
    }

    /// A chip with no clock yet; `reset` gives it one.
    pub fn new() -> (chip: Pwm)
        ensures
            chip == Pwm::idle(22_050),
    {
        Pwm { rate: 22_050, cycle: STANDARD_CYCLE, left: STANDARD_CYCLE / 2, right: STANDARD_CYCLE / 2 }
    }

    pub open spec fn inv(self) -> bool {
        &&& 1 <= self.cycle <= 0xFFF
        &&& self.left <= 0xFFF
        &&& self.right <= 0xFFF
    }

    /// The chip after value `data & 0xFFF` lands in register `addr & 0x0F`.
    pub open spec fn written(self, addr: u16, data: u16) -> Pwm {
        let value = (data & 0x0FFF) as u32;
        let reg = addr & 0x0F;
        if reg == 1 {
            let cycle = if value > 1 { value } else { 1 };
            Pwm { cycle, left: cycle / 2, right: cycle / 2, ..self }
        } else if reg == 2 {
            Pwm { left: value, ..self }
        } else if reg == 3 {
            Pwm { right: value, ..self }
        } else if reg == 4 {
            Pwm { left: value, right: value, ..self }
        } else {
            self
        }
    }

    fn level(duty: u32, cycle: u32) -> (l: i32)
        requires
            1 <= cycle <= 0xFFF,
            duty <= 0xFFF,
        ensures
            l == duty_level(duty, cycle),
            -16_000 <= l <= 16_000,
    {
        let c = cycle as i32;
        let centre = c / 2;
        let d = if duty < cycle { duty as i32 } else { c };
        let swing = d - centre;
        assert(-16_000 * 2048 <= swing * 16_000 <= 16_000 * 4095) by (nonlinear_arith)
            requires
                -2048 <= swing <= 4095,
        ;
        let l = (swing * 16_000) / c;
        assert(-16_000 <= l <= 16_000) by (nonlinear_arith)
            requires
                -c <= swing <= c,
                1 <= c,
                l == div_trunc(swing * 16_000, c as int),
        ;
        l
    }
}

impl Default for Pwm {
    fn default() -> (chip: Pwm)
        ensures
            chip == Pwm::idle(22_050),
    {
        Pwm::new()
    }
}

impl ChipState for Pwm {
    open spec fn inv(&self) -> bool {
        Pwm::inv(*self)
    }

    /// The duty values hold until the next write.
    open spec fn stepped(&self) -> Pwm {
        *self
    }

    open spec fn frame(&self) -> (i32, i32) {
        (duty_level(self.left, self.cycle), duty_level(self.right, self.cycle))
    }

    fn next_frame(&mut self) -> (f: (i32, i32)) {
        (Self::level(self.left, self.cycle), Self::level(self.right, self.cycle))
    }
}

impl ChipCore for Pwm {
    fn reset(&mut self, clock: u32, variant: bool)
        ensures
            *final(self) == Pwm::idle(
                if clock / STANDARD_CYCLE > 1 { clock / STANDARD_CYCLE } else { 1 },
            ),
    {
        let rate = clock / STANDARD_CYCLE;
        *self = Pwm {
            rate: if rate > 1 { rate } else { 1 },
            cycle: STANDARD_CYCLE,
            left: STANDARD_CYCLE / 2,
            right: STANDARD_CYCLE / 2,
        };
    }

    fn native_rate(&self) -> (rate: u32)
        ensures
            rate == self.rate,
    {
        self.rate
    }

    /// `addr` is the register nibble; `data` the 12-bit value. Register 0 is
    /// the control register, whose timer and interrupt bits change nothing a
    /// duty sounds like.
    fn write(&mut self, port: u8, addr: u16, data: u16)
        ensures
            *final(self) == old(self).written(addr, data),
    {
        let value = (data & 0x0FFF) as u32;
        assert(data & 0x0FFF <= 0xFFF) by {
            lemma_u16(data, 0x0FFF);
        }
        let reg = addr & 0x0F;
        if reg == 1 {
            self.cycle = if value > 1 { value } else { 1 };
            self.left = self.cycle / 2;
            self.right = self.cycle / 2;
        } else if reg == 2 {
            self.left = value;
        } else if reg == 3 {
            self.right = value;
        } else if reg == 4 {
            self.left = value;
            self.right = value;
        }
    }
}

} // verus!
