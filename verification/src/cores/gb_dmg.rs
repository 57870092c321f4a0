//! The Game Boy's APU: two pulses, a wavetable channel and a noise channel.
//!
//! The only chip here with stereo of its own: every channel can be routed to
//! either side independently.
//!
//! - **The DAC and the channel are separate.** A pulse or noise envelope with
//!   zero initial volume pointing down switches its DAC off, which also stops
//!   the channel. Clearing NR52's enable bit clears every register.
//! - **The wave channel's volume is a shift, not a multiply**: full, half,
//!   quarter, or off.
//! - **Lengths differ per channel**: 64 steps for the pulses and the noise,
//!   256 for the wave.
//!
//! Not modelled: wave RAM access quirks while the channel runs, and the CGB's
//! extra registers.

use vstd::prelude::*;
use crate::bits::{lemma_u16, lemma_u8};

use crate::chip::{ChipCore, ChipState};
use vstd::arithmetic::div_mod::{lemma_add_mod_noop, lemma_fundamental_div_mod_converse};
use vstd::array::{spec_array_fill_for_copy_type, spec_array_update};

verus! {

/// Master clocks averaged into one output sample.
pub const CYCLES_PER_SAMPLE: u32 = 64;

/// The frame sequencer runs at 512 Hz: one tick every 8192 master clocks.
pub const FRAME_PERIOD: u32 = 8192;

/// Peak amplitude with everything at full volume, both sides.
pub const PEAK: i32 = 24_000;

/// Full scale: four channels at 15, times the eightfold master volume.
pub const FULL: i32 = 480;

/// The four duty cycles, as the eight-step sequences they are.
pub const DUTY: [[u8; 8]; 4] = [
    [0, 0, 0, 0, 0, 0, 0, 1],
    [1, 0, 0, 0, 0, 0, 0, 1],
    [1, 0, 0, 0, 0, 1, 1, 1],
    [0, 1, 1, 1, 1, 1, 1, 0],
];

/// The noise channel's divisor codes. Code 0 is a half-step, not a zero.
pub const NOISE_DIVISORS: [u32; 8] = [8, 16, 32, 48, 64, 80, 96, 112];

pub open spec fn duty_bit(duty: int, step: int) -> u8 {
    DUTY[duty][step]
}

pub open spec fn divisor(code: int) -> u32 {
    NOISE_DIVISORS@[code]
}

pub proof fn lemma_tables_bounded()
    ensures
        forall|d: int, s: int| 0 <= d < 4 && 0 <= s < 8 ==> #[trigger] duty_bit(d, s) <= 1,
        forall|c: int| 0 <= c < 8 ==> 8 <= #[trigger] divisor(c) <= 112,
{
    assert forall|d: int, s: int| 0 <= d < 4 && 0 <= s < 8 implies #[trigger] duty_bit(d, s) <= 1 by {
        assert(DUTY[0]@ =~= seq![0u8, 0, 0, 0, 0, 0, 0, 1]);
        assert(DUTY[1]@ =~= seq![1u8, 0, 0, 0, 0, 0, 0, 1]);
        assert(DUTY[2]@ =~= seq![1u8, 0, 0, 0, 0, 1, 1, 1]);
        assert(DUTY[3]@ =~= seq![0u8, 1, 1, 1, 1, 1, 1, 0]);
    }
}

/// A volume envelope, shared by the pulses and the noise.
#[derive(Debug, Clone, Copy)]
pub struct Envelope {
    /// The initial volume, which with `increasing` also decides whether the
    /// channel's DAC is powered at all.
    pub initial: u8,
    pub increasing: bool,
    pub period: u8,
    pub volume: u8,
    pub timer: u8,
}

impl Envelope {
    pub open spec fn cleared() -> Envelope {
        Envelope { initial: 0, increasing: false, period: 0, volume: 0, timer: 0 }
    }

    pub open spec fn inv(self) -> bool {
        &&& self.initial <= 15
        &&& self.volume <= 15
    }

    /// Zero initial volume pointing down switches the DAC off.
    pub open spec fn dac(self) -> bool {
        self.initial != 0 || self.increasing
    }

    pub fn dac_on(&self) -> (on: bool)
        ensures
            on == self.dac(),
    {
        self.initial != 0 || self.increasing
    }

    pub open spec fn triggered(self) -> Envelope {
        Envelope { volume: self.initial, timer: self.period, ..self }
    }

    fn trigger(&mut self)
        ensures
            *final(self) == old(self).triggered(),
    {
        self.volume = self.initial;
        self.timer = self.period;
    }

    /// One envelope tick: the timer counts down, and on expiry reloads and
    /// moves the volume one step in its direction, within 0..=15.
    pub open spec fn clocked(self) -> Envelope {
        if self.period == 0 {
            self
        } else {
            let timer = if self.timer > 0 { (self.timer - 1) as u8 } else { self.timer };
            if timer == 0 {
                let volume = if self.increasing && self.volume < 15 {
                    (self.volume + 1) as u8
                } else if !self.increasing && self.volume > 0 {
                    (self.volume - 1) as u8
                } else {
                    self.volume
                };
                Envelope { timer: self.period, volume: volume, ..self }
            } else {
                Envelope { timer: timer, ..self }
            }
        }
    }

    fn clock(&mut self)
        requires
            old(self).inv(),
        ensures
            final(self).inv(),
            *final(self) == old(self).clocked(),
    {
        if self.period == 0 {
            return;
        }
        if self.timer > 0 {
            self.timer -= 1;
        }
        if self.timer == 0 {
            self.timer = self.period;
            if self.increasing && self.volume < 15 {
                self.volume += 1;
            } else if !self.increasing && self.volume > 0 {
                self.volume -= 1;
            }
        }
    }
}

/// An envelope `n` ticks later.
pub open spec fn envelope_after(e: Envelope, n: nat) -> Envelope
    decreases n,
{
    if n == 0 {
        e
    } else {
        envelope_after(e, (n - 1) as nat).clocked()
    }
}

/// What one envelope tick does: with period 0 nothing moves. Otherwise the
/// timer counts down, and when it runs out it reloads with the period and
/// the volume moves one step in the envelope's direction: up while below
/// 15, down while above 0. The volume never moves against the direction.
pub proof fn lemma_envelope_step(e: Envelope)
    requires
        e.inv(),
    ensures
        e.period == 0 ==> e.clocked() == e,
        e.period > 0 && e.timer <= 1 && e.increasing && e.volume < 15 ==> e.clocked().volume
            == e.volume + 1,
        e.period > 0 && e.timer <= 1 && !e.increasing && e.volume > 0 ==> e.clocked().volume
            == e.volume - 1,
        e.period > 0 && e.timer <= 1 ==> e.clocked().timer == e.period,
        e.period > 0 && e.timer > 1 ==> e.clocked().volume == e.volume && e.clocked().timer
            == e.timer - 1,
        e.increasing ==> e.volume <= e.clocked().volume,
        !e.increasing ==> e.clocked().volume <= e.volume,
        e.clocked().inv(),
        e.clocked().period == e.period && e.clocked().increasing == e.increasing,
{
}

/// An increasing envelope fades in: from a timer of `t` (as a trigger
/// leaves it, at the period), the volume holds for `t - 1` ticks and rises by
/// one on tick `t`.
pub proof fn lemma_envelope_fades_in(e: Envelope, k: nat)
    requires
        e.inv(),
        e.increasing,
        e.period > 0,
        1 <= e.timer,
        e.volume < 15,
        k <= e.timer,
    ensures
        k < e.timer ==> envelope_after(e, k).volume == e.volume && envelope_after(e, k).timer
            == e.timer - k,
        k == e.timer ==> envelope_after(e, k).volume == e.volume + 1,
        envelope_after(e, k).inv(),
        envelope_after(e, k).period == e.period,
        envelope_after(e, k).increasing,
    decreases k,
{
    if k > 0 {
        lemma_envelope_fades_in(e, (k - 1) as nat);
        lemma_envelope_step(envelope_after(e, (k - 1) as nat));
    }
}

/// A length counter: the pulses and noise count to 64, the wave to 256.
#[derive(Debug, Clone, Copy)]
pub struct Length {
    pub counter: u16,
    pub enabled: bool,
    pub max: u16,
}

impl Length {
    pub open spec fn fresh(max: u16) -> Length {
        Length { counter: 0, enabled: false, max: max }
    }

    pub fn new(max: u16) -> (l: Length)
        ensures
            l == Length::fresh(max),
    {
        Length { counter: 0, enabled: false, max }
    }

    pub open spec fn inv(self) -> bool {
        &&& self.max == 64 || self.max == 256
        &&& self.counter <= self.max
    }

    pub open spec fn loaded(self, value: u16) -> Length {
        Length { counter: (self.max - value) as u16, ..self }
    }

    fn load(&mut self, value: u16)
        requires
            old(self).inv(),
            value < old(self).max,
        ensures
            final(self).inv(),
            *final(self) == old(self).loaded(value),
    {
        self.counter = self.max - value;
    }

    /// One length tick, and whether it has just expired.
    pub open spec fn clocked(self) -> (Length, bool) {
        if !self.enabled || self.counter == 0 {
            (self, false)
        } else {
            (Length { counter: (self.counter - 1) as u16, ..self }, self.counter - 1 == 0)
        }
    }

    fn clock(&mut self) -> (expired: bool)
        requires
            old(self).inv(),
        ensures
            final(self).inv(),
            (*final(self), expired) == old(self).clocked(),
    {
        if !self.enabled || self.counter == 0 {
            return false;
        }
        self.counter -= 1;
        self.counter == 0
    }

    pub open spec fn triggered(self) -> Length {
        if self.counter == 0 {
            Length { counter: self.max, ..self }
        } else {
            self
        }
    }

    fn trigger(&mut self)
        requires
            old(self).inv(),
        ensures
            final(self).inv(),
            *final(self) == old(self).triggered(),
    {
        if self.counter == 0 {
            self.counter = self.max;
        }
    }
}

/// A pulse channel; channel 1 additionally has the sweep unit.
#[derive(Debug, Clone, Copy)]
pub struct Square {
    pub on: bool,
    pub envelope: Envelope,
    pub length: Length,
    pub duty: u8,
    pub step: u8,
    /// Eleven bits; the period is `2048 - frequency`.
    pub frequency: u16,
    pub timer: u32,
    pub has_sweep: bool,
    pub sweep_period: u8,
    pub sweep_negate: bool,
    pub sweep_shift: u8,
    pub sweep_timer: u8,
    pub sweep_enabled: bool,
    pub sweep_shadow: u16,
}

impl Square {
    pub open spec fn fresh(has_sweep: bool) -> Square {
        Square {
            on: false,
            envelope: Envelope::cleared(),
            length: Length::fresh(64),
            duty: 0,
            step: 0,
            frequency: 0,
            timer: 0,
            has_sweep: has_sweep,
            sweep_period: 0,
            sweep_negate: false,
            sweep_shift: 0,
            sweep_timer: 0,
            sweep_enabled: false,
            sweep_shadow: 0,
        }
    }

    pub fn new(has_sweep: bool) -> (s: Square)
        ensures
            s == Square::fresh(has_sweep),
            s.inv(),
    {
        Square {
            on: false,
            envelope: Envelope { initial: 0, increasing: false, period: 0, volume: 0, timer: 0 },
            length: Length::new(64),
            duty: 0,
            step: 0,
            frequency: 0,
            timer: 0,
            has_sweep,
            sweep_period: 0,
            sweep_negate: false,
            sweep_shift: 0,
            sweep_timer: 0,
            sweep_enabled: false,
            sweep_shadow: 0,
        }
    }

    pub open spec fn inv(self) -> bool {
        &&& self.envelope.inv()
        &&& self.length.inv()
        &&& self.length.max == 64
        &&& self.duty <= 3
        &&& self.step <= 7
        &&& self.frequency <= 2047
        &&& self.timer < 0x2000
        &&& self.sweep_shift <= 7
        &&& self.sweep_period <= 7
        &&& self.sweep_shadow <= 2047
    }

    /// Master clocks per sequencer step: `(2048 - frequency) * 4`.
    pub open spec fn period_of(self) -> u32 {
        ((2048 - self.frequency) * 4) as u32
    }

    pub fn period(&self) -> (p: u32)
        requires
            self.frequency <= 2047,
        ensures
            p == self.period_of(),
            4 <= p <= 0x2000,
    {
        (2048 - self.frequency as u32) * 4
    }

    /// The channel `cycles` clocks later: the duty step advances once per
    /// period, wrapping at 8.
    pub open spec fn clocked(self, cycles: u32) -> Square {
        let t = self.timer + cycles;
        let p = self.period_of() as int;
        Square { timer: (t % p) as u32, step: ((self.step + t / p) % 8) as u8, ..self }
    }

    fn clock(&mut self, cycles: u32)
        requires
            old(self).inv(),
            cycles <= 64,
        ensures
            final(self).inv(),
            *final(self) == old(self).clocked(cycles),
    {
        let period = self.period();
        let ghost t = self.timer + cycles;
        let ghost s0 = self.step;
        assert(s0 % 8 == s0) by (nonlinear_arith)
            requires
                s0 <= 7,
        ;
        let mut timer = self.timer + cycles;
        let mut step = self.step;
        let ghost mut k: nat = 0;
        assert(k * period == 0) by (nonlinear_arith)
            requires
                k == 0,
        ;
        while timer >= period
            invariant
                4 <= period <= 0x2000,
                timer + k * period == t,
                step == (s0 + k) % 8,
                step <= 7,
            decreases timer,
        {
            timer = timer - period;
            proof {
                lemma_add_mod_noop(s0 + k, 1, 8);
                assert(1int % 8 == 1);
            }
            assert(((step + 1) as u8) & 7 == ((step + 1) as u8) % 8) by {
                lemma_u8((step + 1) as u8, 0);
            }
            step = (step + 1) & 7;
            proof {
                assert((k + 1) * period == k * period + period) by (nonlinear_arith);
                k = k + 1;
            }
        }
        proof {
            lemma_fundamental_div_mod_converse(t, period as int, k as int, timer as int);
        }
        self.timer = timer;
        self.step = step;
    }

    /// The sweep's next frequency: the shadow plus or minus itself shifted,
    /// not going below zero.
    pub open spec fn sweep_next(self) -> u16 {
        let change = self.sweep_shadow >> self.sweep_shift;
        if self.sweep_negate {
            if self.sweep_shadow >= change {
                (self.sweep_shadow - change) as u16
            } else {
                0
            }
        } else {
            (self.sweep_shadow + change) as u16
        }
    }

    fn next_sweep(&self) -> (n: u16)
        requires
            self.inv(),
        ensures
            n == self.sweep_next(),
            n <= 4094,
    {
        let shadow = self.sweep_shadow;
        let shift = self.sweep_shift;
        let change = shadow >> shift;
        assert(shadow >> shift <= shadow) by {
            lemma_u16(shadow, shift as u16);
        }
        if self.sweep_negate {
            shadow.saturating_sub(change)
        } else {
            shadow + change
        }
    }

    /// A trigger: the channel starts if its DAC is on, the length reloads
    /// if spent, the timer and envelope restart, and the sweep reloads its
    /// shadow and runs an immediate overflow check when it has a shift.
    pub open spec fn triggered(self) -> Square {
        let base = Square {
            on: self.envelope.dac(),
            length: self.length.triggered(),
            timer: 0,
            envelope: self.envelope.triggered(),
            ..self
        };
        if self.has_sweep {
            let swept = Square {
                sweep_shadow: self.frequency,
                sweep_timer: if self.sweep_period == 0 { 8 } else { self.sweep_period },
                sweep_enabled: self.sweep_period > 0 || self.sweep_shift > 0,
                ..base
            };
            if swept.sweep_shift > 0 && swept.sweep_next() > 2047 {
                Square { on: false, ..swept }
            } else {
                swept
            }
        } else {
            base
        }
    }

    fn trigger(&mut self)
        requires
            old(self).inv(),
        ensures
            final(self).inv(),
            *final(self) == old(self).triggered(),
    {
        self.on = self.envelope.dac_on();
        self.length.trigger();
        self.timer = 0;
        self.envelope.trigger();
        if self.has_sweep {
            self.sweep_shadow = self.frequency;
            self.sweep_timer = if self.sweep_period == 0 { 8 } else { self.sweep_period };
            self.sweep_enabled = self.sweep_period > 0 || self.sweep_shift > 0;
            if self.sweep_shift > 0 && self.next_sweep() > 2047 {
                self.on = false;
            }
        }
    }

    /// One sweep tick (frame-sequencer steps 2 and 6): on expiry the timer
    /// reloads and, when enabled with a period, the frequency moves to the
    /// next sweep value; an overflow past 2047, before or after, stops the
    /// channel.
    pub open spec fn sweep_clocked(self) -> Square {
        if !self.has_sweep {
            self
        } else {
            let timer = if self.sweep_timer > 0 { (self.sweep_timer - 1) as u8 } else { 0u8 };
            if timer != 0 {
                Square { sweep_timer: timer, ..self }
            } else {
                let reloaded = Square {
                    sweep_timer: if self.sweep_period == 0 { 8 } else { self.sweep_period },
                    ..self
                };
                if !reloaded.sweep_enabled || reloaded.sweep_period == 0 {
                    reloaded
                } else {
                    let next = reloaded.sweep_next();
                    if next > 2047 {
                        Square { on: false, ..reloaded }
                    } else if reloaded.sweep_shift > 0 {
                        let moved = Square { sweep_shadow: next, frequency: next, ..reloaded };
                        if moved.sweep_next() > 2047 {
                            Square { on: false, ..moved }
                        } else {
                            moved
                        }
                    } else {
                        reloaded
                    }
                }
            }
        }
    }

    fn clock_sweep(&mut self)
        requires
            old(self).inv(),
        ensures
            final(self).inv(),
            *final(self) == old(self).sweep_clocked(),
    {
        if !self.has_sweep {
            return;
        }
        if self.sweep_timer > 0 {
            self.sweep_timer -= 1;
        }
        if self.sweep_timer != 0 {
            return;
        }
        self.sweep_timer = if self.sweep_period == 0 { 8 } else { self.sweep_period };
        if !self.sweep_enabled || self.sweep_period == 0 {
            return;
        }
        let next = self.next_sweep();
        if next > 2047 {
            self.on = false;
        } else if self.sweep_shift > 0 {
            self.sweep_shadow = next;
            self.frequency = next;
            if self.next_sweep() > 2047 {
                self.on = false;
            }
        }
    }

    /// The duty bit times the envelope volume, while on with the DAC on.
    pub open spec fn output_now(self) -> i32 {
        if !self.on || !self.envelope.dac() {
            0
        } else {
            (duty_bit(self.duty as int, self.step as int) * self.envelope.volume) as i32
        }
    }

    fn output(&self) -> (o: i32)
        requires
            self.inv(),
        ensures
            o == self.output_now(),
            0 <= o <= 15,
    {
        proof {
            lemma_tables_bounded();
        }
        if !self.on || !self.envelope.dac_on() {
            0
        } else {
            let bit = DUTY[self.duty as usize][self.step as usize];
            assert(bit == duty_bit(self.duty as int, self.step as int));
            let volume = self.envelope.volume;
            assert(bit * volume <= 15) by (nonlinear_arith)
                requires
                    bit <= 1,
                    volume <= 15,
            ;
            (bit * volume) as i32
        }
    }
}

/// The wavetable channel: 32 four-bit samples at a shift-controlled volume.
#[derive(Debug, Clone, Copy)]
pub struct Wave {
    pub on: bool,
    pub dac_on: bool,
    pub length: Length,
    /// 0 mutes; 1, 2 and 3 mean full, half and quarter.
    pub volume_shift: u8,
    pub frequency: u16,
    pub timer: u32,
    pub position: u8,
    /// Sixteen bytes, two samples each.
    pub ram: [u8; 16],
}

impl Wave {
    pub open spec fn fresh(ram: [u8; 16]) -> Wave {
        Wave {
            on: false,
            dac_on: false,
            length: Length::fresh(256),
            volume_shift: 0,
            frequency: 0,
            timer: 0,
            position: 0,
            ram: ram,
        }
    }

    pub open spec fn inv(self) -> bool {
        &&& self.length.inv()
        &&& self.length.max == 256
        &&& self.volume_shift <= 3
        &&& self.frequency <= 2047
        &&& self.timer < 0x1000
        &&& self.position <= 31
    }

    /// Twice the pulses' rate for the same frequency: `(2048 - f) * 2`.
    pub open spec fn period_of(self) -> u32 {
        ((2048 - self.frequency) * 2) as u32
    }

    pub fn period(&self) -> (p: u32)
        requires
            self.frequency <= 2047,
        ensures
            p == self.period_of(),
            2 <= p <= 0x1000,
    {
        (2048 - self.frequency as u32) * 2
    }

    pub open spec fn clocked(self, cycles: u32) -> Wave {
        let t = self.timer + cycles;
        let p = self.period_of() as int;
        Wave { timer: (t % p) as u32, position: ((self.position + t / p) % 32) as u8, ..self }
    }

    fn clock(&mut self, cycles: u32)
        requires
            old(self).inv(),
            cycles <= 64,
        ensures
            final(self).inv(),
            *final(self) == old(self).clocked(cycles),
    {
        let period = self.period();
        let ghost t = self.timer + cycles;
        let ghost p0 = self.position;
        assert(p0 % 32 == p0) by (nonlinear_arith)
            requires
                p0 <= 31,
        ;
        let mut timer = self.timer + cycles;
        let mut position = self.position;
        let ghost mut k: nat = 0;
        assert(k * period == 0) by (nonlinear_arith)
            requires
                k == 0,
        ;
        while timer >= period
            invariant
                2 <= period <= 0x1000,
                timer + k * period == t,
                position == (p0 + k) % 32,
                position <= 31,
            decreases timer,
        {
            timer = timer - period;
            proof {
                lemma_add_mod_noop(p0 + k, 1, 32);
                assert(1int % 32 == 1);
            }
            assert(((position + 1) as u8) & 31 == ((position + 1) as u8) % 32) by {
                lemma_u8((position + 1) as u8, 0);
            }
            position = (position + 1) & 31;
            proof {
                assert((k + 1) * period == k * period + period) by (nonlinear_arith);
                k = k + 1;
            }
        }
        proof {
            lemma_fundamental_div_mod_converse(t, period as int, k as int, timer as int);
        }
        self.timer = timer;
        self.position = position;
    }

    pub open spec fn triggered(self) -> Wave {
        Wave { on: self.dac_on, length: self.length.triggered(), timer: 0, position: 0, ..self }
    }

    fn trigger(&mut self)
        requires
            old(self).inv(),
        ensures
            final(self).inv(),
            *final(self) == old(self).triggered(),
    {
        self.on = self.dac_on;
        self.length.trigger();
        self.timer = 0;
        self.position = 0;
    }

    /// The sample under the pointer (high nibble first), shifted down by the
    /// volume code less one.
    pub open spec fn output_now(self) -> i32 {
        if !self.on || !self.dac_on || self.volume_shift == 0 {
            0
        } else {
            let byte = self.ram[(self.position >> 1u8) as int];
            let nibble = if self.position & 1 == 0 {
                byte >> 4u8
            } else {
                byte & 0x0F
            };
            (nibble as i32) >> ((self.volume_shift - 1) as u8)
        }
    }

    fn output(&self) -> (o: i32)
        requires
            self.inv(),
        ensures
            o == self.output_now(),
            0 <= o <= 15,
    {
        if !self.on || !self.dac_on || self.volume_shift == 0 {
            return 0;
        }
        let position = self.position;
        assert(position >> 1u8 < 16) by {
            lemma_u8(position, 0);
        }
        let byte = self.ram[(position >> 1) as usize];
        let nibble = if position & 1 == 0 {
            byte >> 4
        } else {
            byte & 0x0F
        };
        assert(byte >> 4u8 <= 15 && byte & 0x0F <= 15) by {
            lemma_u8(byte, 0x0F);
        }
        let shift = self.volume_shift - 1;
        let n = nibble as i32;
        assert(0 <= (n >> shift) <= 15) by (bit_vector)
            requires
                0 <= n <= 15,
                shift <= 2,
        ;
        n >> shift
    }
}

/// The noise register after `k` shifts: bit 0 XOR bit 1 enters at bit 14,
/// and at bit 6 too in short mode.
pub open spec fn noise_lfsr(shift: u16, short: bool, k: nat) -> u16
    decreases k,
{
    if k == 0 {
        shift
    } else {
        let s = noise_lfsr(shift, short, (k - 1) as nat);
        let feedback = (s & 1) ^ ((s >> 1u16) & 1);
        let next = (s >> 1u16) | (feedback << 14u16);
        if short {
            (next & !(1u16 << 6u16)) | (feedback << 6u16)
        } else {
            next
        }
    }
}

/// The noise channel: a shift register clocked from a divisor and a shift.
#[derive(Debug, Clone, Copy)]
pub struct Noise {
    pub on: bool,
    pub envelope: Envelope,
    pub length: Length,
    pub divisor_code: u8,
    pub shift_amount: u8,
    /// Feedback into bit 6 as well, giving a short, buzzy sequence.
    pub short_mode: bool,
    pub timer: u32,
    pub shift: u16,
}

impl Noise {
    pub open spec fn fresh() -> Noise {
        Noise {
            on: false,
            envelope: Envelope::cleared(),
            length: Length::fresh(64),
            divisor_code: 0,
            shift_amount: 0,
            short_mode: false,
            timer: 0,
            shift: 0x7FFF,
        }
    }

    pub open spec fn inv(self) -> bool {
        &&& self.envelope.inv()
        &&& self.length.inv()
        &&& self.length.max == 64
        &&& self.divisor_code <= 7
        &&& self.shift_amount <= 15
        &&& self.timer <= 0x10_0000
    }

    /// The divisor for the code, shifted up by the shift amount.
    pub open spec fn period_of(self) -> u32 {
        let p = divisor(self.divisor_code as int) << self.shift_amount;
        if p > 1 {
            p
        } else {
            1
        }
    }

    fn period(&self) -> (p: u32)
        requires
            self.inv(),
            self.shift_amount <= 13,
        ensures
            p == self.period_of(),
            8 <= p <= 112 * 8192,
    {
        proof {
            lemma_tables_bounded();
        }
        let d = NOISE_DIVISORS[self.divisor_code as usize];
        let s = self.shift_amount;
        assert(8 <= (d << s) <= 112 * 8192) by (bit_vector)
            requires
                8 <= d <= 112,
                s <= 13,
        ;
        let p = d << s;
        if p > 1 {
            p
        } else {
            1
        }
    }

    /// The channel `cycles` clocks later. A shift amount above 13 stops the
    /// clock; otherwise the register shifts once per period.
    pub open spec fn clocked(self, cycles: u32) -> Noise {
        if self.shift_amount > 13 {
            self
        } else {
            let t = self.timer + cycles;
            let p = self.period_of() as int;
            Noise {
                timer: (t % p) as u32,
                shift: noise_lfsr(self.shift, self.short_mode, (t / p) as nat),
                ..self
            }
        }
    }

    fn clock(&mut self, cycles: u32)
        requires
            old(self).inv(),
            cycles <= 64,
        ensures
            final(self).inv(),
            *final(self) == old(self).clocked(cycles),
    {
        if self.shift_amount > 13 {
            return;
        }
        let period = self.period();
        let ghost t = self.timer + cycles;
        let ghost s0 = self.shift;
        let short = self.short_mode;
        let mut timer = self.timer + cycles;
        let mut shift = self.shift;
        let ghost mut k: nat = 0;
        assert(k * period == 0) by (nonlinear_arith)
            requires
                k == 0,
        ;
        while timer >= period
            invariant
                8 <= period <= 112 * 8192,
                timer + k * period == t,
                shift == noise_lfsr(s0, short, k),
            decreases timer,
        {
            timer = timer - period;
            let feedback = (shift & 1) ^ ((shift >> 1) & 1);
            shift = (shift >> 1) | (feedback << 14);
            if short {
                shift = (shift & !(1u16 << 6)) | (feedback << 6);
            }
            proof {
                assert((k + 1) * period == k * period + period) by (nonlinear_arith);
                k = k + 1;
            }
        }
        proof {
            lemma_fundamental_div_mod_converse(t, period as int, k as int, timer as int);
        }
        self.timer = timer;
        self.shift = shift;
    }

    pub open spec fn triggered(self) -> Noise {
        Noise {
            on: self.envelope.dac(),
            length: self.length.triggered(),
            timer: 0,
            envelope: self.envelope.triggered(),
            shift: 0x7FFF,
            ..self
        }
    }

    fn trigger(&mut self)
        requires
            old(self).inv(),
        ensures
            final(self).inv(),
            *final(self) == old(self).triggered(),
    {
        self.on = self.envelope.dac_on();
        self.length.trigger();
        self.timer = 0;
        self.envelope.trigger();
        self.shift = 0x7FFF;
    }

    /// The inverted low bit of the register times the envelope volume.
    pub open spec fn output_now(self) -> i32 {
        if !self.on || !self.envelope.dac() {
            0
        } else {
            (((!self.shift & 1) as u8) * self.envelope.volume) as i32
        }
    }

    fn output(&self) -> (o: i32)
        requires
            self.inv(),
        ensures
            o == self.output_now(),
            0 <= o <= 15,
    {
        if !self.on || !self.envelope.dac_on() {
            0
        } else {
            let s = self.shift;
            assert((!s & 1) <= 1) by {
                lemma_u16(!s, 1);
            }
            let bit = (!s & 1) as u8;
            let volume = self.envelope.volume;
            assert(bit * volume <= 15) by (nonlinear_arith)
                requires
                    bit <= 1,
                    volume <= 15,
            ;
            (bit * volume) as i32
        }
    }
}


impl Square {
    /// A write to one of the channel's registers: `0` sweep, `1` duty and
    /// length, `2` envelope, `3` frequency low, `4` frequency high, length
    /// enable and trigger.
    pub open spec fn register_written(self, kind: u8, v: u8) -> Square {
        if kind == 0 {
            Square {
                sweep_period: (v >> 4u8) & 7,
                sweep_negate: v & 0x08 != 0,
                sweep_shift: v & 7,
                ..self
            }
        } else if kind == 1 {
            Square { duty: v >> 6u8, length: self.length.loaded((v & 0x3F) as u16), ..self }
        } else if kind == 2 {
            let envelope = Envelope {
                initial: v >> 4u8,
                increasing: v & 0x08 != 0,
                period: v & 7,
                ..self.envelope
            };
            Square { envelope: envelope, on: if !envelope.dac() { false } else { self.on }, ..self }
        } else if kind == 3 {
            Square { frequency: ((self.frequency & 0x700) | (v as u16)) as u16, ..self }
        } else {
            let s = Square {
                frequency: ((self.frequency & 0x0FF) | (((v & 7) as u16) << 8u16)) as u16,
                length: Length { enabled: v & 0x40 != 0, ..self.length },
                ..self
            };
            if v & 0x80 != 0 {
                s.triggered()
            } else {
                s
            }
        }
    }

    fn write_register(&mut self, kind: u8, v: u8)
        requires
            old(self).inv(),
        ensures
            final(self).inv(),
            *final(self) == old(self).register_written(kind, v),
    {
        assert((v >> 4u8) & 7 <= 7 && v & 7 <= 7 && v >> 6u8 <= 3 && v >> 4u8 <= 15 && v & 0x3F
            < 64) by {
            lemma_u8(v, 7);
            lemma_u8(v, 0x3F);
            lemma_u8(v >> 4u8, 7);
        }
        let f = self.frequency;
        assert((f & 0x700) | (v as u16) <= 2047) by {
            lemma_u16(f, 0x700);
            lemma_u16(f & 0x700, v as u16);
        }
        assert((f & 0x0FF) | (((v & 7) as u16) << 8u16) <= 2047) by {
            lemma_u16(f, 0x0FF);
            lemma_u8(v, 7);
            lemma_u16((v & 7) as u16, 0);
            lemma_u16(f & 0x0FF, ((v & 7) as u16) << 8u16);
        }
        if kind == 0 {
            self.sweep_period = (v >> 4) & 7;
            self.sweep_negate = v & 0x08 != 0;
            self.sweep_shift = v & 7;
        } else if kind == 1 {
            self.duty = v >> 6;
            self.length.load((v & 0x3F) as u16);
        } else if kind == 2 {
            self.envelope.initial = v >> 4;
            self.envelope.increasing = v & 0x08 != 0;
            self.envelope.period = v & 7;
            if !self.envelope.dac_on() {
                self.on = false;
            }
        } else if kind == 3 {
            self.frequency = (self.frequency & 0x700) | (v as u16);
        } else {
            self.frequency = (self.frequency & 0x0FF) | (((v & 7) as u16) << 8);
            self.length.enabled = v & 0x40 != 0;
            if v & 0x80 != 0 {
                self.trigger();
            }
        }
    }
}

/// A channel's length unit one tick later, and whether the channel is still
/// on: an expiry switches it off.
pub open spec fn length_ticked(length: Length, on: bool) -> (Length, bool) {
    let (l, expired) = length.clocked();
    (l, if expired { false } else { on })
}

impl Square {
    fn tick_length(&mut self)
        requires
            old(self).inv(),
        ensures
            final(self).inv(),
            *final(self) == (Square {
                length: length_ticked(old(self).length, old(self).on).0,
                on: length_ticked(old(self).length, old(self).on).1,
                ..*old(self)
            }),
    {
        if self.length.clock() {
            self.on = false;
        }
    }
}

impl Wave {
    fn tick_length(&mut self)
        requires
            old(self).inv(),
        ensures
            final(self).inv(),
            *final(self) == (Wave {
                length: length_ticked(old(self).length, old(self).on).0,
                on: length_ticked(old(self).length, old(self).on).1,
                ..*old(self)
            }),
    {
        if self.length.clock() {
            self.on = false;
        }
    }
}

impl Noise {
    fn tick_length(&mut self)
        requires
            old(self).inv(),
        ensures
            final(self).inv(),
            *final(self) == (Noise {
                length: length_ticked(old(self).length, old(self).on).0,
                on: length_ticked(old(self).length, old(self).on).1,
                ..*old(self)
            }),
    {
        if self.length.clock() {
            self.on = false;
        }
    }
}

/// The Game Boy / Game Boy Color APU.
#[derive(Debug)]
#[verifier::ext_equal]
pub struct GbDmg {
    pub rate: u32,
    /// Master clocks per output sample.
    pub cycles_per_sample: u32,
    pub square1: Square,
    pub square2: Square,
    pub wave: Wave,
    pub noise: Noise,
    /// The master switch, NR52 bit 7. Clearing it zeroes every register.
    pub power: bool,
    /// Left and right master volumes, 0-7 each (NR50).
    pub volume: [u8; 2],
    /// Which channels reach which side (NR51), indexed `[side][channel]`.
    pub routing: [[bool; 4]; 2],
    pub frame_timer: u32,
    pub frame_step: u8,
}

impl GbDmg {
    /// The chip as built: powered, full master volume, every channel routed
    /// to both sides.
    pub open spec fn defaults(rate: u32) -> GbDmg {
        GbDmg {
            rate: rate,
            cycles_per_sample: CYCLES_PER_SAMPLE,
            square1: Square::fresh(true),
            square2: Square::fresh(false),
            wave: Wave::fresh(spec_array_fill_for_copy_type(0u8)),
            noise: Noise::fresh(),
            power: true,
            volume: [7, 7],
            routing: [[true, true, true, true], [true, true, true, true]],
            frame_timer: 0,
            frame_step: 0,
        }
    }

    /// The chip after NR52 switches it off (`power` false) or back on
    /// (`power` true): every register cleared, master volume and routing to
    /// silence, and only the rate and the wave RAM kept.
    pub open spec fn power_cycled(self, power: bool) -> GbDmg {
        GbDmg {
            power: power,
            volume: [0, 0],
            routing: [[false, false, false, false], [false, false, false, false]],
            wave: Wave::fresh(self.wave.ram),
            ..GbDmg::defaults(self.rate)
        }
    }

    fn built(rate: u32, ram: [u8; 16], power: bool, quiet: bool) -> (chip: GbDmg)
        ensures
            chip.inv(),
            quiet ==> chip == (GbDmg {
                power: power,
                volume: [0, 0],
                routing: [[false, false, false, false], [false, false, false, false]],
                wave: Wave::fresh(ram),
                ..GbDmg::defaults(rate)
            }),
            !quiet ==> chip == (GbDmg { wave: Wave::fresh(ram), power: power, ..GbDmg::defaults(rate) }),
    {
        let r = !quiet;
        GbDmg {
            rate,
            cycles_per_sample: CYCLES_PER_SAMPLE,
            square1: Square::new(true),
            square2: Square::new(false),
            wave: Wave {
                on: false,
                dac_on: false,
                length: Length::new(256),
                volume_shift: 0,
                frequency: 0,
                timer: 0,
                position: 0,
                ram,
            },
            noise: Noise {
                on: false,
                envelope: Envelope { initial: 0, increasing: false, period: 0, volume: 0, timer: 0 },
                length: Length::new(64),
                divisor_code: 0,
                shift_amount: 0,
                short_mode: false,
                timer: 0,
                shift: 0x7FFF,
            },
            power,
            volume: if quiet { [0, 0] } else { [7, 7] },
            routing: [[r, r, r, r], [r, r, r, r]],
            frame_timer: 0,
            frame_step: 0,
        }
    }

    /// A chip with no clock yet; `reset` gives it one.
    pub fn new() -> (chip: GbDmg)
        ensures
            chip == GbDmg::defaults(65_536),
            chip.inv(),
    {
        let chip = Self::built(65_536, [0u8; 16], true, false);
        assert(chip.wave.ram =~= GbDmg::defaults(65_536).wave.ram);
        chip
    }

    pub open spec fn inv(self) -> bool {
        &&& self.square1.inv()
        &&& self.square2.inv()
        &&& self.wave.inv()
        &&& self.noise.inv()
        &&& self.cycles_per_sample == CYCLES_PER_SAMPLE
        &&& self.frame_timer < 0x4000
        &&& self.frame_step <= 7
        &&& self.volume[0] <= 7
        &&& self.volume[1] <= 7
    }

    /// Every channel's length unit one tick later.
    pub open spec fn lengths_ticked(self) -> GbDmg {
        let (l1, o1) = length_ticked(self.square1.length, self.square1.on);
        let (l2, o2) = length_ticked(self.square2.length, self.square2.on);
        let (l3, o3) = length_ticked(self.wave.length, self.wave.on);
        let (l4, o4) = length_ticked(self.noise.length, self.noise.on);
        GbDmg {
            square1: Square { length: l1, on: o1, ..self.square1 },
            square2: Square { length: l2, on: o2, ..self.square2 },
            wave: Wave { length: l3, on: o3, ..self.wave },
            noise: Noise { length: l4, on: o4, ..self.noise },
            ..self
        }
    }

    /// Every envelope one tick later.
    pub open spec fn envelopes_clocked(self) -> GbDmg {
        GbDmg {
            square1: Square { envelope: self.square1.envelope.clocked(), ..self.square1 },
            square2: Square { envelope: self.square2.envelope.clocked(), ..self.square2 },
            noise: Noise { envelope: self.noise.envelope.clocked(), ..self.noise },
            ..self
        }
    }

    /// One frame-sequencer step: lengths on the even steps, the sweep on 2
    /// and 6, the envelopes on 7.
    pub open spec fn frame_clocked(self) -> GbDmg {
        let step = self.frame_step;
        let s0 = GbDmg { frame_step: ((step + 1) as u8) & 7, ..self };
        let s1 = if step % 2 == 0 {
            s0.lengths_ticked()
        } else {
            s0
        };
        let s2 = if step == 2 || step == 6 {
            GbDmg { square1: s1.square1.sweep_clocked(), ..s1 }
        } else {
            s1
        };
        if step == 7 {
            s2.envelopes_clocked()
        } else {
            s2
        }
    }

    fn tick_lengths(&mut self)
        requires
            old(self).inv(),
        ensures
            final(self).inv(),
            *final(self) == old(self).lengths_ticked(),
    {
        self.square1.tick_length();
        self.square2.tick_length();
        self.wave.tick_length();
        self.noise.tick_length();
    }

    fn clock_envelopes(&mut self)
        requires
            old(self).inv(),
        ensures
            final(self).inv(),
            *final(self) == old(self).envelopes_clocked(),
    {
        self.square1.envelope.clock();
        self.square2.envelope.clock();
        self.noise.envelope.clock();
    }

    fn clock_frame(&mut self)
        requires
            old(self).inv(),
        ensures
            final(self).inv(),
            *final(self) == old(self).frame_clocked(),
    {
        let step = self.frame_step;
        assert(((step + 1) as u8) & 7 <= 7) by {
            lemma_u8((step + 1) as u8, 7);
        }
        self.frame_step = (self.frame_step + 1) & 7;
        if step % 2 == 0 {
            self.tick_lengths();
        }
        if step == 2 || step == 6 {
            self.square1.clock_sweep();
        }
        if step == 7 {
            self.clock_envelopes();
        }
    }

    /// Frame-sequencer steps owed by the frame timer, taken one period at a
    /// time.
    pub open spec fn frames_run(self) -> GbDmg
        decreases self.frame_timer,
    {
        if self.frame_timer >= FRAME_PERIOD {
            GbDmg { frame_timer: (self.frame_timer - FRAME_PERIOD) as u32, ..self }.frame_clocked().frames_run()
        } else {
            self
        }
    }

    /// Everything `cycles` master clocks later: each channel clocks, then
    /// the frame sequencer takes the steps the elapsed time owes. A chip
    /// with its power off holds.
    pub open spec fn advanced_by(self, cycles: u32) -> GbDmg {
        if !self.power {
            self
        } else {
            GbDmg {
                square1: self.square1.clocked(cycles),
                square2: self.square2.clocked(cycles),
                wave: self.wave.clocked(cycles),
                noise: self.noise.clocked(cycles),
                frame_timer: (self.frame_timer + cycles) as u32,
                ..self
            }.frames_run()
        }
    }

    pub fn advance(&mut self, cycles: u32)
        requires
            old(self).inv(),
            cycles <= 64,
        ensures
            final(self).inv(),
            *final(self) == old(self).advanced_by(cycles),
    {
        if !self.power {
            return;
        }
        self.square1.clock(cycles);
        self.square2.clock(cycles);
        self.wave.clock(cycles);
        self.noise.clock(cycles);
        self.frame_timer = self.frame_timer + cycles;
        let ghost target = self.frames_run();
        while self.frame_timer >= FRAME_PERIOD
            invariant
                self.square1.inv(),
                self.square2.inv(),
                self.wave.inv(),
                self.noise.inv(),
                self.cycles_per_sample == CYCLES_PER_SAMPLE,
                self.frame_timer < 0x4000 + 64,
                self.frame_step <= 7,
                self.volume[0] <= 7,
                self.volume[1] <= 7,
                self.frames_run() == target,
            decreases self.frame_timer,
        {
            self.frame_timer = self.frame_timer - FRAME_PERIOD;
            self.clock_frame();
        }
    }

    /// What side `side` hears of channel outputs `outs`: the routed ones
    /// summed, times the master volume plus one.
    pub open spec fn side_mix(self, side: int, outs: Seq<i32>) -> int {
        let r = |c: int|
            if self.routing[side][c] {
                outs[c] as int
            } else {
                0
            };
        (r(0) + r(1) + r(2) + r(3)) * (self.volume[side] + 1)
    }

    /// The mixed stereo output before scaling; silence with the power off.
    pub open spec fn mixed(self) -> (int, int) {
        if !self.power {
            (0, 0)
        } else {
            let outs = seq![
                self.square1.output_now(),
                self.square2.output_now(),
                self.wave.output_now(),
                self.noise.output_now(),
            ];
            (self.side_mix(0, outs), self.side_mix(1, outs))
        }
    }

    fn side(&self, side: usize, outs: [i32; 4]) -> (s: i32)
        requires
            side < 2,
            self.volume[side as int] <= 7,
            forall|c: int| 0 <= c < 4 ==> 0 <= #[trigger] outs[c] <= 15,
        ensures
            s == self.side_mix(side as int, outs@),
            0 <= s <= 480,
    {
        let mut mixed: i32 = 0;
        let mut c: usize = 0;
        while c < 4
            invariant
                c <= 4,
                side < 2,
                forall|j: int| 0 <= j < 4 ==> 0 <= #[trigger] outs[j] <= 15,
                0 <= mixed <= 15 * c,
                mixed == ({
                    let r = |j: int|
                        if self.routing[side as int][j] {
                            outs@[j] as int
                        } else {
                            0
                        };
                    if c == 0 {
                        0
                    } else if c == 1 {
                        r(0)
                    } else if c == 2 {
                        r(0) + r(1)
                    } else if c == 3 {
                        r(0) + r(1) + r(2)
                    } else {
                        r(0) + r(1) + r(2) + r(3)
                    }
                }),
            decreases 4 - c,
        {
            if self.routing[side][c] {
                mixed = mixed + outs[c];
            }
            c = c + 1;
        }
        let v = self.volume[side] as i32 + 1;
        assert(mixed * v <= 480) by (nonlinear_arith)
            requires
                0 <= mixed <= 60,
                1 <= v <= 8,
        ;
        assert(0 <= mixed * v) by (nonlinear_arith)
            requires
                0 <= mixed,
                1 <= v,
        ;
        mixed * v
    }

    fn mix(&self) -> (m: (i32, i32))
        requires
            self.inv(),
        ensures
            m.0 == self.mixed().0,
            m.1 == self.mixed().1,
            0 <= m.0 <= 480,
            0 <= m.1 <= 480,
    {
        if !self.power {
            return (0, 0);
        }
        let outs = [self.square1.output(), self.square2.output(), self.wave.output(), self.noise.output()];
        assert(outs@ =~= seq![
            self.square1.output_now(),
            self.square2.output_now(),
            self.wave.output_now(),
            self.noise.output_now(),
        ]);
        (self.side(0, outs), self.side(1, outs))
    }

    /// The chip after a write of `data` to register `addr & 0xFF` (the
    /// offset from `$FF10`, wave RAM at `0x20`-`0x2F`). Wave RAM is writable
    /// with the power off; otherwise only NR52 answers then.
    pub open spec fn written(self, addr: u16, data: u16) -> GbDmg {
        self.register_set((addr & 0xFF) as u8, (data & 0xFF) as u8)
    }

    /// The chip after value `v` lands in register `r`.
    pub open spec fn register_set(self, r: u8, v: u8) -> GbDmg {
        if 0x20 <= r <= 0x2F {
            GbDmg {
                wave: Wave { ram: spec_array_update(self.wave.ram, r - 0x20, v), ..self.wave },
                ..self
            }
        } else if !self.power && r != 0x16 {
            self
        } else if r == 0x00 {
            GbDmg { square1: self.square1.register_written(0, v), ..self }
        } else if 0x01 <= r <= 0x04 {
            GbDmg { square1: self.square1.register_written(r, v), ..self }
        } else if 0x06 <= r <= 0x09 {
            GbDmg { square2: self.square2.register_written((r - 5) as u8, v), ..self }
        } else if r == 0x0A {
            let dac = v & 0x80 != 0;
            GbDmg {
                wave: Wave { dac_on: dac, on: if !dac { false } else { self.wave.on }, ..self.wave },
                ..self
            }
        } else if r == 0x0B {
            GbDmg { wave: Wave { length: self.wave.length.loaded(v as u16), ..self.wave }, ..self }
        } else if r == 0x0C {
            GbDmg { wave: Wave { volume_shift: (v >> 5u8) & 3, ..self.wave }, ..self }
        } else if r == 0x0D {
            GbDmg {
                wave: Wave {
                    frequency: ((self.wave.frequency & 0x700) | (v as u16)) as u16,
                    ..self.wave
                },
                ..self
            }
        } else if r == 0x0E {
            let w = Wave {
                frequency: ((self.wave.frequency & 0x0FF) | (((v & 7) as u16) << 8u16)) as u16,
                length: Length { enabled: v & 0x40 != 0, ..self.wave.length },
                ..self.wave
            };
            GbDmg {
                wave: if v & 0x80 != 0 {
                    w.triggered()
                } else {
                    w
                },
                ..self
            }
        } else if r == 0x10 {
            GbDmg {
                noise: Noise { length: self.noise.length.loaded((v & 0x3F) as u16), ..self.noise },
                ..self
            }
        } else if r == 0x11 {
            let envelope = Envelope {
                initial: v >> 4u8,
                increasing: v & 0x08 != 0,
                period: v & 7,
                ..self.noise.envelope
            };
            GbDmg {
                noise: Noise {
                    envelope: envelope,
                    on: if !envelope.dac() { false } else { self.noise.on },
                    ..self.noise
                },
                ..self
            }
        } else if r == 0x12 {
            GbDmg {
                noise: Noise {
                    shift_amount: v >> 4u8,
                    short_mode: v & 0x08 != 0,
                    divisor_code: v & 7,
                    ..self.noise
                },
                ..self
            }
        } else if r == 0x13 {
            let n = Noise { length: Length { enabled: v & 0x40 != 0, ..self.noise.length }, ..self.noise };
            GbDmg {
                noise: if v & 0x80 != 0 {
                    n.triggered()
                } else {
                    n
                },
                ..self
            }
        } else if r == 0x14 {
            GbDmg { volume: [(v >> 4u8) & 7, v & 7], ..self }
        } else if r == 0x15 {
            GbDmg {
                routing: [
                    [v & 0x10 != 0, v & 0x20 != 0, v & 0x40 != 0, v & 0x80 != 0],
                    [v & 0x01 != 0, v & 0x02 != 0, v & 0x04 != 0, v & 0x08 != 0],
                ],
                ..self
            }
        } else if r == 0x16 {
            let on = v & 0x80 != 0;
            if on && !self.power {
                self.power_cycled(true)
            } else if !on && self.power {
                self.power_cycled(false)
            } else {
                self
            }
        } else {
            self
        }
    }
}

impl ChipState for GbDmg {
    open spec fn inv(&self) -> bool {
        GbDmg::inv(*self)
    }

    open spec fn stepped(&self) -> GbDmg {
        self.advanced_by(CYCLES_PER_SAMPLE)
    }

    /// Each side scaled so that full scale is the chip's peak.
    open spec fn frame(&self) -> (i32, i32) {
        let m = self.stepped().mixed();
        ((m.0 * PEAK / FULL as int) as i32, (m.1 * PEAK / FULL as int) as i32)
    }

    fn next_frame(&mut self) -> (f: (i32, i32)) {
        self.advance(self.cycles_per_sample);
        let (left, right) = self.mix();
        (left * PEAK / FULL, right * PEAK / FULL)
    }
}

impl ChipCore for GbDmg {
    fn reset(&mut self, clock: u32, variant: bool)
        ensures
            *final(self) == GbDmg::defaults(
                if clock / CYCLES_PER_SAMPLE > 1 { clock / CYCLES_PER_SAMPLE } else { 1 },
            ),
    {
        let rate = clock / CYCLES_PER_SAMPLE;
        let chip = Self::built(if rate > 1 { rate } else { 1 }, [0u8; 16], true, false);
        assert(chip.wave.ram =~= GbDmg::defaults(if rate > 1 { rate } else { 1 }).wave.ram);
        *self = chip;
    }

    fn native_rate(&self) -> (rate: u32)
        ensures
            rate == self.rate,
    {
        self.rate
    }

    fn write(&mut self, port: u8, addr: u16, data: u16)
        ensures
            *final(self) == old(self).written(addr, data),
    {
        let v = (data & 0xFF) as u8;
        let r = (addr & 0xFF) as u8;
        if 0x20 <= r && r <= 0x2F {
            self.wave.ram[(r - 0x20) as usize] = v;
        } else if !self.power && r != 0x16 {
        } else if r <= 0x09 {
            self.write_square(r, v);
        } else if r <= 0x0F {
            self.write_wave(r, v);
        } else if r <= 0x13 {
            self.write_noise(r, v);
        } else {
            self.write_control(r, v);
        }
    }
}

impl GbDmg {
    fn write_square(&mut self, r: u8, v: u8)
        requires
            old(self).inv(),
            old(self).power,
            r <= 0x09,
        ensures
            final(self).inv(),
            *final(self) == old(self).register_set(r, v),
    {
        if r == 0x00 {
            self.square1.write_register(0, v);
        } else if 0x01 <= r && r <= 0x04 {
            self.square1.write_register(r, v);
        } else if 0x06 <= r && r <= 0x09 {
            self.square2.write_register(r - 5, v);
        }
    }

    fn write_wave(&mut self, r: u8, v: u8)
        requires
            old(self).inv(),
            old(self).power,
            0x0A <= r <= 0x0F,
        ensures
            final(self).inv(),
            *final(self) == old(self).register_set(r, v),
    {
        assert((v >> 5u8) & 3 <= 3) by {
            lemma_u8(v >> 5u8, 3);
        }
        if r == 0x0A {
            self.wave.dac_on = v & 0x80 != 0;
            if !self.wave.dac_on {
                self.wave.on = false;
            }
        } else if r == 0x0B {
            self.wave.length.load(v as u16);
        } else if r == 0x0C {
            self.wave.volume_shift = (v >> 5) & 3;
        } else if r == 0x0D {
            let f = self.wave.frequency;
            assert((f & 0x700) | (v as u16) <= 2047) by {
                lemma_u16(f, 0x700);
                lemma_u16(f & 0x700, v as u16);
            }
            self.wave.frequency = (self.wave.frequency & 0x700) | (v as u16);
        } else if r == 0x0E {
            let f = self.wave.frequency;
            assert((f & 0x0FF) | (((v & 7) as u16) << 8u16) <= 2047) by {
                lemma_u16(f, 0x0FF);
                lemma_u8(v, 7);
                lemma_u16((v & 7) as u16, 0);
                lemma_u16(f & 0x0FF, ((v & 7) as u16) << 8u16);
            }
            self.wave.frequency = (self.wave.frequency & 0x0FF) | (((v & 7) as u16) << 8);
            self.wave.length.enabled = v & 0x40 != 0;
            if v & 0x80 != 0 {
                self.wave.trigger();
            }
        }
    }

    fn write_noise(&mut self, r: u8, v: u8)
        requires
            old(self).inv(),
            old(self).power,
            0x10 <= r <= 0x13,
        ensures
            final(self).inv(),
            *final(self) == old(self).register_set(r, v),
    {
        assert(v & 7 <= 7 && v >> 4u8 <= 15 && v & 0x3F < 64) by {
            lemma_u8(v, 7);
            lemma_u8(v, 0x3F);
        }
        if r == 0x10 {
            self.noise.length.load((v & 0x3F) as u16);
        } else if r == 0x11 {
            self.noise.envelope.initial = v >> 4;
            self.noise.envelope.increasing = v & 0x08 != 0;
            self.noise.envelope.period = v & 7;
            if !self.noise.envelope.dac_on() {
                self.noise.on = false;
            }
        } else if r == 0x12 {
            self.noise.shift_amount = v >> 4;
            self.noise.short_mode = v & 0x08 != 0;
            self.noise.divisor_code = v & 7;
        } else {
            self.noise.length.enabled = v & 0x40 != 0;
            if v & 0x80 != 0 {
                self.noise.trigger();
            }
        }
    }

    fn write_control(&mut self, r: u8, v: u8)
        requires
            old(self).inv(),
            old(self).power || r == 0x16,
            0x14 <= r,
            !(0x20 <= r <= 0x2F),
        ensures
            final(self).inv(),
            *final(self) == old(self).register_set(r, v),
    {
        assert((v >> 4u8) & 7 <= 7 && v & 7 <= 7) by {
            lemma_u8(v, 7);
            lemma_u8(v >> 4u8, 7);
        }
        if r == 0x14 {
            self.volume = [(v >> 4) & 7, v & 7];
        } else if r == 0x15 {
            self.routing = [
                [v & 0x10 != 0, v & 0x20 != 0, v & 0x40 != 0, v & 0x80 != 0],
                [v & 0x01 != 0, v & 0x02 != 0, v & 0x04 != 0, v & 0x08 != 0],
            ];
        } else if r == 0x16 {
            let on = v & 0x80 != 0;
            if on && !self.power {
                let chip = Self::built(self.rate, self.wave.ram, true, true);
                *self = chip;
            } else if !on && self.power {
                let chip = Self::built(self.rate, self.wave.ram, false, true);
                *self = chip;
            }
        }
    }
}

} // verus!
