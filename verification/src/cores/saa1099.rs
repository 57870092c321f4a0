//! The Philips SAA1099: six squares, two noise generators, two envelopes --
//! the SAM Coupé's chip and a scattering of arcade boards.
//!
//! Each tone is `(clock/512) x 2^octave / (511 - N)`; channels 0-2 share
//! noise generator 0 and channels 3-5 generator 1; the two envelope units
//! ride channels 2 and 5. The envelope's finer shapes (the 4-bit resolution
//! toggle, the external clock) are simplified to four families: off, decay,
//! sawtooth, triangle, and the envelopes walk at a fixed ~488 Hz rather than
//! on their channels' frequencies.
//!
//! The register file is 32 entries deep: the address is taken modulo 32.

use vstd::prelude::*;
use crate::bits::{lemma_u16, lemma_u8};

use crate::chip::{ChipCore, ChipState};
use vstd::array::{spec_array_fill_for_copy_type, spec_array_update};

verus! {

/// One frame per 256 clocks: 31.25 kHz at the usual 8 MHz.
pub const CLOCK_DIVIDER: u32 = 256;

/// One tone channel.
#[derive(Debug, Clone, Copy)]
pub struct Channel {
    /// Amplitude nibbles: left low, right high.
    pub amplitude: u8,
    /// The frequency byte `N`: period `511 - N`.
    pub frequency: u8,
    /// Three bits.
    pub octave: u8,
    pub tone_on: bool,
    pub noise_on: bool,
    /// Square phase, 16.16.
    pub phase: u32,
}

/// `a + b` wrapped to 32 bits.
pub open spec fn wrapped(a: u32, b: u32) -> u32 {
    if a + b > u32::MAX {
        (a + b - 0x1_0000_0000) as u32
    } else {
        (a + b) as u32
    }
}

/// The phase step, in 16.16, of a square at frequency byte `frequency` and
/// octave `octave`.
pub open spec fn tone_step(frequency: u8, octave: u8) -> u32 {
    (((((CLOCK_DIVIDER * 65536) / (511 - frequency)) as u32) << octave) >> 9u32) as u32
}

fn step_of(frequency: u8, octave: u8) -> (s: u32)
    requires
        octave <= 7,
    ensures
        s == tone_step(frequency, octave),
        s <= 16_384,
{
    let divisor = 511 - frequency as u32;
    let base = (CLOCK_DIVIDER * 65536) / divisor;
    assert(base <= 65_536) by (nonlinear_arith)
        requires
            base == 16_777_216int / (divisor as int),
            256 <= divisor <= 511,
    ;
    assert((base << octave) >> 9u32 <= 16_384) by (bit_vector)
        requires
            base <= 65_536,
            octave <= 7,
    ;
    (base << octave) >> 9
}

impl Channel {
    pub open spec fn cleared() -> Channel {
        Channel { amplitude: 0, frequency: 0, octave: 0, tone_on: false, noise_on: false, phase: 0 }
    }

    pub open spec fn advanced(self) -> Channel {
        Channel { phase: wrapped(self.phase, tone_step(self.frequency, self.octave)), ..self }
    }
}

/// One envelope unit.
#[derive(Debug, Clone, Copy)]
pub struct EnvelopeUnit {
    pub enabled: bool,
    /// Shape bits from the register.
    pub shape: u8,
    /// Position on the ramp.
    pub step: u8,
    pub count: u32,
}

impl EnvelopeUnit {
    pub open spec fn cleared() -> EnvelopeUnit {
        EnvelopeUnit { enabled: false, shape: 0, step: 0, count: 0 }
    }

    pub open spec fn mode(self) -> u8 {
        (self.shape >> 1u8) & 0x07
    }

    /// The current 0-15 level: full while disabled; held at zero or full;
    /// a decay; a triangle over 32 steps; a sawtooth.
    pub open spec fn spec_level(self) -> u8 {
        let m = self.mode();
        let s = if self.step < 15 { self.step } else { 15 };
        if !self.enabled {
            15
        } else if m == 0 {
            0
        } else if m == 1 {
            15
        } else if m == 2 || m == 3 {
            (15 - s) as u8
        } else if m == 4 || m == 5 {
            if self.step < 16 { self.step } else { (31 - self.step) as u8 }
        } else {
            s
        }
    }

    fn level(&self) -> (l: u8)
        requires
            self.step <= 31,
        ensures
            l == self.spec_level(),
            l <= 15,
    {
        if !self.enabled {
            return 15;
        }
        let m = (self.shape >> 1) & 0x07;
        let s = if self.step < 15 { self.step } else { 15 };
        if m == 0 {
            0
        } else if m == 1 {
            15
        } else if m == 2 || m == 3 {
            15 - s
        } else if m == 4 || m == 5 {
            if self.step < 16 { self.step } else { 31 - self.step }
        } else {
            s
        }
    }

    /// One step along the ramp; a repeating shape starts over at its end,
    /// a single one holds.
    pub open spec fn advanced(self) -> EnvelopeUnit {
        let m = self.mode();
        let repeating = m == 3 || m == 5 || m == 7;
        let span: int = if m == 4 || m == 5 { 32 } else { 16 };
        if self.step + 1 < span {
            EnvelopeUnit { step: (self.step + 1) as u8, ..self }
        } else if repeating {
            EnvelopeUnit { step: 0, ..self }
        } else {
            self
        }
    }

    /// One frame: every `threshold` frames the ramp takes a step.
    pub open spec fn ticked(self, threshold: u32) -> EnvelopeUnit {
        if self.count + 1 >= threshold {
            EnvelopeUnit { count: 0, ..self }.advanced()
        } else {
            EnvelopeUnit { count: (self.count + 1) as u32, ..self }
        }
    }

    fn tick(&mut self, threshold: u32)
        requires
            old(self).step <= 31,
            old(self).count <= threshold,
            threshold < 0x1000_0000,
        ensures
            *final(self) == old(self).ticked(threshold),
            final(self).step <= 31,
            final(self).count <= threshold,
    {
        self.count += 1;
        if self.count >= threshold {
            self.count = 0;
            let m = (self.shape >> 1) & 0x07;
            let repeating = m == 3 || m == 5 || m == 7;
            let span: u8 = if m == 4 || m == 5 { 32 } else { 16 };
            if self.step + 1 < span {
                self.step += 1;
            } else if repeating {
                self.step = 0;
            }
        }
    }
}

/// The noise generator's 17-bit shift register one step on.
pub open spec fn lfsr_stepped(lfsr: u32) -> u32 {
    ((lfsr << 1u32) | (((lfsr >> 10u32) ^ (lfsr >> 2u32)) & 1)) & 0x1FFFF
}

/// The SAA1099.
#[derive(Debug)]
pub struct Saa1099 {
    pub rate: u32,
    pub channels: [Channel; 6],
    /// Noise generators: rate select, shift register and phase each.
    pub noise_rate: [u8; 2],
    pub noise: [u32; 2],
    pub noise_phase: [u32; 2],
    pub envelopes: [EnvelopeUnit; 2],
    /// The master enable.
    pub all_enabled: bool,
}

impl Saa1099 {
    pub open spec fn cleared(rate: u32) -> Saa1099 {
        Saa1099 {
            rate,
            channels: spec_array_fill_for_copy_type(Channel::cleared()),
            noise_rate: spec_array_fill_for_copy_type(0u8),
            noise: spec_array_fill_for_copy_type(1u32),
            noise_phase: spec_array_fill_for_copy_type(0u32),
            envelopes: spec_array_fill_for_copy_type(EnvelopeUnit::cleared()),
            all_enabled: false,
        }
    }

    fn clear(rate: u32) -> (chip: Saa1099)
        ensures
            chip == Saa1099::cleared(rate),
    {
        let ch = Channel { amplitude: 0, frequency: 0, octave: 0, tone_on: false, noise_on: false, phase: 0 };
        let env = EnvelopeUnit { enabled: false, shape: 0, step: 0, count: 0 };
        Saa1099 {
            rate,
            channels: [ch; 6],
            noise_rate: [0u8; 2],
            noise: [1u32; 2],
            noise_phase: [0u32; 2],
            envelopes: [env; 2],
            all_enabled: false,
        }
    }

    /// A chip with no clock yet; `reset` gives it one.
    pub fn new() -> (chip: Saa1099)
        ensures
            chip == Saa1099::cleared(31_250),
    {
        Self::clear(31_250)
    }

    pub open spec fn inv(self) -> bool {
        &&& forall|i: int| 0 <= i < 6 ==> #[trigger] self.channels[i].octave <= 7
        &&& forall|u: int| 0 <= u < 2 ==> #[trigger] self.noise_rate[u] <= 3
        &&& forall|u: int| 0 <= u < 2 ==> #[trigger] self.noise_phase[u] < 65536
        &&& forall|u: int| 0 <= u < 2 ==> #[trigger] self.envelopes[u].step <= 31
        &&& forall|u: int| 0 <= u < 2 ==> #[trigger] self.envelopes[u].count <= self.rate / 488
    }

    /// Noise generator `unit`'s phase step: rates 0-2 are fixed dividers,
    /// rate 3 follows its group's first channel.
    pub open spec fn noise_step(self, unit: int) -> u32 {
        let r = self.noise_rate[unit];
        if r == 0 {
            16_384
        } else if r == 1 {
            8192
        } else if r == 2 {
            4096
        } else {
            let ch = self.channels[unit * 3];
            tone_step(ch.frequency, ch.octave)
        }
    }

    /// Noise generator `unit`'s `(phase, register)` one frame on: each whole
    /// period its phase passes shifts the register.
    pub open spec fn noise_advanced(self, unit: int) -> (u32, u32) {
        let p = self.noise_phase[unit] + self.noise_step(unit);
        if p >= 65536 {
            ((p - 65536) as u32, lfsr_stepped(self.noise[unit]))
        } else {
            (p as u32, self.noise[unit])
        }
    }

    fn advance_noise(&mut self, unit: usize)
        requires
            old(self).inv(),
            unit < 2,
        ensures
            final(self).inv(),
            *final(self) == (Saa1099 {
                noise_phase: spec_array_update(old(self).noise_phase, unit as int, old(self).noise_advanced(unit as int).0),
                noise: spec_array_update(old(self).noise, unit as int, old(self).noise_advanced(unit as int).1),
                ..*old(self)
            }),
    {
        assert(self.channels[unit as int * 3].octave <= 7);
        let r = self.noise_rate[unit];
        let step: u32 = if r == 0 {
            16_384
        } else if r == 1 {
            8192
        } else if r == 2 {
            4096
        } else {
            let ch = self.channels[unit * 3];
            step_of(ch.frequency, ch.octave)
        };
        assert(step == old(self).noise_step(unit as int));
        let p = self.noise_phase[unit] + step;
        if p >= 65536 {
            self.noise_phase[unit] = p - 65536;
            let lfsr = self.noise[unit];
            self.noise[unit] = ((lfsr << 1u32) | (((lfsr >> 10u32) ^ (lfsr >> 2u32)) & 1)) & 0x1FFFF;
        } else {
            self.noise_phase[unit] = p;
        }
        assert(self.noise_phase =~= spec_array_update(old(self).noise_phase, unit as int, old(self).noise_advanced(unit as int).0));
        assert(self.noise =~= spec_array_update(old(self).noise, unit as int, old(self).noise_advanced(unit as int).1));
        assert forall|u: int| 0 <= u < 2 implies #[trigger] self.noise_phase[u] < 65536 by {
            assert(old(self).noise_phase[u] < 65536);
        }
    }

    /// The generators and envelopes one frame on, before the squares.
    pub open spec fn prepared(self) -> Saa1099 {
        let (p0, n0) = self.noise_advanced(0);
        let (p1, n1) = self.noise_advanced(1);
        let threshold = self.rate / 488;
        Saa1099 {
            noise_phase: [p0, p1],
            noise: [n0, n1],
            envelopes: [self.envelopes[0].ticked(threshold), self.envelopes[1].ticked(threshold)],
            ..self
        }
    }

    /// One frame on: with the master enable off nothing moves.
    pub open spec fn advanced(self) -> Saa1099 {
        if !self.all_enabled {
            self
        } else {
            let s = self.prepared();
            let c = |i: int| s.channels[i].advanced();
            Saa1099 { channels: [c(0), c(1), c(2), c(3), c(4), c(5)], ..s }
        }
    }

    /// Channel `i`'s `(left, right)` in a state whose generators have
    /// already moved: its square and its group's noise bit through the
    /// mixer, times its amplitude nibbles and its envelope.
    pub open spec fn voice(self, i: int) -> (int, int) {
        let ch = self.channels[i];
        let square = ch.phase & 0x10000 != 0;
        let noise = self.noise[i / 3] & 1 != 0;
        let high = if ch.tone_on && ch.noise_on {
            square != noise
        } else if ch.tone_on {
            square
        } else if ch.noise_on {
            noise
        } else {
            false
        };
        let env: int = if i == 2 {
            self.envelopes[0].spec_level() as int
        } else if i == 5 {
            self.envelopes[1].spec_level() as int
        } else {
            15
        };
        if !high {
            (0, 0)
        } else {
            ((ch.amplitude & 0x0F) * env * 32 / 15, (ch.amplitude >> 4u8) * env * 32 / 15)
        }
    }

    /// The first `n` channels' summed voices.
    pub open spec fn voices(self, n: int) -> (int, int)
        decreases n,
    {
        if n <= 0 {
            (0, 0)
        } else {
            let (l, r) = self.voices(n - 1);
            let (a, b) = self.voice(n - 1);
            (l + a, r + b)
        }
    }

    fn voice_out(&self, i: usize) -> (o: (i32, i32))
        requires
            i < 6,
            forall|u: int| 0 <= u < 2 ==> #[trigger] self.envelopes[u].step <= 31,
        ensures
            o.0 == self.voice(i as int).0,
            o.1 == self.voice(i as int).1,
            0 <= o.0 <= 480,
            0 <= o.1 <= 480,
    {
        let ch = self.channels[i];
        let square = ch.phase & 0x10000 != 0;
        let noise = self.noise[i / 3] & 1 != 0;
        let high = if ch.tone_on && ch.noise_on {
            square != noise
        } else if ch.tone_on {
            square
        } else if ch.noise_on {
            noise
        } else {
            false
        };
        if !high {
            return (0, 0);
        }
        let env: i32 = if i == 2 {
            self.envelopes[0].level() as i32
        } else if i == 5 {
            self.envelopes[1].level() as i32
        } else {
            15
        };
        let a = ch.amplitude;
        assert(a & 0x0F <= 15 && a >> 4u8 <= 15) by {
            lemma_u8(a, 0x0F);
        }
        let l = (ch.amplitude & 0x0F) as i32;
        let r = (ch.amplitude >> 4) as i32;
        assert(0 <= l * env * 32 / 15 <= 480) by (nonlinear_arith)
            requires
                0 <= l <= 15,
                0 <= env <= 15,
        ;
        assert(0 <= r * env * 32 / 15 <= 480) by (nonlinear_arith)
            requires
                0 <= r <= 15,
                0 <= env <= 15,
        ;
        (l * env * 32 / 15, r * env * 32 / 15)
    }

    fn tick(&mut self) -> (o: (i32, i32))
        requires
            old(self).inv(),
        ensures
            final(self).inv(),
            *final(self) == old(self).advanced(),
            o.0 == (if old(self).all_enabled { 16 * old(self).advanced().voices(6).0 } else { 0 }),
            o.1 == (if old(self).all_enabled { 16 * old(self).advanced().voices(6).1 } else { 0 }),
    {
        if !self.all_enabled {
            return (0, 0);
        }
        let ghost start = *self;
        self.advance_noise(0);
        self.advance_noise(1);
        let threshold = self.rate / 488;
        let mut env = self.envelopes[0];
        env.tick(threshold);
        self.envelopes[0] = env;
        let mut env = self.envelopes[1];
        env.tick(threshold);
        self.envelopes[1] = env;
        assert(self.noise_phase =~= start.prepared().noise_phase);
        assert(self.noise =~= start.prepared().noise);
        assert(self.envelopes =~= start.prepared().envelopes);
        let ghost prepared = *self;
        let mut i: usize = 0;
        while i < 6
            invariant
                i <= 6,
                prepared == start.prepared(),
                start.inv(),
                self.rate == prepared.rate,
                self.noise_rate == prepared.noise_rate,
                self.noise == prepared.noise,
                self.noise_phase == prepared.noise_phase,
                self.envelopes == prepared.envelopes,
                self.all_enabled == prepared.all_enabled,
                forall|j: int| 0 <= j < i ==> #[trigger] self.channels[j] == prepared.channels[j].advanced(),
                forall|j: int| i <= j < 6 ==> #[trigger] self.channels[j] == prepared.channels[j],
            decreases 6 - i,
        {
            assert(start.channels[i as int].octave <= 7);
            let mut ch = self.channels[i];
            ch.phase = ch.phase.wrapping_add(step_of(ch.frequency, ch.octave));
            self.channels[i] = ch;
            i = i + 1;
        }
        assert(self.channels =~= start.advanced().channels);
        assert forall|u: int| 0 <= u < 2 implies #[trigger] self.envelopes[u].step <= 31 by {
            assert(start.envelopes[u].step <= 31);
        }
        let mut left: i32 = 0;
        let mut right: i32 = 0;
        let mut i: usize = 0;
        while i < 6
            invariant
                i <= 6,
                *self == start.advanced(),
                forall|u: int| 0 <= u < 2 ==> #[trigger] self.envelopes[u].step <= 31,
                (left as int, right as int) == self.voices(i as int),
                0 <= left <= 480 * i,
                0 <= right <= 480 * i,
            decreases 6 - i,
        {
            let (l, r) = self.voice_out(i);
            left = left + l;
            right = right + r;
            i = i + 1;
        }
        assert forall|j: int| 0 <= j < 6 implies #[trigger] self.channels[j].octave <= 7 by {
            assert(start.channels[j].octave <= 7);
        }
        assert forall|u: int| 0 <= u < 2 implies #[trigger] self.noise_rate[u] <= 3 by {
            assert(start.noise_rate[u] <= 3);
        }
        assert forall|u: int| 0 <= u < 2 implies #[trigger] self.envelopes[u].count <= self.rate / 488 by {
            assert(start.envelopes[u].count <= start.rate / 488);
        }
        (left * 16, right * 16)
    }

    /// The chip after byte `d` lands in register `r` (`0x00`-`0x1F`).
    pub open spec fn register_set(self, r: int, d: u8) -> Saa1099 {
        if 0 <= r <= 0x05 {
            Saa1099 {
                channels: spec_array_update(self.channels, r, Channel { amplitude: d, ..self.channels[r] }),
                ..self
            }
        } else if 0x08 <= r <= 0x0D {
            Saa1099 {
                channels: spec_array_update(
                    self.channels,
                    r - 8,
                    Channel { frequency: d, ..self.channels[r - 8] },
                ),
                ..self
            }
        } else if 0x10 <= r <= 0x12 {
            let base = (r - 0x10) * 2;
            let c0 = Channel { octave: d & 0x07, ..self.channels[base] };
            let c1 = Channel { octave: (d >> 4u8) & 0x07, ..self.channels[base + 1] };
            Saa1099 {
                channels: spec_array_update(spec_array_update(self.channels, base, c0), base + 1, c1),
                ..self
            }
        } else if r == 0x14 {
            let c = |i: int| Channel { tone_on: d & (1u8 << (i as u8)) != 0, ..self.channels[i] };
            Saa1099 { channels: [c(0), c(1), c(2), c(3), c(4), c(5)], ..self }
        } else if r == 0x15 {
            let c = |i: int| Channel { noise_on: d & (1u8 << (i as u8)) != 0, ..self.channels[i] };
            Saa1099 { channels: [c(0), c(1), c(2), c(3), c(4), c(5)], ..self }
        } else if r == 0x16 {
            Saa1099 { noise_rate: [d & 0x03, (d >> 4u8) & 0x03], ..self }
        } else if r == 0x18 || r == 0x19 {
            let u = r - 0x18;
            let e = EnvelopeUnit { enabled: d & 0x80 != 0, shape: d & 0x0F, step: 0, ..self.envelopes[u] };
            Saa1099 { envelopes: spec_array_update(self.envelopes, u, e), ..self }
        } else if r == 0x1C {
            let c = |i: int| Channel { phase: 0, ..self.channels[i] };
            Saa1099 {
                all_enabled: d & 0x01 != 0,
                channels: if d & 0x02 != 0 {
                    [c(0), c(1), c(2), c(3), c(4), c(5)]
                } else {
                    self.channels
                },
                ..self
            }
        } else {
            self
        }
    }

    fn write_masks(&mut self, r: u16, d: u8)
        requires
            old(self).inv(),
            r == 0x14 || r == 0x15 || r == 0x1C,
        ensures
            final(self).inv(),
            *final(self) == old(self).register_set(r as int, d),
    {
        let ghost start = *self;
        if r == 0x1C {
            self.all_enabled = d & 0x01 != 0;
            if d & 0x02 == 0 {
                return;
            }
        }
        let mut i: usize = 0;
        while i < 6
            invariant
                i <= 6,
                r == 0x14 || r == 0x15 || r == 0x1C,
                r == 0x1C ==> d & 0x02 != 0,
                self.rate == start.rate,
                self.noise_rate == start.noise_rate,
                self.noise == start.noise,
                self.noise_phase == start.noise_phase,
                self.envelopes == start.envelopes,
                self.all_enabled == (if r == 0x1C { d & 0x01 != 0 } else { start.all_enabled }),
                forall|j: int| 0 <= j < i ==> #[trigger] self.channels[j] == (if r == 0x14 {
                    Channel { tone_on: d & (1u8 << (j as u8)) != 0, ..start.channels[j] }
                } else if r == 0x15 {
                    Channel { noise_on: d & (1u8 << (j as u8)) != 0, ..start.channels[j] }
                } else {
                    Channel { phase: 0, ..start.channels[j] }
                }),
                forall|j: int| i <= j < 6 ==> #[trigger] self.channels[j] == start.channels[j],
            decreases 6 - i,
        {
            let mut ch = self.channels[i];
            if r == 0x14 {
                ch.tone_on = d & (1u8 << (i as u8)) != 0;
            } else if r == 0x15 {
                ch.noise_on = d & (1u8 << (i as u8)) != 0;
            } else {
                ch.phase = 0;
            }
            self.channels[i] = ch;
            i = i + 1;
        }
        assert(self.channels =~= start.register_set(r as int, d).channels);
        assert forall|j: int| 0 <= j < 6 implies #[trigger] self.channels[j].octave <= 7 by {
            assert(start.channels[j].octave <= 7);
        }
    }
}

impl Default for Saa1099 {
    fn default() -> (chip: Saa1099)
        ensures
            chip == Saa1099::cleared(31_250),
    {
        Self::new()
    }
}

impl ChipState for Saa1099 {
    open spec fn inv(&self) -> bool {
        Saa1099::inv(*self)
    }

    open spec fn stepped(&self) -> Saa1099 {
        self.advanced()
    }

    open spec fn frame(&self) -> (i32, i32) {
        if self.all_enabled {
            ((16 * self.advanced().voices(6).0) as i32, (16 * self.advanced().voices(6).1) as i32)
        } else {
            (0, 0)
        }
    }

    fn next_frame(&mut self) -> (f: (i32, i32)) {
        self.tick()
    }
}

impl ChipCore for Saa1099 {
    fn reset(&mut self, clock: u32, variant: bool)
        ensures
            *final(self) == Saa1099::cleared(
                if clock / CLOCK_DIVIDER > 1 { clock / CLOCK_DIVIDER } else { 1 },
            ),
    {
        let rate = clock / CLOCK_DIVIDER;
        *self = Self::clear(if rate > 1 { rate } else { 1 });
    }

    fn native_rate(&self) -> (rate: u32)
        ensures
            rate == self.rate,
    {
        self.rate
    }

    fn write(&mut self, port: u8, addr: u16, data: u16)
        ensures
            *final(self) == old(self).register_set((addr & 0x1F) as int, (data & 0xFF) as u8),
    {
        let d = (data & 0xFF) as u8;
        let r = addr & 0x1F;
        assert(addr & 0x1F <= 0x1F) by {
            lemma_u16(addr, 0x1F);
        }
        assert(d & 0x07 <= 7 && (d >> 4u8) & 0x07 <= 7 && d & 0x03 <= 3 && (d >> 4u8) & 0x03 <= 3) by {
            lemma_u8(d, 0x07);
            lemma_u8(d, 0x03);
            lemma_u8(d >> 4u8, 0x07);
            lemma_u8(d >> 4u8, 0x03);
        }
        if r <= 0x05 {
            let mut ch = self.channels[r as usize];
            ch.amplitude = d;
            self.channels[r as usize] = ch;
        } else if 0x08 <= r && r <= 0x0D {
            let mut ch = self.channels[(r - 8) as usize];
            ch.frequency = d;
            self.channels[(r - 8) as usize] = ch;
        } else if 0x10 <= r && r <= 0x12 {
            let base = ((r - 0x10) * 2) as usize;
            let mut ch = self.channels[base];
            ch.octave = d & 0x07;
            self.channels[base] = ch;
            let mut ch = self.channels[base + 1];
            ch.octave = (d >> 4) & 0x07;
            self.channels[base + 1] = ch;
        } else if r == 0x14 || r == 0x15 || r == 0x1C {
            self.write_masks(r, d);
        } else if r == 0x16 {
            self.noise_rate = [d & 0x03, (d >> 4) & 0x03];
        } else if r == 0x18 || r == 0x19 {
            let u = (r - 0x18) as usize;
            let mut env = self.envelopes[u];
            env.enabled = d & 0x80 != 0;
            env.shape = d & 0x0F;
            env.step = 0;
            self.envelopes[u] = env;
        }
        assert forall|j: int| 0 <= j < 6 implies #[trigger] self.channels[j].octave <= 7 by {
            assert(old(self).channels[j].octave <= 7);
        }
        assert forall|u: int| 0 <= u < 2 implies #[trigger] self.envelopes[u].count <= self.rate / 488 by {
            assert(old(self).envelopes[u].count <= old(self).rate / 488);
        }
    }
}

} // verus!
