//! The General Instrument AY-3-8910 and Yamaha's YM2149 clone of it: three
//! squares, a noise generator and one envelope shared between them.
//!
//! This chip is also the SSG section of every OPN part, so the register
//! interface ([`Ay8910::write_register`], [`Ay8910::tick`],
//! [`Ay8910::output`]) is public for hosts that clock it themselves.
//!
//! The Yamaha part's DAC has 32 levels at 1.5 dB a step and the GI part's 16
//! are the odd entries of the same curve, so one table serves both.

use vstd::prelude::*;
use crate::bits::{lemma_u8};

use crate::chip::{ChipCore, ChipState};
use vstd::array::spec_array_update;

verus! {

/// The chip divides its input clock by 8 to get its internal tick.
pub const CLOCK_DIVIDER: u32 = 8;

/// Peak amplitude of one channel at full volume; three channels reach three
/// times this.
pub const PEAK: i32 = 8_000;

/// The DAC curve: 32 levels, 1.5 dB a step, silence at the bottom.
///
/// `LEVELS[n] = PEAK × 10^(-1.5 × (31 - n) / 20)`, with `LEVELS[0] = 0`
/// because the bottom step is off rather than merely quiet.
pub const LEVELS: [i32; 32] = [
    0, 45, 53, 64, 76, 90, 107, 127, 151, 179, 213, 253, 301, 357, 425, 505, 600, 713, 847, 1007,
    1197, 1423, 1691, 2010, 2388, 2839, 3374, 4009, 4765, 5664, 6731, 8000,
];

/// The curve as a function, so contracts can speak of its entries.
pub open spec fn level_value(n: int) -> i32 {
    LEVELS@[n]
}

/// One square-wave channel.
#[derive(Debug, Clone, Copy)]
pub struct Tone {
    /// Twelve bits. Zero behaves as one.
    pub period: u16,
    pub counter: u16,
    pub output: bool,
    /// Four bits, or "follow the envelope" when `use_envelope`.
    pub volume: u8,
    pub use_envelope: bool,
    /// From the mixer register, kept the right way round (the chip's bits
    /// disable).
    pub tone_on: bool,
    pub noise_on: bool,
}

impl Tone {
    /// A silent channel with every field cleared.
    pub open spec fn cleared() -> Tone {
        Tone {
            period: 0,
            counter: 0,
            output: false,
            volume: 0,
            use_envelope: false,
            tone_on: false,
            noise_on: false,
        }
    }

    fn new() -> (t: Tone)
        ensures
            t == Tone::cleared(),
    {
        Tone {
            period: 0,
            counter: 0,
            output: false,
            volume: 0,
            use_envelope: false,
            tone_on: false,
            noise_on: false,
        }
    }

    /// The tone one internal tick later: count down to the reload, then flip.
    /// A period of `n` is exactly `n` ticks to a flip; zero behaves as one.
    pub open spec fn clocked(self) -> Tone {
        if self.counter > 1 {
            Tone { counter: (self.counter - 1) as u16, ..self }
        } else {
            Tone {
                counter: if self.period > 1 { self.period } else { 1 },
                output: !self.output,
                ..self
            }
        }
    }

    fn clock(&mut self)
        ensures
            *final(self) == old(self).clocked(),
    {
        if self.counter > 1 {
            self.counter -= 1;
        } else {
            self.counter = if self.period > 1 { self.period } else { 1 };
            self.output = !self.output;
        }
    }

    /// Whether the channel's gate is open: the tone and noise enables are
    /// ORed with their signals, so a channel with neither on is always open.
    pub open spec fn gate_open(self, noise: bool) -> bool {
        (self.output || !self.tone_on) && (noise || !self.noise_on)
    }

    fn gate(&self, noise: bool) -> (open: bool)
        ensures
            open == self.gate_open(noise),
    {
        (self.output || !self.tone_on) && (noise || !self.noise_on)
    }
}

/// The noise generator: a 17-bit shift register tapped at bits 0 and 3.
#[derive(Debug, Clone, Copy)]
pub struct Noise {
    /// Five bits.
    pub period: u8,
    pub counter: u8,
    pub shift: u32,
}

impl Noise {
    /// The power-on generator; any non-zero seed works, zero never feeds back.
    pub open spec fn seeded() -> Noise {
        Noise { period: 0, counter: 0, shift: 1 }
    }

    fn new() -> (n: Noise)
        ensures
            n == Noise::seeded(),
    {
        Noise { period: 0, counter: 0, shift: 1 }
    }

    /// The generator one tick later: on each reload the register shifts
    /// right, feeding bit 0 XOR bit 3 in at bit 16.
    pub open spec fn clocked(self) -> Noise {
        if self.counter > 1 {
            Noise { counter: (self.counter - 1) as u8, ..self }
        } else {
            Noise {
                counter: if self.period > 1 { self.period } else { 1 },
                shift: (self.shift >> 1) | ((((self.shift ^ (self.shift >> 3)) & 1)) << 16),
                ..self
            }
        }
    }

    fn clock(&mut self)
        ensures
            *final(self) == old(self).clocked(),
    {
        if self.counter > 1 {
            self.counter -= 1;
        } else {
            self.counter = if self.period > 1 { self.period } else { 1 };
            let feedback = (self.shift ^ (self.shift >> 3)) & 1;
            self.shift = (self.shift >> 1) | (feedback << 16);
        }
    }

    pub open spec fn bit(self) -> bool {
        self.shift & 1 != 0
    }

    pub fn output(&self) -> (b: bool)
        ensures
            b == self.bit(),
    {
        self.shift & 1 != 0
    }
}

/// The shared envelope generator.
#[derive(Debug, Clone, Copy)]
pub struct Envelope {
    /// Sixteen bits.
    pub period: u16,
    pub counter: u32,
    /// The shape's four bits: continue, attack, alternate, hold.
    pub shape: u8,
    /// Where in the current ramp, 0-31 on the fine scale.
    pub step: u8,
    /// Whether the ramp is rising.
    pub rising: bool,
    /// Stopped at one end.
    pub holding: bool,
}

impl Envelope {
    pub open spec fn cleared() -> Envelope {
        Envelope { period: 0, counter: 0, shape: 0, step: 0, rising: false, holding: false }
    }

    /// A fresh envelope: every field clear.
    pub fn new() -> (e: Envelope)
        ensures
            e == Envelope::cleared(),
    {
        Envelope { period: 0, counter: 0, shape: 0, step: 0, rising: false, holding: false }
    }

    pub open spec fn inv(self) -> bool {
        self.step <= 31
    }

    /// A shape write restarts the envelope: bit 2 (`attack`) decides whether
    /// the first ramp rises.
    pub open spec fn shaped(self, shape: u8) -> Envelope {
        Envelope {
            shape: shape & 0x0F,
            step: 0,
            holding: false,
            rising: (shape & 0x0F) & 0x04 != 0,
            counter: 0,
            ..self
        }
    }

    /// Restarts the envelope with a new shape, as a write to register 13 does.
    pub fn set_shape(&mut self, shape: u8)
        ensures
            *final(self) == old(self).shaped(shape),
    {
        self.shape = shape & 0x0F;
        self.step = 0;
        self.holding = false;
        self.rising = self.shape & 0x04 != 0;
        self.counter = 0;
    }

    /// The envelope one step later.
    ///
    /// Within a ramp the step counts up. At the end of a ramp: with `continue`
    /// clear it stops at silence; otherwise `alternate` turns the direction
    /// round and `hold` stops it at the end it reached.
    pub open spec fn clocked(self) -> Envelope {
        if self.holding {
            self
        } else if self.step < 31 {
            Envelope { step: (self.step + 1) as u8, ..self }
        } else if self.shape & 0x08 == 0 {
            Envelope { holding: true, rising: false, step: 31, ..self }
        } else {
            let rising = if self.shape & 0x02 != 0 { !self.rising } else { self.rising };
            if self.shape & 0x01 != 0 {
                Envelope { rising: rising, holding: true, step: 31, ..self }
            } else {
                Envelope { rising: rising, step: 0, ..self }
            }
        }
    }

    /// One envelope step.
    pub fn clock(&mut self)
        requires
            old(self).inv(),
        ensures
            final(self).inv(),
            *final(self) == old(self).clocked(),
    {
        if self.holding {
            return;
        }
        if self.step < 31 {
            self.step += 1;
            return;
        }
        if self.shape & 0x08 == 0 {
            self.holding = true;
            self.rising = false;
            self.step = 31;
            return;
        }
        if self.shape & 0x02 != 0 {
            self.rising = !self.rising;
        }
        if self.shape & 0x01 != 0 {
            self.holding = true;
            self.step = 31;
        } else {
            self.step = 0;
        }
    }

    /// The level on the 32-step scale.
    pub open spec fn level_now(self) -> u8 {
        if self.rising {
            self.step
        } else {
            (31 - self.step) as u8
        }
    }

    /// The level on the 32-step scale.
    pub fn level(&self) -> (l: u8)
        requires
            self.inv(),
        ensures
            l == self.level_now(),
            l <= 31,
    {
        if self.rising {
            self.step
        } else {
            31 - self.step
        }
    }

    /// Whether the envelope has stopped at one end.
    pub fn is_holding(&self) -> (h: bool)
        ensures
            h == self.holding,
    {
        self.holding
    }

    /// Where in the current ramp the envelope is.
    pub fn current_step(&self) -> (s: u8)
        ensures
            s == self.step,
    {
        self.step
    }
}

/// The AY-3-8910 / YM2149.
#[derive(Debug)]
#[verifier::ext_equal]
pub struct Ay8910 {
    pub rate: u32,
    pub tones: [Tone; 3],
    pub noise: Noise,
    pub envelope: Envelope,
    /// Halves the internal tick for the noise generator and the envelope.
    pub half_tick: bool,
    /// Counts half-ticks per envelope step.
    pub envelope_divider: u16,
    /// The last value written to each register.
    pub registers: [u8; 16],
}

/// The level a channel addresses on the 32-step curve: the envelope's if it
/// follows the envelope, off for volume 0, else the odd entry `2v + 1`.
pub open spec fn channel_level(tone: Tone, envelope: u8) -> u8 {
    if tone.use_envelope {
        envelope
    } else if tone.volume == 0 {
        0
    } else {
        ((tone.volume << 1) | 1) as u8
    }
}

/// What one channel contributes to the mix.
pub open spec fn channel_output(tone: Tone, noise: bool, envelope: u8) -> i32 {
    if !tone.gate_open(noise) {
        0
    } else {
        level_value((channel_level(tone, envelope) & 31) as int)
    }
}

impl Ay8910 {
    /// The power-on state at internal rate `rate`.
    pub open spec fn powered(rate: u32) -> Ay8910 {
        Ay8910 {
            rate: rate,
            tones: [Tone::cleared(), Tone::cleared(), Tone::cleared()],
            noise: Noise::seeded(),
            envelope: Envelope::cleared(),
            half_tick: false,
            envelope_divider: 0,
            registers: [0u8, 0, 0, 0, 0, 0, 0, 0, 0, 0, 0, 0, 0, 0, 0, 0],
        }
    }

    fn power_on(rate: u32) -> (chip: Ay8910)
        ensures
            chip == Ay8910::powered(rate),
    {
        let chip = Ay8910 {
            rate: rate,
            tones: [Tone::new(), Tone::new(), Tone::new()],
            noise: Noise::new(),
            envelope: Envelope::new(),
            half_tick: false,
            envelope_divider: 0,
            registers: [0u8; 16],
        };
        assert(chip.registers =~= Ay8910::powered(rate).registers);
        assert(chip.tones =~= Ay8910::powered(rate).tones);
        chip
    }

    /// A chip with no clock yet; `reset` gives it one.
    pub fn new() -> (chip: Ay8910)
        ensures
            chip == Ay8910::powered(44_100),
            chip.inv(),
    {
        Self::power_on(44_100)
    }

    pub open spec fn inv(self) -> bool {
        &&& self.envelope.inv()
        &&& self.envelope_divider < 0xFFFF
    }

    /// The chip after a write of `value` to register `register & 0x0F`.
    pub open spec fn register_written(self, register: u8, value: u8) -> Ay8910 {
        let r = register & 0x0F;
        let s = Ay8910 { registers: spec_array_update(self.registers, r as int, value), ..self };
        s.decoded(r, value)
    }

    /// What a write to register `r` (already reduced to four bits) does
    /// beyond storing the byte.
    pub open spec fn decoded(self, r: u8, value: u8) -> Ay8910 {
        if r == 0 || r == 2 || r == 4 {
            let c = (r / 2) as int;
            let t = self.tones[c];
            let t2 = Tone { period: ((t.period & 0x0F00) | (value as u16)) as u16, ..t };
            Ay8910 { tones: spec_array_update(self.tones, c, t2), ..self }
        } else if r == 1 || r == 3 || r == 5 {
            let c = (r / 2) as int;
            let t = self.tones[c];
            let t2 = Tone {
                period: ((t.period & 0x00FF) | (((value & 0x0F) as u16) << 8)) as u16,
                ..t
            };
            Ay8910 { tones: spec_array_update(self.tones, c, t2), ..self }
        } else if r == 6 {
            Ay8910 { noise: Noise { period: value & 0x1F, ..self.noise }, ..self }
        } else if r == 7 {
            let t = |c: int|
                Tone {
                    tone_on: value & ((1u8 << c as u8) as u8) == 0,
                    noise_on: value & ((0x08u8 << c as u8) as u8) == 0,
                    ..self.tones[c]
                };
            Ay8910 { tones: [t(0), t(1), t(2)], ..self }
        } else if 8 <= r <= 10 {
            let c = (r - 8) as int;
            let t = self.tones[c];
            let t2 = Tone { volume: value & 0x0F, use_envelope: value & 0x10 != 0, ..t };
            Ay8910 { tones: spec_array_update(self.tones, c, t2), ..self }
        } else if r == 11 {
            Ay8910 {
                envelope: Envelope {
                    period: ((self.envelope.period & 0xFF00) | (value as u16)) as u16,
                    ..self.envelope
                },
                ..self
            }
        } else if r == 12 {
            Ay8910 {
                envelope: Envelope {
                    period: ((self.envelope.period & 0x00FF) | ((value as u16) << 8)) as u16,
                    ..self.envelope
                },
                ..self
            }
        } else if r == 13 {
            Ay8910 { envelope: self.envelope.shaped(value), ..self }
        } else {
            self
        }
    }

    /// Applies a register write. Public because hosts that embed this chip
    /// as their SSG section drive it directly.
    pub fn write_register(&mut self, register: u8, value: u8)
        requires
            old(self).inv(),
        ensures
            final(self).inv(),
            *final(self) == old(self).register_written(register, value),
    {
        let raw = register;
        let register = raw & 0x0F;
        assert(raw & 0x0F < 16) by {
            lemma_u8(raw, 0x0F);
        }
        self.registers[register as usize] = value;
        if register == 0 || register == 2 || register == 4 {
            let channel = (register / 2) as usize;
            let mut t = self.tones[channel];
            t.period = (t.period & 0x0F00) | (value as u16);
            self.tones[channel] = t;
        } else if register == 1 || register == 3 || register == 5 {
            let channel = (register / 2) as usize;
            let mut t = self.tones[channel];
            t.period = (t.period & 0x00FF) | (((value & 0x0F) as u16) << 8);
            self.tones[channel] = t;
        } else if register == 6 {
            self.noise.period = value & 0x1F;
        } else if register == 7 {
            let mut channel: u8 = 0;
            while channel < 3
                invariant
                    channel <= 3,
                    forall|c: int|
                        0 <= c < channel ==> self.tones[c] == (Tone {
                            tone_on: value & ((1u8 << c as u8) as u8) == 0,
                            noise_on: value & ((0x08u8 << c as u8) as u8) == 0,
                            ..old(self).tones[c]
                        }),
                    forall|c: int| channel <= c < 3 ==> self.tones[c] == old(self).tones[c],
                    self.rate == old(self).rate,
                    self.noise == old(self).noise,
                    self.envelope == old(self).envelope,
                    self.half_tick == old(self).half_tick,
                    self.envelope_divider == old(self).envelope_divider,
                    self.registers == spec_array_update(old(self).registers, register as int, value),
                decreases 3 - channel,
            {
                let mut t = self.tones[channel as usize];
                t.tone_on = value & (1u8 << channel) == 0;
                t.noise_on = value & (0x08u8 << channel) == 0;
                self.tones[channel as usize] = t;
                channel += 1;
            }
        } else if 8 <= register && register <= 10 {
            let channel = (register - 8) as usize;
            let mut t = self.tones[channel];
            t.volume = value & 0x0F;
            t.use_envelope = value & 0x10 != 0;
            self.tones[channel] = t;
        } else if register == 11 {
            self.envelope.period = (self.envelope.period & 0xFF00) | (value as u16);
        } else if register == 12 {
            self.envelope.period = (self.envelope.period & 0x00FF) | ((value as u16) << 8);
        } else if register == 13 {
            self.envelope.set_shape(value);
        }
    }

    /// The chip one internal tick later: every tone clocks; every second
    /// tick the noise generator clocks and the envelope divider counts, the
    /// envelope stepping each time the divider reaches its period.
    pub open spec fn ticked(self) -> Ay8910 {
        let tones = [self.tones[0].clocked(), self.tones[1].clocked(), self.tones[2].clocked()];
        let half = !self.half_tick;
        if !half {
            Ay8910 { tones: tones, half_tick: half, ..self }
        } else {
            let divider = self.envelope_divider + 1;
            let period = if self.envelope.period > 1 { self.envelope.period } else { 1 };
            if divider >= period {
                Ay8910 {
                    tones: tones,
                    half_tick: half,
                    noise: self.noise.clocked(),
                    envelope_divider: 0,
                    envelope: self.envelope.clocked(),
                    ..self
                }
            } else {
                Ay8910 {
                    tones: tones,
                    half_tick: half,
                    noise: self.noise.clocked(),
                    envelope_divider: divider as u16,
                    ..self
                }
            }
        }
    }

    /// One internal tick of everything, for a host clocking the chip itself.
    pub fn tick(&mut self)
        requires
            old(self).inv(),
        ensures
            final(self).inv(),
            *final(self) == old(self).ticked(),
    {
        let mut t = self.tones[0];
        t.clock();
        self.tones[0] = t;
        let mut t = self.tones[1];
        t.clock();
        self.tones[1] = t;
        let mut t = self.tones[2];
        t.clock();
        self.tones[2] = t;
        self.half_tick = !self.half_tick;
        if !self.half_tick {
            return;
        }
        self.noise.clock();
        self.envelope_divider += 1;
        let period = if self.envelope.period > 1 { self.envelope.period } else { 1 };
        if self.envelope_divider >= period {
            self.envelope_divider = 0;
            self.envelope.clock();
        }
    }

    /// The mono mix of the current state: each channel whose gate is open
    /// contributes its level on the curve.
    pub open spec fn mixed(self) -> i32 {
        let noise = self.noise.bit();
        let env = self.envelope.level_now();
        (channel_output(self.tones[0], noise, env) + channel_output(self.tones[1], noise, env)
            + channel_output(self.tones[2], noise, env)) as i32
    }

    fn channel(tone: Tone, noise: bool, envelope: u8) -> (s: i32)
        requires
            envelope <= 31,
        ensures
            s == channel_output(tone, noise, envelope),
            0 <= s <= PEAK,
    {
        proof {
            lemma_levels_bounded();
        }
        if !tone.gate(noise) {
            return 0;
        }
        let level = if tone.use_envelope {
            envelope
        } else if tone.volume == 0 {
            0
        } else {
            (tone.volume << 1) | 1
        };
        assert(level & 31 < 32) by {
            lemma_u8(level, 31);
        }
        LEVELS[(level & 31) as usize]
    }

    /// The mixed output of the current state, mono.
    pub fn output(&self) -> (s: i32)
        requires
            self.inv(),
        ensures
            s == self.mixed(),
            0 <= s <= 3 * PEAK,
    {
        let noise = self.noise.output();
        let envelope = self.envelope.level();
        let a = Self::channel(self.tones[0], noise, envelope);
        let b = Self::channel(self.tones[1], noise, envelope);
        let c = Self::channel(self.tones[2], noise, envelope);
        a + b + c
    }

    /// The internal tick rate for a given input clock.
    pub fn tick_rate(clock: u32) -> (rate: u32)
        ensures
            rate == clock / CLOCK_DIVIDER,
    {
        clock / CLOCK_DIVIDER
    }
}

/// Every entry of the curve lies between silence and one channel's peak.
pub proof fn lemma_levels_bounded()
    ensures
        forall|n: int| 0 <= n < 32 ==> 0 <= #[trigger] level_value(n) <= PEAK,
{
}

/// Merging a byte into either half of a 16-bit field, as arithmetic.
proof fn lemma_byte_halves(x: u16, w: u16)
    by (bit_vector)
    requires
        w < 256,
    ensures
        ((x & 0x00FF) | (w << 8u16)) as int == (x % 256) + w * 256,
        ((x & 0xFF00) | w) as int == (x / 256) * 256 + w,
        ((x & 0x0F00) | w) as int == ((x / 256) % 16) * 256 + w,
        ((x & 0x00FF) | ((w & 0x0F) << 8u16)) as int == (x % 256) + (w % 16) * 256,
{
}

/// The envelope's effective period: a period of 0 steps as 1.
pub open spec fn envelope_pace(chip: Ay8910) -> int {
    if chip.envelope.period > 1 {
        chip.envelope.period as int
    } else {
        1
    }
}

/// The period registers: a write to register 11 sets the envelope period's
/// low byte and a write to register 12 its high byte, each keeping the other
/// byte; the tone registers `2c` and `2c + 1` set tone `c`'s low byte and
/// its high four bits the same way. Nothing else about the envelope moves.
pub proof fn lemma_period_registers(chip: Ay8910, v: u8, c: int)
    requires
        0 <= c < 3,
    ensures
        chip.register_written(11, v).envelope.period == (chip.envelope.period / 256) * 256 + v,
        chip.register_written(12, v).envelope.period == (chip.envelope.period % 256) + v * 256,
        chip.register_written(11, v).envelope.shape == chip.envelope.shape,
        chip.register_written(12, v).envelope.shape == chip.envelope.shape,
        chip.register_written(11, v).envelope.step == chip.envelope.step,
        chip.register_written(12, v).envelope.step == chip.envelope.step,
        chip.register_written((2 * c) as u8, v).tones[c].period == ((chip.tones[c].period / 256)
            % 16) * 256 + v,
        chip.register_written((2 * c + 1) as u8, v).tones[c].period == (chip.tones[c].period % 256)
            + (v % 16) * 256,
{
    let w = v as u16;
    lemma_byte_halves(chip.envelope.period, w);
    lemma_byte_halves(chip.tones[c].period, w);
    lemma_u8(v, 0x0F);
    assert(((v & 0x0F) as u16) == w & 0x0F) by (bit_vector)
        requires
            w == v as u16,
    ;
    lemma_u8(11, 0);
    lemma_u8(12, 0);
    lemma_u8((2 * c) as u8, 0);
    lemma_u8((2 * c + 1) as u8, 0);
    assert(((2 * c) as u8) & 0x0F == 2 * c);
    assert(((2 * c + 1) as u8) & 0x0F == 2 * c + 1);
}

/// The envelope is paced by its period: it moves only on every second
/// internal tick, and then only when the divider reaches the period (taken
/// as at least 1), after which the divider starts over; otherwise the
/// divider counts one up and the envelope holds.
pub proof fn lemma_envelope_paced_by_period(chip: Ay8910)
    ensures
        chip.half_tick ==> chip.ticked().envelope == chip.envelope,
        chip.half_tick ==> chip.ticked().envelope_divider == chip.envelope_divider,
        !chip.half_tick && chip.envelope_divider + 1 >= envelope_pace(chip) ==> chip.ticked().envelope
            == chip.envelope.clocked(),
        !chip.half_tick && chip.envelope_divider + 1 >= envelope_pace(chip)
            ==> chip.ticked().envelope_divider == 0,
        !chip.half_tick && chip.envelope_divider + 1 < envelope_pace(chip) ==> chip.ticked().envelope
            == chip.envelope,
        !chip.half_tick && chip.envelope_divider + 1 < envelope_pace(chip)
            ==> chip.ticked().envelope_divider == chip.envelope_divider + 1,
{
}

/// The chip is mono: every frame it renders carries the same sample on both
/// sides.
pub proof fn lemma_frames_are_mono(chip: Ay8910)
    ensures
        chip.frame().0 == chip.frame().1,
{
}

impl ChipState for Ay8910 {
    open spec fn inv(&self) -> bool {
        Ay8910::inv(*self)
    }

    /// One frame is one internal tick.
    open spec fn stepped(&self) -> Ay8910 {
        self.ticked()
    }

    /// Mono: both sides carry the mix after the tick.
    open spec fn frame(&self) -> (i32, i32) {
        (self.ticked().mixed(), self.ticked().mixed())
    }

    fn next_frame(&mut self) -> (f: (i32, i32)) {
        self.tick();
        let sample = self.output();
        (sample, sample)
    }
}

impl ChipCore for Ay8910 {
    /// `variant` is unused: the AY and YM parts answer identically.
    fn reset(&mut self, clock: u32, variant: bool)
        ensures
            *final(self) == Ay8910::powered(
                if clock / CLOCK_DIVIDER > 1 { clock / CLOCK_DIVIDER } else { 1 },
            ),
    {
        let rate = Self::tick_rate(clock);
        *self = Self::power_on(if rate > 1 { rate } else { 1 });
    }

    fn native_rate(&self) -> (rate: u32)
        ensures
            rate == self.rate,
    {
        self.rate
    }

    fn write(&mut self, port: u8, addr: u16, data: u16)
        ensures
            *final(self) == old(self).register_written((addr & 0xFF) as u8, (data & 0xFF) as u8),
    {
        self.write_register((addr & 0xFF) as u8, (data & 0xFF) as u8);
    }
}

} // verus!
