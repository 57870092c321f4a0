//! The TI SN76489 and its Sega VDP variant: three square waves and a noise
//! channel.
//!
//! **Registers.** One data port. A byte with bit 7 set latches: `1 cc t dddd`
//! picks channel `cc` (0-2 tone, 3 noise), register type `t` (0 tone/noise,
//! 1 volume) and carries the low four data bits. A byte with bit 7 clear
//! supplies the high six bits of the latched tone period, or replaces a volume
//! or noise register outright.
//!
//! **Tone.** Each channel counts its ten-bit period down and flips its output
//! at zero; a period of zero never expires, so the output stays high.
//!
//! **Noise.** A shift register of the width the file's header names, clocked
//! at one of three fixed divisors or at tone 2's rate, fed back from the
//! parity of its tapped bits (white) or from bit 0 (periodic).
//!
//! **Volume.** Four bits of attenuation, 2 dB a step, 15 being silence.

use vstd::prelude::*;
use crate::bits::{lemma_u16, lemma_u8};

use crate::chip::{ChipCore, ChipSettings, ChipState};
use vstd::array::spec_array_update;

verus! {

/// The chip divides its input clock by 16 to get its internal tick.
pub const CLOCK_DIVIDER: u32 = 16;

/// Peak amplitude of one channel at full volume; four channels together stay
/// under half of full scale.
pub const PEAK: i32 = 4000;

/// Attenuation, 2 dB a step, from full scale to silence:
/// `LEVELS[n] = PEAK × 10^(-2n/20)`, with `LEVELS[15] = 0`.
pub const LEVELS: [i32; 16] = [
    4000, 3177, 2524, 2005, 1592, 1265, 1005, 798, 634, 504, 400, 318, 252, 200, 159, 0,
];

/// The shift register's taps and width when the file does not say: the Sega
/// part's.
pub const DEFAULT_TAPS: u32 = 0x0009;
pub const DEFAULT_WIDTH: u8 = 16;

pub open spec fn level_value(n: int) -> i32 {
    LEVELS@[n]
}

/// Every entry of the attenuation table lies between silence and the peak.
pub proof fn lemma_levels_bounded()
    ensures
        forall|n: int| 0 <= n < 16 ==> 0 <= #[trigger] level_value(n) <= PEAK,
{
}

/// A signed level: `+level` when the output is high, `-level` when low.
pub open spec fn signed_level(high: bool, attenuation: u8) -> i32 {
    let level = level_value((attenuation & 0x0F) as int);
    if high {
        level
    } else {
        (-level) as i32
    }
}

fn signed(high: bool, attenuation: u8) -> (s: i32)
    ensures
        s == signed_level(high, attenuation),
        -PEAK <= s <= PEAK,
{
    proof {
        lemma_levels_bounded();
    }
    assert(attenuation & 0x0F < 16) by {
        lemma_u8(attenuation, 0x0F);
    }
    let level = LEVELS[(attenuation & 0x0F) as usize];
    if high {
        level
    } else {
        -level
    }
}

/// The number of set bits in `x`.
pub open spec fn ones(x: u32) -> nat
    decreases x,
{
    if x == 0 {
        0
    } else {
        (x % 2) as nat + ones(x / 2)
    }
}

/// Whether an odd number of `x`'s bits are set, as 0 or 1.
fn parity(x: u32) -> (p: u32)
    ensures
        p == ones(x) % 2,
{
    let mut v = x;
    let mut p: u32 = 0;
    while v != 0
        invariant
            p <= 1,
            (p + ones(v)) % 2 == ones(x) % 2,
        decreases v,
    {
        p = (p + v % 2) % 2;
        v = v / 2;
    }
    p
}

/// One square-wave channel.
#[derive(Debug, Clone, Copy)]
pub struct Tone {
    /// The ten-bit period, in internal ticks per half-cycle.
    pub period: u16,
    /// Ticks left before the output flips.
    pub counter: i32,
    /// The square wave's current half: `true` is high.
    pub high: bool,
    /// Attenuation, 0 (loudest) to 15 (silent).
    pub attenuation: u8,
}

impl Tone {
    pub open spec fn inv(self) -> bool {
        &&& self.period <= 0x3FF
        &&& 0 <= self.counter <= 0x3FF
    }

    /// The tone one tick later: a non-zero period counts down and flips the
    /// output when the count runs out; a zero period holds the output high.
    pub open spec fn ticked(self) -> Tone {
        if self.period > 0 {
            if self.counter - 1 <= 0 {
                Tone { counter: self.period as i32, high: !self.high, ..self }
            } else {
                Tone { counter: (self.counter - 1) as i32, ..self }
            }
        } else {
            Tone { high: true, ..self }
        }
    }

    /// What the channel contributes.
    pub open spec fn signal(self) -> i32 {
        signed_level(self.high, self.attenuation)
    }

    fn tick(&mut self) -> (s: i32)
        requires
            old(self).inv(),
        ensures
            final(self).inv(),
            *final(self) == old(self).ticked(),
            s == final(self).signal(),
            -PEAK <= s <= PEAK,
    {
        if self.period > 0 {
            self.counter -= 1;
            if self.counter <= 0 {
                self.counter = self.period as i32;
                self.high = !self.high;
            }
        } else {
            self.high = true;
        }
        signed(self.high, self.attenuation)
    }
}

/// The value a reset leaves in a register of `width` bits: its top bit.
pub open spec fn seed_of(width: u8) -> u32 {
    1u32 << ((if width > 0 { (width - 1) as u8 } else { 0u8 }) & 0x1f)
}

/// The noise channel: a shift register clocked like a tone channel.
#[derive(Debug, Clone, Copy)]
pub struct Noise {
    /// The low two bits of the noise register: which divisor clocks it.
    pub rate: u8,
    /// Bit 2 of the noise register: white noise rather than periodic.
    pub white: bool,
    pub counter: i32,
    /// Toggles every expiry; the register shifts on every second one.
    pub half: bool,
    pub shift: u32,
    pub attenuation: u8,
    /// Which bits feed back, from the file's header.
    pub taps: u32,
    /// How many bits of shift register, from the file's header.
    pub width: u8,
}

/// The noise clock's divisor: rate codes 0, 1 and 2 (the low two bits)
/// give the fixed divisors 0x10, 0x20 and 0x40, whatever tone 2 is doing;
/// only code 3 follows tone 2's period.
pub proof fn lemma_noise_divisor(n: Noise, tone2: u16, other: u16)
    ensures
        n.rate % 4 == 0 ==> n.period_for(tone2) == 0x10,
        n.rate % 4 == 1 ==> n.period_for(tone2) == 0x20,
        n.rate % 4 == 2 ==> n.period_for(tone2) == 0x40,
        n.rate % 4 == 3 ==> n.period_for(tone2) == tone2,
        n.rate % 4 != 3 ==> n.period_for(tone2) == n.period_for(other),
{
    lemma_u8(n.rate, 0x03);
}

impl Noise {
    /// The value a reset leaves in the register: the top bit of its width.
    pub fn seed(width: u8) -> (s: u32)
        ensures
            s == seed_of(width),
    {
        let top: u8 = if width > 0 { width - 1 } else { 0 };
        assert(top & 0x1f < 32) by {
            lemma_u8(top, 0x1f);
        }
        1u32 << (top & 0x1f)
    }

    pub open spec fn inv(self) -> bool {
        0 <= self.counter <= 0x3FF
    }

    pub open spec fn period_for(self, tone2: u16) -> u16 {
        if self.rate & 0x03 == 0 {
            0x10
        } else if self.rate & 0x03 == 1 {
            0x20
        } else if self.rate & 0x03 == 2 {
            0x40
        } else {
            tone2
        }
    }

    /// Internal ticks per half-cycle, given tone 2's period for rate 3.
    pub fn period(&self, tone2: u16) -> (p: u16)
        ensures
            p == self.period_for(tone2),
    {
        if self.rate & 0x03 == 0 {
            0x10
        } else if self.rate & 0x03 == 1 {
            0x20
        } else if self.rate & 0x03 == 2 {
            0x40
        } else {
            tone2
        }
    }

    /// The bit fed back on a shift: the parity of the tapped bits for white
    /// noise, bit 0 for periodic.
    pub open spec fn feedback(self) -> u32 {
        if self.white {
            (ones(self.shift & self.taps) % 2) as u32
        } else {
            self.shift & 1
        }
    }

    /// The register after one shift: right by one, the feedback entering at
    /// the top of the declared width.
    pub open spec fn shifted(self) -> u32 {
        let top = ((if self.width > 0 { (self.width - 1) as u8 } else { 0u8 }) & 0x1f) as u32;
        (self.shift >> 1) | (self.feedback() << top)
    }

    pub open spec fn ticked(self, tone2: u16) -> Noise {
        let period = self.period_for(tone2);
        if period > 0 {
            if self.counter - 1 <= 0 {
                let half = !self.half;
                if half {
                    Noise {
                        counter: period as i32,
                        half: half,
                        shift: self.shifted(),
                        ..self
                    }
                } else {
                    Noise { counter: period as i32, half: half, ..self }
                }
            } else {
                Noise { counter: (self.counter - 1) as i32, ..self }
            }
        } else {
            self
        }
    }

    pub open spec fn signal(self) -> i32 {
        signed_level(self.shift & 1 != 0, self.attenuation)
    }

    fn tick(&mut self, tone2: u16) -> (s: i32)
        requires
            old(self).inv(),
            tone2 <= 0x3FF,
        ensures
            final(self).inv(),
            *final(self) == old(self).ticked(tone2),
            s == final(self).signal(),
            -PEAK <= s <= PEAK,
    {
        let period = self.period(tone2);
        if period > 0 {
            self.counter -= 1;
            if self.counter <= 0 {
                self.counter = period as i32;
                self.half = !self.half;
                if self.half {
                    let feedback = if self.white {
                        parity(self.shift & self.taps)
                    } else {
                        self.shift & 1
                    };
                    let w: u8 = if self.width > 0 { self.width - 1 } else { 0 };
                    assert(w & 0x1f < 32) by {
                        lemma_u8(w, 0x1f);
                    }
                    let top = (w & 0x1f) as u32;
                    assert(feedback == self.feedback());
                    self.shift = (self.shift >> 1) | (feedback << top);
                }
            }
        }
        signed(self.shift & 1 != 0, self.attenuation)
    }
}

/// Which register the next data byte completes.
#[derive(Debug, Clone, Copy, PartialEq, Eq)]
pub struct Latch {
    /// 0-2 tone, 3 noise.
    pub channel: u8,
    /// Whether the latched register is the channel's volume.
    pub volume: bool,
}

/// The chip.
#[derive(Debug, Clone)]
#[verifier::ext_equal]
pub struct Sn76489 {
    pub tones: [Tone; 3],
    pub noise: Noise,
    pub latch: Latch,
    pub rate: u32,
}

impl Sn76489 {
    /// The power-on chip: every channel at full attenuation, the noise
    /// register in the Sega shape.
    pub open spec fn powered() -> Sn76489 {
        let tone = Tone { period: 0, counter: 0, high: false, attenuation: 0x0F };
        Sn76489 {
            tones: [tone, tone, tone],
            noise: Noise {
                rate: 0,
                white: false,
                counter: 0,
                half: false,
                shift: seed_of(DEFAULT_WIDTH),
                attenuation: 0x0F,
                taps: DEFAULT_TAPS,
                width: DEFAULT_WIDTH,
            },
            latch: Latch { channel: 0, volume: false },
            rate: 0,
        }
    }

    /// A silent chip, as a real one's volume registers read at power-up.
    pub fn new() -> (chip: Sn76489)
        ensures
            chip == Sn76489::powered(),
            chip.inv(),
    {
        let tone = Tone { period: 0, counter: 0, high: false, attenuation: 0x0F };
        Sn76489 {
            tones: [tone, tone, tone],
            noise: Noise {
                rate: 0,
                white: false,
                counter: 0,
                half: false,
                shift: Noise::seed(DEFAULT_WIDTH),
                attenuation: 0x0F,
                taps: DEFAULT_TAPS,
                width: DEFAULT_WIDTH,
            },
            latch: Latch { channel: 0, volume: false },
            rate: 0,
        }
    }

    pub open spec fn inv(self) -> bool {
        &&& forall|i: int| 0 <= i < 3 ==> #[trigger] self.tones[i].inv()
        &&& self.noise.inv()
        &&& self.latch.channel <= 3
    }

    /// `data` applied to the latched register; `low` marks the four-bit half
    /// of a tone period. Writing the noise register restarts its shift
    /// register, so a drum hit starts from the same noise every time.
    pub open spec fn applied(self, data: u16, low: bool) -> Sn76489 {
        let c = self.latch.channel as int;
        if self.latch.volume {
            if c == 3 {
                Sn76489 { noise: Noise { attenuation: (data & 0x0F) as u8, ..self.noise }, ..self }
            } else {
                Sn76489 {
                    tones: spec_array_update(
                        self.tones,
                        c,
                        Tone { attenuation: (data & 0x0F) as u8, ..self.tones[c] },
                    ),
                    ..self
                }
            }
        } else if c == 3 {
            Sn76489 {
                noise: Noise {
                    rate: (data & 0x03) as u8,
                    white: data & 0x04 != 0,
                    shift: seed_of(self.noise.width),
                    counter: 0,
                    ..self.noise
                },
                ..self
            }
        } else {
            let t = self.tones[c];
            let period = if low {
                (t.period & 0x03F0) | (data & 0x0F)
            } else {
                (t.period & 0x000F) | ((data & 0x3F) << 4)
            };
            Sn76489 { tones: spec_array_update(self.tones, c, Tone { period: period, ..t }), ..self }
        }
    }

    /// One byte on the data port: a latch byte selects the register and
    /// carries its low four bits, a data byte carries six.
    pub open spec fn byte_written(self, byte: u8) -> Sn76489 {
        if byte & 0x80 != 0 {
            let latched = Sn76489 {
                latch: Latch { channel: (byte >> 5) & 0x03, volume: byte & 0x10 != 0 },
                ..self
            };
            latched.applied((byte & 0x0F) as u16, true)
        } else {
            self.applied((byte & 0x3F) as u16, false)
        }
    }

    fn apply(&mut self, data: u16, low: bool)
        requires
            old(self).inv(),
            data <= 0x3F,
        ensures
            final(self).inv(),
            *final(self) == old(self).applied(data, low),
    {
        let channel = self.latch.channel as usize;
        let ghost before = *old(self);
        if self.latch.volume {
            if channel == 3 {
                self.noise.attenuation = (data & 0x0F) as u8;
            } else {
                let mut t = self.tones[channel];
                t.attenuation = (data & 0x0F) as u8;
                self.tones[channel] = t;
            }
        } else if channel == 3 {
            self.noise.rate = (data & 0x03) as u8;
            self.noise.white = data & 0x04 != 0;
            self.noise.shift = Noise::seed(self.noise.width);
            self.noise.counter = 0;
        } else {
            let mut t = self.tones[channel];
            assert(t.inv());
            let p = t.period;
            assert((p & 0x03F0) | (data & 0x0F) <= 0x3FF) by {
                lemma_u16(p, 0x03F0);
                lemma_u16(data, 0x0F);
                lemma_u16(p & 0x03F0, data & 0x0F);
            }
            assert((p & 0x000F) | ((data & 0x3F) << 4) <= 0x3FF) by {
                lemma_u16(p, 0x000F);
                lemma_u16(data, 0x3F);
                lemma_u16(data & 0x3F, 0);
                lemma_u16(p & 0x000F, (data & 0x3F) << 4u16);
            }
            t.period = if low {
                (t.period & 0x03F0) | (data & 0x0F)
            } else {
                (t.period & 0x000F) | ((data & 0x3F) << 4)
            };
            self.tones[channel] = t;
        }
        assert forall|i: int| 0 <= i < 3 implies #[trigger] self.tones[i].inv() by {
            assert(before.tones[i].inv());
            if i != channel {
                assert(self.tones[i] == before.tones[i]);
            } else {
                assert(self.tones[i].period <= 0x3FF);
                assert(self.tones[i].counter == before.tones[i].counter);
            }
        }
    }

    fn write_byte(&mut self, byte: u8)
        requires
            old(self).inv(),
        ensures
            final(self).inv(),
            *final(self) == old(self).byte_written(byte),
    {
        if byte & 0x80 != 0 {
            assert((byte >> 5) & 0x03 <= 3) by {
                lemma_u8(byte >> 5u8, 0x03);
            }
            self.latch = Latch { channel: (byte >> 5) & 0x03, volume: byte & 0x10 != 0 };
            assert(((byte & 0x0F) as u16) <= 0x3F) by {
                lemma_u8(byte, 0x0F);
            }
            self.apply((byte & 0x0F) as u16, true);
        } else {
            assert(((byte & 0x3F) as u16) <= 0x3F) by {
                lemma_u8(byte, 0x3F);
            }
            self.apply((byte & 0x3F) as u16, false);
        }
    }

    /// The chip one frame later: every tone ticks, then the noise ticks
    /// against tone 2's period.
    pub open spec fn ticked(self) -> Sn76489 {
        Sn76489 {
            tones: [self.tones[0].ticked(), self.tones[1].ticked(), self.tones[2].ticked()],
            noise: self.noise.ticked(self.tones[2].period),
            ..self
        }
    }

    /// The mono mix after a tick: the sum of the four channels' signals.
    pub open spec fn mixed(self) -> i32 {
        (self.tones[0].signal() + self.tones[1].signal() + self.tones[2].signal()
            + self.noise.signal()) as i32
    }
}

impl ChipState for Sn76489 {
    open spec fn inv(&self) -> bool {
        Sn76489::inv(*self)
    }

    open spec fn stepped(&self) -> Sn76489 {
        self.ticked()
    }

    open spec fn frame(&self) -> (i32, i32) {
        (self.ticked().mixed(), self.ticked().mixed())
    }

    fn next_frame(&mut self) -> (f: (i32, i32)) {
        let tone2 = self.tones[2].period;
        let mut t = self.tones[0];
        let a = t.tick();
        self.tones[0] = t;
        let mut t = self.tones[1];
        let b = t.tick();
        self.tones[1] = t;
        let mut t = self.tones[2];
        let c = t.tick();
        self.tones[2] = t;
        let d = self.noise.tick(tone2);
        let sample = a + b + c + d;
        (sample, sample)
    }
}

impl ChipCore for Sn76489 {
    fn reset(&mut self, clock: u32, variant: bool)
        ensures
            *final(self) == (Sn76489 {
                rate: if clock / CLOCK_DIVIDER > 1 { clock / CLOCK_DIVIDER } else { 1 },
                ..Sn76489::powered()
            }),
    {
        *self = Self::new();
        let rate = clock / CLOCK_DIVIDER;
        self.rate = if rate > 1 { rate } else { 1 };
    }

    /// Takes the noise shape from the header where it states one: a zero
    /// feedback keeps the taps, a width outside `1..=32` keeps the width, and
    /// the register restarts from the seed of the width in force.
    fn configure(&mut self, settings: &ChipSettings)
        ensures
            final(self).noise.taps == (if settings.sn76489_feedback != 0 {
                settings.sn76489_feedback as u32
            } else {
                old(self).noise.taps
            }),
            final(self).noise.width == (if 1 <= settings.sn76489_shift_width <= 32 {
                settings.sn76489_shift_width
            } else {
                old(self).noise.width
            }),
            final(self).noise.shift == seed_of(final(self).noise.width),
            final(self).tones == old(self).tones,
            final(self).latch == old(self).latch,
            final(self).rate == old(self).rate,
            final(self).noise.counter == old(self).noise.counter,
            final(self).noise.attenuation == old(self).noise.attenuation,
    {
        if settings.sn76489_feedback != 0 {
            self.noise.taps = settings.sn76489_feedback as u32;
        }
        if 1 <= settings.sn76489_shift_width && settings.sn76489_shift_width <= 32 {
            self.noise.width = settings.sn76489_shift_width;
        }
        self.noise.shift = Noise::seed(self.noise.width);
    }

    fn native_rate(&self) -> (rate: u32)
        ensures
            rate == if self.rate > 1 { self.rate } else { 1 },
    {
        if self.rate > 1 {
            self.rate
        } else {
            1
        }
    }

    /// `addr` 0 is the data port. `addr` 1 is the Game Gear stereo mask,
    /// a register of the Game Gear's ASIC rather than of this chip: it is
    /// consumed, so it can never masquerade as a latch byte.
    fn write(&mut self, port: u8, addr: u16, data: u16)
        ensures
            *final(self) == if addr != 0 {
                *old(self)
            } else {
                old(self).byte_written((data & 0xFF) as u8)
            },
    {
        if addr != 0 {
            return;
        }
        self.write_byte((data & 0xFF) as u8);
    }
}

} // verus!
