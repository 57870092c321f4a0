//! The Virtual Boy's VSU: five wavetable channels and a noise channel.
//!
//! The VGM stores VSU addresses divided by four: the five 32-entry
//! wavetables at `0x000`-`0x09F`, and the channel files at `0x100 + channel
//! * 0x10`. Channel 6 is the noise channel; channel 5's sweep/modulation unit
//! is not modelled, nor is the automatic shut-off interval.

use vstd::prelude::*;
use crate::bits::{lemma_u16, lemma_u32, lemma_u8};

use crate::chip::{div_trunc, ChipCore, ChipState};
use vstd::array::{spec_array_fill_for_copy_type, spec_array_update};

verus! {

/// One frame per 120 clocks: ~41.7 kHz at the 5.0 MHz master.
pub const CLOCK_DIVIDER: u32 = 120;

/// One channel.
#[derive(Debug, Clone, Copy)]
pub struct Channel {
    pub enabled: bool,
    /// Volume nibbles: left high, right low.
    pub volume: u8,
    /// Eleven bits: the period is `2048 - frequency`.
    pub frequency: u16,
    /// The envelope: level, direction, interval, enable, repeat.
    pub env_level: u8,
    pub env_grow: bool,
    pub env_interval: u8,
    pub env_on: bool,
    pub env_repeat: bool,
    pub env_count: u32,
    /// Which of the five wavetables this channel reads.
    pub wave: u8,
    /// Wave phase, 16.16 over the 32 samples.
    pub phase: u32,
}

/// `a + b` wrapped to 32 bits.
pub open spec fn wrapped(a: u32, b: u32) -> u32 {
    if a + b > u32::MAX {
        (a + b - 0x1_0000_0000) as u32
    } else {
        (a + b) as u32
    }
}

/// Frames per envelope interval unit, ~15.4 ms.
pub open spec fn env_unit(rate: u32) -> u32 {
    if rate / 65 > 1 {
        rate / 65
    } else {
        1
    }
}

impl Channel {
    pub open spec fn cleared() -> Channel {
        Channel {
            enabled: false,
            volume: 0,
            frequency: 0,
            env_level: 0,
            env_grow: false,
            env_interval: 0,
            env_on: false,
            env_repeat: false,
            env_count: 0,
            wave: 0,
            phase: 0,
        }
    }

    pub open spec fn inv(self, rate: u32) -> bool {
        &&& self.frequency <= 0x7FF
        &&& self.env_level <= 15
        &&& self.env_interval <= 7
        &&& self.env_count <= env_unit(rate) * (self.env_interval + 1)
    }

    /// The envelope one frame on: every `unit * (interval + 1)` frames the
    /// level takes a step in its direction, and at its end wraps when it
    /// repeats.
    pub open spec fn enveloped(self, unit: u32) -> Channel {
        if !self.env_on {
            self
        } else if self.env_count + 1 >= unit * (self.env_interval + 1) {
            let level: u8 = if self.env_grow {
                if self.env_level < 15 {
                    (self.env_level + 1) as u8
                } else if self.env_repeat {
                    0
                } else {
                    self.env_level
                }
            } else if self.env_level > 0 {
                (self.env_level - 1) as u8
            } else if self.env_repeat {
                15
            } else {
                self.env_level
            };
            Channel { env_count: 0, env_level: level, ..self }
        } else {
            Channel { env_count: (self.env_count + 1) as u32, ..self }
        }
    }

    /// The wave phase's step per frame.
    pub open spec fn step(self) -> u32 {
        ((((CLOCK_DIVIDER * 65536) / (2048 - self.frequency) / 32) as u32) << 5u32) as u32
    }
}

/// The VSU.
#[derive(Debug)]
pub struct Vsu {
    pub rate: u32,
    pub channels: [Channel; 6],
    /// Five 32-entry tables of 6-bit samples.
    pub waves: [[u8; 32]; 5],
    /// The noise shift register.
    pub noise: u32,
}

impl Vsu {
    pub open spec fn cleared(rate: u32) -> Vsu {
        Vsu {
            rate,
            channels: spec_array_fill_for_copy_type(Channel::cleared()),
            waves: spec_array_fill_for_copy_type(spec_array_fill_for_copy_type(0u8)),
            noise: 1,
        }
    }

    fn clear(rate: u32) -> (chip: Vsu)
        ensures
            chip == Vsu::cleared(rate),
    {
        let c = Channel {
            enabled: false,
            volume: 0,
            frequency: 0,
            env_level: 0,
            env_grow: false,
            env_interval: 0,
            env_on: false,
            env_repeat: false,
            env_count: 0,
            wave: 0,
            phase: 0,
        };
        Vsu { rate, channels: [c; 6], waves: [[0u8; 32]; 5], noise: 1 }
    }

    /// A chip with no clock yet; `reset` gives it one.
    pub fn new() -> (chip: Vsu)
        ensures
            chip == Vsu::cleared(41_667),
    {
        Self::clear(41_667)
    }

    pub open spec fn inv(self) -> bool {
        &&& forall|i: int| 0 <= i < 6 ==> #[trigger] self.channels[i].inv(self.rate)
        &&& forall|t: int, i: int| 0 <= t < 5 && 0 <= i < 32 ==> #[trigger] self.waves[t][i] <= 63
    }

    /// The noise register one step on.
    pub open spec fn noise_stepped(self) -> u32 {
        ((self.noise << 1u32) | (((self.noise >> 7u32) ^ (self.noise >> 14u32)) & 1)) & 0x7FFF
    }

    /// Channel `i` one frame on (with the noise already stepped) and the
    /// sample it sounds: the noise bit for channel 6, its wavetable for the
    /// others, centred.
    pub open spec fn played(self, i: int) -> (Channel, int) {
        let ch = self.channels[i].enveloped(env_unit(self.rate));
        if i == 5 {
            (ch, if self.noise & 1 != 0 { 31 } else { -32 })
        } else {
            let phase = wrapped(ch.phase, ch.step());
            let position = ((phase >> 16u32) % 32) as int;
            let table: int = if ch.wave < 4 { ch.wave as int } else { 4 };
            (Channel { phase, ..ch }, self.waves[table][position] - 32)
        }
    }

    /// Channel `i`'s `(left, right)`: sample, volume nibble and envelope
    /// level, halved.
    pub open spec fn voice(self, i: int) -> (int, int) {
        if !self.channels[i].enabled {
            (0, 0)
        } else {
            let (ch, s) = self.played(i);
            (
                div_trunc(s * (ch.volume >> 4u8) * ch.env_level, 2),
                div_trunc(s * (ch.volume & 0x0F) * ch.env_level, 2),
            )
        }
    }

    pub open spec fn voices(self, n: int) -> (int, int)
        decreases n,
    {
        if n <= 0 {
            (0, 0)
        } else {
            let (l, r) = self.voices(n - 1);
            let (a, b) = self.voice(n - 1);
            (l + a, r + b)
        }
    }

    /// The state the channels read: the noise one step on.
    pub open spec fn prepared(self) -> Vsu {
        Vsu { noise: self.noise_stepped(), ..self }
    }

    pub open spec fn advanced(self) -> Vsu {
        let s = self.prepared();
        let c = |i: int| if s.channels[i].enabled { s.played(i).0 } else { s.channels[i] };
        Vsu { channels: [c(0), c(1), c(2), c(3), c(4), c(5)], ..s }
    }

    #[verifier::rlimit(30)]
    fn play(&mut self, i: usize) -> (o: (i32, i32))
        requires
            old(self).inv(),
            i < 6,
        ensures
            final(self).inv(),
            *final(self) == (Vsu {
                channels: spec_array_update(
                    old(self).channels,
                    i as int,
                    if old(self).channels[i as int].enabled {
                        old(self).played(i as int).0
                    } else {
                        old(self).channels[i as int]
                    },
                ),
                ..*old(self)
            }),
            o.0 == old(self).voice(i as int).0,
            o.1 == old(self).voice(i as int).1,
            -3600 <= o.0 <= 3600,
            -3600 <= o.1 <= 3600,
    {
        let mut ch = self.channels[i];
        assert(old(self).channels[i as int].inv(old(self).rate));
        if !ch.enabled {
            assert(self.channels =~= spec_array_update(old(self).channels, i as int, ch));
            return (0, 0);
        }
        let r = self.rate / 65;
        let unit: u32 = if r > 1 { r } else { 1 };
        if ch.env_on {
            assert(unit * (ch.env_interval as u32 + 1) <= unit * 8) by (nonlinear_arith)
                requires
                    ch.env_interval <= 7,
            ;
            assert(unit * 8 <= 0x2000_0000) by (nonlinear_arith)
                requires
                    unit <= 0x400_0000,
            ;
            ch.env_count += 1;
            if ch.env_count >= unit * (ch.env_interval as u32 + 1) {
                ch.env_count = 0;
                if ch.env_grow {
                    if ch.env_level < 15 {
                        ch.env_level += 1;
                    } else if ch.env_repeat {
                        ch.env_level = 0;
                    }
                } else if ch.env_level > 0 {
                    ch.env_level -= 1;
                } else if ch.env_repeat {
                    ch.env_level = 15;
                }
            }
        }
        let sample: i32 = if i == 5 {
            if self.noise & 1 != 0 { 31 } else { -32 }
        } else {
            let step = (CLOCK_DIVIDER * 65536) / (2048 - ch.frequency as u32) / 32;
            assert(step << 5u32 <= 7_864_320) by {
                lemma_u32(step, 0);
            }
            ch.phase = ch.phase.wrapping_add(step << 5);
            let position = ((ch.phase >> 16) % 32) as usize;
            let table: usize = if ch.wave < 4 { ch.wave as usize } else { 4 };
            assert(self.waves[table as int][position as int] <= 63);
            self.waves[table][position] as i32 - 32
        };
        self.channels[i] = ch;
        let level = ch.env_level as i32;
        let v = ch.volume;
        assert(v >> 4u8 <= 15 && v & 0x0F <= 15) by {
            lemma_u8(v, 0x0F);
        }
        let vl = (ch.volume >> 4) as i32;
        let vr = (ch.volume & 0x0F) as i32;
        assert(-480 <= sample * vl <= 480 && -480 <= sample * vr <= 480) by (nonlinear_arith)
            requires
                -32 <= sample <= 31,
                0 <= vl <= 15,
                0 <= vr <= 15,
        ;
        assert(-7200 <= sample * vl * level <= 7200) by (nonlinear_arith)
            requires
                -32 <= sample <= 31,
                0 <= vl <= 15,
                0 <= level <= 15,
        ;
        assert(-7200 <= sample * vr * level <= 7200) by (nonlinear_arith)
            requires
                -32 <= sample <= 31,
                0 <= vr <= 15,
                0 <= level <= 15,
        ;
        assert(self.channels =~= spec_array_update(old(self).channels, i as int, old(self).played(i as int).0));
        assert forall|j: int| 0 <= j < 6 implies #[trigger] self.channels[j].inv(self.rate) by {
            assert(old(self).channels[j].inv(old(self).rate));
        }
        (sample * vl * level / 2, sample * vr * level / 2)
    }

    fn tick(&mut self) -> (o: (i32, i32))
        requires
            old(self).inv(),
        ensures
            final(self).inv(),
            *final(self) == old(self).advanced(),
            o.0 == 2 * old(self).prepared().voices(6).0,
            o.1 == 2 * old(self).prepared().voices(6).1,
    {
        let ghost start = *self;
        let n = self.noise;
        self.noise = ((n << 1u32) | (((n >> 7u32) ^ (n >> 14u32)) & 1)) & 0x7FFF;
        let ghost prepared = *self;
        let mut left: i32 = 0;
        let mut right: i32 = 0;
        let mut i: usize = 0;
        while i < 6
            invariant
                i <= 6,
                prepared == start.prepared(),
                prepared.inv(),
                self.inv(),
                *self == (Vsu { channels: self.channels, ..prepared }),
                forall|j: int|
                    0 <= j < i ==> #[trigger] self.channels[j] == (if prepared.channels[j].enabled {
                        prepared.played(j).0
                    } else {
                        prepared.channels[j]
                    }),
                forall|j: int| i <= j < 6 ==> #[trigger] self.channels[j] == prepared.channels[j],
                (left as int, right as int) == prepared.voices(i as int),
                -3600 * i <= left <= 3600 * i,
                -3600 * i <= right <= 3600 * i,
            decreases 6 - i,
        {
            assert(self.played(i as int) == prepared.played(i as int));
            assert(self.voice(i as int) == prepared.voice(i as int));
            let (l, r) = self.play(i);
            left = left + l;
            right = right + r;
            i = i + 1;
        }
        assert(self.channels =~= start.advanced().channels);
        (left * 2, right * 2)
    }

    /// The chip after byte `d` lands at `addr`: a wavetable entry (6 bits),
    /// or a channel register.
    pub open spec fn register_set(self, addr: u16, d: u8) -> Vsu {
        if addr <= 0x009F {
            let t = (addr >> 5u16) as int;
            Vsu {
                waves: spec_array_update(
                    self.waves,
                    t,
                    spec_array_update(self.waves[t], (addr & 0x1F) as int, d & 0x3F),
                ),
                ..self
            }
        } else if 0x0100 <= addr <= 0x015F {
            let i = ((addr >> 4u16) & 0x07) as int;
            let c = self.channels[i];
            let r = addr & 0x0F;
            let n = if r == 0 {
                Channel { enabled: d & 0x80 != 0, ..c }
            } else if r == 1 {
                Channel { volume: d, ..c }
            } else if r == 2 {
                Channel { frequency: ((c.frequency & 0x0700) | (d as u16)) as u16, ..c }
            } else if r == 3 {
                Channel { frequency: ((c.frequency & 0x00FF) | (((d & 0x07) as u16) << 8u16)) as u16, ..c }
            } else if r == 4 {
                Channel {
                    env_level: d >> 4u8,
                    env_grow: d & 0x08 != 0,
                    env_interval: d & 0x07,
                    env_count: 0,
                    ..c
                }
            } else if r == 5 {
                Channel { env_on: d & 0x01 != 0, env_repeat: d & 0x02 != 0, ..c }
            } else if r == 6 {
                Channel { wave: d & 0x07, ..c }
            } else {
                c
            };
            Vsu { channels: spec_array_update(self.channels, i, n), ..self }
        } else {
            self
        }
    }
}

impl Default for Vsu {
    fn default() -> (chip: Vsu)
        ensures
            chip == Vsu::cleared(41_667),
    {
        Self::new()
    }
}

impl ChipState for Vsu {
    open spec fn inv(&self) -> bool {
        Vsu::inv(*self)
    }

    open spec fn stepped(&self) -> Vsu {
        self.advanced()
    }

    open spec fn frame(&self) -> (i32, i32) {
        ((2 * self.prepared().voices(6).0) as i32, (2 * self.prepared().voices(6).1) as i32)
    }

    fn next_frame(&mut self) -> (f: (i32, i32)) {
        self.tick()
    }
}

impl ChipCore for Vsu {
    fn reset(&mut self, clock: u32, variant: bool)
        ensures
            *final(self) == Vsu::cleared(
                if clock / CLOCK_DIVIDER > 1 { clock / CLOCK_DIVIDER } else { 1 },
            ),
    {
        let rate = clock / CLOCK_DIVIDER;
        *self = Self::clear(if rate > 1 { rate } else { 1 });
        assert forall|t: int, i: int| 0 <= t < 5 && 0 <= i < 32 implies #[trigger] self.waves[t][i] <= 63 by {
        }
    }

    fn native_rate(&self) -> (rate: u32)
        ensures
            rate == self.rate,
    {
        self.rate
    }

    fn write(&mut self, port: u8, addr: u16, data: u16)
        ensures
            *final(self) == old(self).register_set(addr, (data & 0xFF) as u8),
    {
        let d = (data & 0xFF) as u8;
        if addr <= 0x009F {
            let t = (addr >> 5) as usize;
            let at = (addr & 0x1F) as usize;
            assert(addr >> 5u16 <= 4 && addr & 0x1F < 32) by {
                lemma_u16(addr, 0x1F);
            }
            assert(d & 0x3F <= 63) by {
                lemma_u8(d, 0x3F);
            }
            let mut w = self.waves[t];
            w[at] = d & 0x3F;
            self.waves[t] = w;
            assert(self.waves =~= old(self).register_set(addr, d).waves);
            assert forall|u: int, k: int| 0 <= u < 5 && 0 <= k < 32 implies #[trigger] self.waves[u][k] <= 63 by {
                assert(old(self).waves[u][k] <= 63);
            }
        } else if 0x0100 <= addr && addr <= 0x015F {
            assert((addr >> 4u16) & 0x07 <= 5) by {
                lemma_u16(addr, 0);
                lemma_u16(addr >> 4u16, 0);
            }
            let i = ((addr >> 4) & 0x07) as usize;
            let mut c = self.channels[i];
            assert(old(self).channels[i as int].inv(old(self).rate));
            let f = c.frequency;
            assert((f & 0x0700) | (d as u16) <= 0x7FF && (f & 0x00FF) | (((d & 0x07) as u16) << 8u16)
                <= 0x7FF && d >> 4u8 <= 15 && d & 0x07 <= 7) by {
                lemma_u8(d, 0x07);
                lemma_u16((d & 0x07) as u16, 0);
                lemma_u16(f, 0x0700);
                lemma_u16(f & 0x0700, d as u16);
                lemma_u16(f, 0x00FF);
                lemma_u16(f & 0x00FF, ((d & 0x07) as u16) << 8u16);
            }
            let r = addr & 0x0F;
            if r == 0 {
                c.enabled = d & 0x80 != 0;
            } else if r == 1 {
                c.volume = d;
            } else if r == 2 {
                c.frequency = (c.frequency & 0x0700) | (d as u16);
            } else if r == 3 {
                c.frequency = (c.frequency & 0x00FF) | (((d & 0x07) as u16) << 8);
            } else if r == 4 {
                c.env_level = d >> 4;
                c.env_grow = d & 0x08 != 0;
                c.env_interval = d & 0x07;
                c.env_count = 0;
            } else if r == 5 {
                c.env_on = d & 0x01 != 0;
                c.env_repeat = d & 0x02 != 0;
            } else if r == 6 {
                c.wave = d & 0x07;
            }
            self.channels[i] = c;
            assert(self.channels =~= old(self).register_set(addr, d).channels);
            assert forall|j: int| 0 <= j < 6 implies #[trigger] self.channels[j].inv(self.rate) by {
                assert(old(self).channels[j].inv(old(self).rate));
            }
        }
    }
}

} // verus!
