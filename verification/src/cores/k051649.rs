//! The Konami K051649 (SCC) and K052539 (SCC+): five channels of 32-byte
//! wavetables.
//!
//! Five channels, each reading a 32-sample signed 8-bit wave at a 12-bit
//! period, through a 4-bit volume, gated by one enable mask.
//!
//! # SCC versus SCC+
//!
//! The original SCC has **four** wave memories: channel 5 plays channel 4's
//! table. The SCC+ gives channel 5 its own memory, reached through its own
//! register window, which the VGM stream carries as writes on port 4. The
//! header's variant bit says which chip the file means; on an SCC the port-4
//! window does not exist and its writes are dropped.
//!
//! Not modelled: the deformation/test register (port 5), and the
//! memory-mapper half of the chip, which makes no sound.

use vstd::prelude::*;
use crate::bits::{lemma_u16, lemma_u8};

use crate::chip::{ChipCore, ChipState};
use vstd::array::{spec_array_fill_for_copy_type, spec_array_update};

verus! {

/// The chip divides its clock by 16 to step the channels' phases.
pub const CLOCK_DIVIDER: u32 = 16;

/// One channel's contribution scale: a full-scale sample (+-128) at volume
/// 15 comes to +-7680.
pub const VOLUME_SCALE: i32 = 4;

/// One wavetable channel.
#[derive(Debug, Clone, Copy)]
pub struct Channel {
    /// Twelve bits; zero behaves as one.
    pub period: u16,
    /// Wave position in 16.16.
    pub phase: u32,
    /// Wave steps per internal tick, in 16.16, set with the period.
    pub step: u32,
    /// Four bits.
    pub volume: u8,
    pub enabled: bool,
}

/// `a + b` wrapped to 32 bits.
pub open spec fn wrapped(a: u32, b: u32) -> u32 {
    if a + b > u32::MAX {
        (a + b - 0x1_0000_0000) as u32
    } else {
        (a + b) as u32
    }
}

impl Channel {
    pub open spec fn cleared() -> Channel {
        Channel { period: 0, phase: 0, step: 0, volume: 0, enabled: false }
    }

    pub open spec fn inv(self) -> bool {
        &&& self.period <= 0xFFF
        &&& self.volume <= 15
    }

    /// The wave pointer advances at `clock / (period + 1)`; one internal tick
    /// is sixteen clocks.
    pub open spec fn with_period(self, period: u16) -> Channel {
        let p = period & 0x0FFF;
        Channel { period: p, step: ((CLOCK_DIVIDER * 65536) / (p + 1)) as u32, ..self }
    }

    fn set_period(&mut self, period: u16)
        ensures
            *final(self) == old(self).with_period(period),
            final(self).period <= 0xFFF,
    {
        assert(period & 0x0FFF <= 0xFFF) by {
            lemma_u16(period, 0x0FFF);
        }
        self.period = period & 0x0FFF;
        self.step = (CLOCK_DIVIDER * 65536) / (self.period as u32 + 1);
    }

    pub open spec fn advanced(self) -> Channel {
        Channel { phase: wrapped(self.phase, self.step), ..self }
    }
}

/// The K051649 / K052539.
#[derive(Debug)]
pub struct K051649 {
    pub rate: u32,
    /// The SCC+ (K052539): channel 5 has its own wave memory.
    pub plus: bool,
    pub channels: [Channel; 5],
    /// Five tables; on the plain SCC the fifth is never read (channel 5 plays
    /// table 4) and never written.
    pub waves: [[i8; 32]; 5],
}

impl K051649 {
    /// The cleared chip at `rate`.
    pub open spec fn cleared(rate: u32, plus: bool) -> K051649 {
        K051649 {
            rate,
            plus,
            channels: spec_array_fill_for_copy_type(Channel::cleared()),
            waves: spec_array_fill_for_copy_type(spec_array_fill_for_copy_type(0i8)),
        }
    }

    fn clear(rate: u32, plus: bool) -> (chip: K051649)
        ensures
            chip == K051649::cleared(rate, plus),
    {
        let ch = Channel { period: 0, phase: 0, step: 0, volume: 0, enabled: false };
        K051649 { rate, plus, channels: [ch; 5], waves: [[0i8; 32]; 5] }
    }

    /// A chip with no clock yet; `reset` gives it one.
    pub fn new() -> (chip: K051649)
        ensures
            chip == K051649::cleared(111_861, false),
    {
        Self::clear(111_861, false)
    }

    pub open spec fn inv(self) -> bool {
        forall|i: int| 0 <= i < 5 ==> #[trigger] self.channels[i].inv()
    }

    /// The table channel `i` reads: channel 5 shares table 4 on the SCC.
    pub open spec fn table_of(self, i: int) -> int {
        if i == 4 && !self.plus {
            3
        } else {
            i
        }
    }

    /// What channel `i` contributes once its phase has advanced.
    pub open spec fn voice(self, i: int) -> int {
        let ch = self.channels[i].advanced();
        if !ch.enabled || ch.volume == 0 {
            0
        } else {
            self.waves[self.table_of(i)][((ch.phase >> 16u32) % 32) as int] * ch.volume
                * VOLUME_SCALE
        }
    }

    /// The first `n` channels' contributions.
    pub open spec fn voices(self, n: int) -> int
        decreases n,
    {
        if n <= 0 {
            0
        } else {
            self.voices(n - 1) + self.voice(n - 1)
        }
    }

    /// Every channel's phase one tick on.
    pub open spec fn advanced(self) -> K051649 {
        K051649 {
            channels: [
                self.channels[0].advanced(),
                self.channels[1].advanced(),
                self.channels[2].advanced(),
                self.channels[3].advanced(),
                self.channels[4].advanced(),
            ],
            ..self
        }
    }

    fn tick(&mut self) -> (sum: i32)
        requires
            old(self).inv(),
        ensures
            final(self).inv(),
            *final(self) == old(self).advanced(),
            sum == old(self).voices(5),
    {
        let ghost start = *self;
        let mut sum: i32 = 0;
        let mut i: usize = 0;
        while i < 5
            invariant
                i <= 5,
                self.plus == start.plus,
                self.rate == start.rate,
                self.waves == start.waves,
                start.inv(),
                forall|j: int| 0 <= j < i ==> #[trigger] self.channels[j] == start.channels[j].advanced(),
                forall|j: int| i <= j < 5 ==> #[trigger] self.channels[j] == start.channels[j],
                sum == start.voices(i as int),
                -7680 * i <= sum <= 7680 * i,
            decreases 5 - i,
        {
            assert(start.channels[i as int].inv());
            let mut ch = self.channels[i];
            ch.phase = ch.phase.wrapping_add(ch.step);
            self.channels[i] = ch;
            if ch.enabled && ch.volume != 0 {
                let table = if i == 4 && !self.plus { 3 } else { i };
                let at = ((ch.phase >> 16) % 32) as usize;
                let sample = self.waves[table][at] as i32;
                let v = ch.volume as i32;
                assert(-7680 <= sample * v * VOLUME_SCALE <= 7680) by (nonlinear_arith)
                    requires
                        -128 <= sample <= 127,
                        0 <= v <= 15,
                ;
                sum = sum + sample * v * VOLUME_SCALE;
            }
            i = i + 1;
        }
        assert(self.channels =~= start.advanced().channels);
        assert forall|j: int| 0 <= j < 5 implies #[trigger] self.channels[j].inv() by {
            assert(start.channels[j].inv());
        }
        sum
    }

    /// The chip after byte `data` lands at `addr` in register window `port`.
    pub open spec fn register_set(self, port: u8, addr: int, data: u8) -> K051649 {
        if port == 0 {
            let table = addr / 32;
            let at = addr % 32;
            if table < 4 || (table == 4 && self.plus) {
                K051649 {
                    waves: spec_array_update(
                        self.waves,
                        table,
                        spec_array_update(self.waves[table], at, data as i8),
                    ),
                    ..self
                }
            } else {
                self
            }
        } else if port == 1 {
            let c = addr / 2;
            if c < 5 {
                let ch = self.channels[c];
                let period = if addr % 2 == 0 {
                    ((ch.period & 0x0F00) | (data as u16)) as u16
                } else {
                    ((ch.period & 0x00FF) | (((data & 0x0F) as u16) << 8u16)) as u16
                };
                K051649 { channels: spec_array_update(self.channels, c, ch.with_period(period)), ..self }
            } else {
                self
            }
        } else if port == 2 {
            if addr < 5 {
                K051649 {
                    channels: spec_array_update(
                        self.channels,
                        addr,
                        Channel { volume: data & 0x0F, ..self.channels[addr] },
                    ),
                    ..self
                }
            } else {
                self
            }
        } else if port == 3 {
            let bit = |i: int| Channel { enabled: data & (1u8 << (i as u8)) != 0, ..self.channels[i] };
            K051649 { channels: [bit(0), bit(1), bit(2), bit(3), bit(4)], ..self }
        } else if port == 4 && self.plus {
            K051649 {
                waves: spec_array_update(
                    self.waves,
                    4,
                    spec_array_update(self.waves[4], addr % 32, data as i8),
                ),
                ..self
            }
        } else {
            self
        }
    }
}

impl Default for K051649 {
    fn default() -> (chip: K051649)
        ensures
            chip == K051649::cleared(111_861, false),
    {
        Self::new()
    }
}

impl ChipState for K051649 {
    open spec fn inv(&self) -> bool {
        K051649::inv(*self)
    }

    open spec fn stepped(&self) -> K051649 {
        self.advanced()
    }

    /// Mono: one output pin, mixed on the cartridge.
    open spec fn frame(&self) -> (i32, i32) {
        (self.voices(5) as i32, self.voices(5) as i32)
    }

    fn next_frame(&mut self) -> (f: (i32, i32)) {
        let sum = self.tick();
        (sum, sum)
    }
}

impl ChipCore for K051649 {
    /// `variant` is the header's bit 31: the K052539 (SCC+).
    fn reset(&mut self, clock: u32, variant: bool)
        ensures
            *final(self) == K051649::cleared(
                if clock / CLOCK_DIVIDER > 1 { clock / CLOCK_DIVIDER } else { 1 },
                variant,
            ),
    {
        let rate = clock / CLOCK_DIVIDER;
        *self = Self::clear(if rate > 1 { rate } else { 1 }, variant);
    }

    fn native_rate(&self) -> (rate: u32)
        ensures
            rate == self.rate,
    {
        self.rate
    }

    /// The VGM's `0xD2 pp aa dd`: `port` picks the register window (wave
    /// memory, frequency, volume, the enable mask, the SCC+'s channel-5
    /// memory).
    fn write(&mut self, port: u8, addr: u16, data: u16)
        ensures
            *final(self) == old(self).register_set(port, (addr & 0xFF) as int, (data & 0xFF) as u8),
    {
        let a = (addr & 0xFF) as usize;
        let d = (data & 0xFF) as u8;
        assert(addr & 0xFF <= 255) by {
            lemma_u16(addr, 0xFF);
        }
        if port == 0 {
            let table = a / 32;
            let at = a % 32;
            if table < 4 || (table == 4 && self.plus) {
                let mut w = self.waves[table];
                w[at] = d as i8;
                self.waves[table] = w;
            }
        } else if port == 1 {
            let c = a / 2;
            if c < 5 {
                let mut ch = self.channels[c];
                let period = if a % 2 == 0 {
                    (ch.period & 0x0F00) | (d as u16)
                } else {
                    (ch.period & 0x00FF) | (((d & 0x0F) as u16) << 8)
                };
                ch.set_period(period);
                self.channels[c] = ch;
            }
        } else if port == 2 {
            if a < 5 {
                let mut ch = self.channels[a];
                assert(d & 0x0F <= 15) by {
                    lemma_u8(d, 0x0F);
                }
                ch.volume = d & 0x0F;
                self.channels[a] = ch;
            }
        } else if port == 3 {
            let mut i: usize = 0;
            let ghost start = *self;
            while i < 5
                invariant
                    i <= 5,
                    self.plus == start.plus,
                    self.rate == start.rate,
                    self.waves == start.waves,
                    forall|j: int|
                        0 <= j < i ==> #[trigger] self.channels[j] == (Channel {
                            enabled: d & (1u8 << (j as u8)) != 0,
                            ..start.channels[j]
                        }),
                    forall|j: int| i <= j < 5 ==> #[trigger] self.channels[j] == start.channels[j],
                decreases 5 - i,
            {
                let mut ch = self.channels[i];
                ch.enabled = d & (1u8 << (i as u8)) != 0;
                self.channels[i] = ch;
                i = i + 1;
            }
            assert(self.channels =~= start.register_set(port, a as int, d).channels);
        } else if port == 4 && self.plus {
            let mut w = self.waves[4];
            w[a % 32] = d as i8;
            self.waves[4] = w;
        }
        assert forall|j: int| 0 <= j < 5 implies #[trigger] self.channels[j].inv() by {
            assert(old(self).channels[j].inv());
        }
    }
}

} // verus!
