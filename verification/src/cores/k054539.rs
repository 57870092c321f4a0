//! The Konami K054539: eight PCM channels from ROM, with a reverb this core
//! does not model.
//!
//! Eight channels, each reading 8-bit PCM, 16-bit PCM or 4-bit DPCM from a
//! shared ROM at a 24-bit pitch against a 48 kHz base rate. The model is:
//! samples, pitch, volume, pan, keys. **Loops** jump on the end marker
//! unconditionally (a marker at the loop target stops the channel),
//! **reverb** is ignored, and **pan** is a linear weighting rather than the
//! chip's measured curve.
//!
//! Positions and addresses are kept in 64 bits, and a 16-bit loop target
//! whose second byte lies past the ROM stops the channel.

use vstd::prelude::*;
use crate::bits::{lemma_byte_merges, lemma_i32_shr, lemma_u16, lemma_u8};

use crate::chip::{image_loaded, load_image, ChipCore, ChipState};
use vstd::array::{spec_array_fill_for_copy_type, spec_array_update};

verus! {

/// One frame per 384 clocks: 48 kHz at the usual 18.432 MHz crystal.
pub const CLOCK_DIVIDER: u32 = 384;

/// `10^(-0.5625/20)` in 16.16: one volume step, -36 dB per 0x40 steps.
pub const VOLUME_RATIO: i64 = 61_438;

/// The attenuation after `n` volume steps, in 16.32 with guard bits.
pub open spec fn volume_raw(n: nat) -> int
    decreases n,
{
    if n == 0 {
        0x1_0000_0000
    } else {
        volume_raw((n - 1) as nat) * 61_438 / 65_536
    }
}

pub proof fn lemma_volume_bounded(n: nat)
    ensures
        0 <= volume_raw(n) <= 0x1_0000_0000,
    decreases n,
{
    if n > 0 {
        lemma_volume_bounded((n - 1) as nat);
        let g = volume_raw((n - 1) as nat);
        assert(0 <= g * 61_438 / 65_536 <= 0x1_0000_0000) by (nonlinear_arith)
            requires
                0 <= g <= 0x1_0000_0000,
        ;
    }
}

/// Volume register `step` as a 16.16 gain.
pub open spec fn volume_gain_of(step: u8) -> int {
    volume_raw(step as nat) / 65_536
}

pub fn volume_gain(step: u8) -> (g: i32)
    ensures
        g == volume_gain_of(step),
        0 <= g <= 65_536,
{
    let mut value: i64 = 0x1_0000_0000;
    let mut done: u8 = 0;
    while done < step
        invariant
            done <= step,
            value == volume_raw(done as nat),
        decreases step - done,
    {
        proof {
            lemma_volume_bounded(done as nat);
        }
        assert(0 <= value * VOLUME_RATIO <= 0x1_0000_0000 * 61_438) by (nonlinear_arith)
            requires
                0 <= value <= 0x1_0000_0000,
        ;
        value = value * VOLUME_RATIO / 65_536;
        done = done + 1;
    }
    proof {
        lemma_volume_bounded(step as nat);
    }
    (value / 65_536) as i32
}

/// How a DPCM nibble moves the level, in 16-bit sample units.
pub const DPCM_DELTA: [i32; 16] = [
    0, 256, 512, 1024, 2048, 4096, 8192, 16384, 0, -16384, -8192, -4096, -2048, -1024, -512, -256,
];

pub open spec fn delta(nibble: int) -> i32 {
    DPCM_DELTA[nibble]
}

pub proof fn lemma_deltas_bounded()
    ensures
        forall|n: int| 0 <= n < 16 ==> -16384 <= #[trigger] delta(n) <= 16384,
{
    assert(DPCM_DELTA@ =~= seq![
        0i32, 256i32, 512i32, 1024i32, 2048i32, 4096i32, 8192i32, 16384i32, 0i32, -16384i32,
        -8192i32, -4096i32, -2048i32, -1024i32, -512i32, -256i32,
    ]);
}

/// `x` held to `lo..=hi`.
pub open spec fn clamp(x: int, lo: int, hi: int) -> int {
    if x < lo {
        lo
    } else if x > hi {
        hi
    } else {
        x
    }
}

/// `a + b` wrapped to 64 bits.
pub open spec fn wrapped64(a: u64, b: u64) -> u64 {
    if a + b > u64::MAX {
        (a + b - 0x1_0000_0000_0000_0000) as u64
    } else {
        (a + b) as u64
    }
}

/// What a channel's flag register says it plays.
#[derive(Debug, Clone, Copy, PartialEq, Eq, Structural)]
pub enum SampleType {
    Pcm8,
    Pcm16,
    Dpcm,
}

/// One channel.
#[derive(Debug, Clone, Copy)]
pub struct Channel {
    /// 24-bit pitch: `0x10000` is one ROM sample per frame.
    pub pitch: u32,
    pub volume: u8,
    /// The low four bits of the pan register.
    pub pan: u8,
    /// 24-bit byte addresses.
    pub start: u32,
    pub loop_start: u32,
    /// Playback position in 16.16 sample units from the start address.
    pub position: u64,
    pub sample_type: SampleType,
    pub reverse: bool,
    pub playing: bool,
    /// DPCM decoder level and half-byte phase.
    pub dpcm_level: i32,
    pub dpcm_high: bool,
}

/// The little-endian 16-bit sample at `at`, if the ROM holds both bytes.
pub open spec fn pair_at(rom: Seq<u8>, at: int) -> Option<int> {
    if 0 <= at && at + 2 <= rom.len() {
        Some(((rom[at + 1] as u16 * 256 + rom[at]) as u16 as i16) as int)
    } else {
        None
    }
}

impl Channel {
    pub open spec fn cleared() -> Channel {
        Channel {
            pitch: 0,
            volume: 0,
            pan: 0,
            start: 0,
            loop_start: 0,
            position: 0,
            sample_type: SampleType::Pcm8,
            reverse: false,
            playing: false,
            dpcm_level: 0,
            dpcm_high: false,
        }
    }

    pub open spec fn inv(self) -> bool {
        &&& self.pitch <= 0xFF_FFFF
        &&& self.pan <= 15
        &&& self.start <= 0xFF_FFFF
        &&& self.loop_start <= 0xFF_FFFF
        &&& -0x8000 <= self.dpcm_level <= 0x7FFF
    }

    /// The ROM byte address `steps` samples of `width` bytes from the start,
    /// in the channel's direction (a reverse channel stops at zero).
    pub open spec fn address(self, steps: int, width: int) -> int {
        if self.reverse {
            if self.start >= steps * width { self.start - steps * width } else { 0 }
        } else {
            self.start + steps * width
        }
    }

    /// The channel jumped to its loop point, and playing on only if the
    /// loop target is inside the ROM and not itself an end marker.
    pub open spec fn restarted(self, rom: Seq<u8>) -> Channel {
        let s = self.loop_start as int;
        let still = if s >= rom.len() {
            false
        } else {
            match self.sample_type {
                SampleType::Pcm8 => rom[s] != 0x80,
                SampleType::Pcm16 => !(rom[s] == 0 && s + 1 < rom.len() && rom[s + 1] == 0x80),
                SampleType::Dpcm => true,
            }
        };
        Channel { position: 0, start: self.loop_start, dpcm_level: 0, dpcm_high: false, playing: still, ..self }
    }

    /// The channel one frame on and the sample it sounds, if any. An end
    /// marker (`0x80`, or `0x8000` in 16-bit mode) restarts it at its loop
    /// point; a read past the ROM stops it. DPCM reads two nibbles a byte,
    /// low first, and integrates each fresh one into its level.
    pub open spec fn read(self, rom: Seq<u8>) -> (Channel, Option<int>) {
        let steps = ((self.position >> 16u64) as u32) as int;
        if !self.playing {
            (self, None)
        } else {
            let (c, s): (Channel, Option<int>) = match self.sample_type {
                SampleType::Pcm8 => {
                    let at = self.address(steps, 1);
                    if at >= rom.len() {
                        (Channel { playing: false, ..self }, None)
                    } else if rom[at] == 0x80 {
                        let r = self.restarted(rom);
                        if !r.playing {
                            (r, None)
                        } else {
                            (r, Some((rom[r.start as int] as i8) * 256))
                        }
                    } else {
                        (self, Some((rom[at] as i8) * 256))
                    }
                },
                SampleType::Pcm16 => {
                    let at = self.address(steps, 2);
                    match pair_at(rom, at) {
                        None => (Channel { playing: false, ..self }, None),
                        Some(v) => {
                            if v == -0x8000 {
                                let r = self.restarted(rom);
                                if !r.playing {
                                    (r, None)
                                } else {
                                    match pair_at(rom, r.start as int) {
                                        None => (Channel { playing: false, ..r }, None),
                                        Some(w) => (r, Some(w)),
                                    }
                                }
                            } else {
                                (self, Some(v))
                            }
                        },
                    }
                },
                SampleType::Dpcm => {
                    let at = self.address(steps / 2, 1);
                    if at >= rom.len() {
                        (Channel { playing: false, ..self }, None)
                    } else {
                        let byte = rom[at];
                        let nibble = if steps % 2 == 0 { byte & 0x0F } else { byte >> 4u8 };
                        if (steps % 2 == 1) != self.dpcm_high || steps == 0 {
                            let level = clamp(self.dpcm_level + delta(nibble as int), -0x8000, 0x7FFF);
                            (
                                Channel { dpcm_level: level as i32, dpcm_high: steps % 2 == 1, ..self },
                                Some(level),
                            )
                        } else {
                            (self, Some(self.dpcm_level as int))
                        }
                    }
                },
            };
            match s {
                Some(v) => (Channel { position: wrapped64(c.position, c.pitch as u64), ..c }, Some(v)),
                None => (c, None),
            }
        }
    }

    /// The channel's `(left, right)`: scaled by its volume and panned
    /// linearly about 8.
    pub open spec fn out(self, rom: Seq<u8>) -> (int, int) {
        match self.read(rom).1 {
            Some(v) => {
                let scaled = ((v * volume_gain_of(self.volume)) as i32 >> 16i32) as int;
                let pan: int = if self.pan < 1 { 1 } else if self.pan > 15 { 15 } else { self.pan as int };
                (((scaled * (16 - pan)) as i32 >> 5i32) as int, ((scaled * pan) as i32 >> 5i32) as int)
            },
            None => (0, 0),
        }
    }

    fn address_of(&self, steps: u32, width: u64) -> (a: u64)
        requires
            self.inv(),
            width == 1 || width == 2,
        ensures
            a == self.address(steps as int, width as int),
    {
        let offset = steps as u64 * width;
        if self.reverse {
            if self.start as u64 >= offset { self.start as u64 - offset } else { 0 }
        } else {
            self.start as u64 + offset
        }
    }

    fn restart(&mut self, rom: &Vec<u8>) -> (still: bool)
        requires
            old(self).inv(),
        ensures
            final(self).inv(),
            *final(self) == old(self).restarted(rom@),
            still == final(self).playing,
    {
        self.position = 0;
        self.start = self.loop_start;
        self.dpcm_level = 0;
        self.dpcm_high = false;
        let s = self.start as usize;
        let still = if s >= rom.len() {
            false
        } else {
            match self.sample_type {
                SampleType::Pcm8 => rom[s] != 0x80,
                SampleType::Pcm16 => !(rom[s] == 0 && s + 1 < rom.len() && rom[s + 1] == 0x80),
                SampleType::Dpcm => true,
            }
        };
        self.playing = still;
        still
    }

    fn pair(rom: &Vec<u8>, at: u64) -> (p: Option<i32>)
        ensures
            p matches Some(v) ==> pair_at(rom@, at as int) == Some(v as int),
            p is None ==> pair_at(rom@, at as int) is None,
            p matches Some(v) ==> -32768 <= v <= 32767,
    {
        if rom.len() as u64 >= 2 && at <= rom.len() as u64 - 2 {
            let a = at as usize;
            Some(((rom[a + 1] as u16) * 256 + rom[a] as u16) as i16 as i32)
        } else {
            None
        }
    }

    fn play(&mut self, rom: &Vec<u8>) -> (o: (i32, i32))
        requires
            old(self).inv(),
        ensures
            final(self).inv(),
            *final(self) == old(self).read(rom@).0,
            o.0 == old(self).out(rom@).0,
            o.1 == old(self).out(rom@).1,
            -15_360 <= o.0 <= 15_360,
            -15_360 <= o.1 <= 15_360,
    {
        if !self.playing {
            return (0, 0);
        }
        let steps = (self.position >> 16) as u32;
        let sample: i32 = match self.sample_type {
            SampleType::Pcm8 => {
                let at = self.address_of(steps, 1);
                if at >= rom.len() as u64 {
                    self.playing = false;
                    return (0, 0);
                }
                let byte = rom[at as usize];
                if byte == 0x80 {
                    if !self.restart(rom) {
                        return (0, 0);
                    }
                    (rom[self.start as usize] as i8 as i32) * 256
                } else {
                    (byte as i8 as i32) * 256
                }
            },
            SampleType::Pcm16 => {
                let at = self.address_of(steps, 2);
                match Self::pair(rom, at) {
                    None => {
                        self.playing = false;
                        return (0, 0);
                    },
                    Some(v) => {
                        if v == -0x8000 {
                            if !self.restart(rom) {
                                return (0, 0);
                            }
                            match Self::pair(rom, self.start as u64) {
                                None => {
                                    self.playing = false;
                                    return (0, 0);
                                },
                                Some(w) => w,
                            }
                        } else {
                            v
                        }
                    },
                }
            },
            SampleType::Dpcm => {
                let at = self.address_of(steps / 2, 1);
                if at >= rom.len() as u64 {
                    self.playing = false;
                    return (0, 0);
                }
                let byte = rom[at as usize];
                let nibble = if steps % 2 == 0 { byte & 0x0F } else { byte >> 4 };
                assert(byte & 0x0F < 16 && byte >> 4u8 < 16) by {
                    lemma_u8(byte, 0x0F);
                }
                if (steps % 2 == 1) != self.dpcm_high || steps == 0 {
                    proof {
                        lemma_deltas_bounded();
                    }
                    let moved = self.dpcm_level + DPCM_DELTA[nibble as usize];
                    self.dpcm_level = if moved < -0x8000 { -0x8000 } else if moved > 0x7FFF { 0x7FFF } else { moved };
                    self.dpcm_high = steps % 2 == 1;
                }
                self.dpcm_level
            },
        };
        self.position = self.position.wrapping_add(self.pitch as u64);
        let gain = volume_gain(self.volume);
        assert(-32768 * 65536 <= sample * gain <= 32767 * 65536) by (nonlinear_arith)
            requires
                -32768 <= sample <= 32767,
                0 <= gain <= 65536,
        ;
        let x = sample * gain;
        proof {
            lemma_i32_shr(x);
        }
        let scaled = x >> 16;
        let pan: i32 = if self.pan < 1 { 1 } else if self.pan > 15 { 15 } else { self.pan as i32 };
        assert(-32768 * 15 <= scaled * (16 - pan) <= 32767 * 15 && -32768 * 15 <= scaled * pan
            <= 32767 * 15) by (nonlinear_arith)
            requires
                -32768 <= scaled <= 32767,
                1 <= pan <= 15,
        ;
        let xl = scaled * (16 - pan);
        let xr = scaled * pan;
        proof {
            lemma_i32_shr(xl);
            lemma_i32_shr(xr);
        }
        (xl >> 5, xr >> 5)
    }
}

/// The K054539.
#[derive(Debug)]
pub struct K054539 {
    pub rate: u32,
    pub channels: [Channel; 8],
    pub rom: Vec<u8>,
}

impl K054539 {
    pub open spec fn cleared(rate: u32, rom: Vec<u8>) -> K054539 {
        K054539 { rate, channels: spec_array_fill_for_copy_type(Channel::cleared()), rom }
    }

    fn clear(rate: u32, rom: Vec<u8>) -> (chip: K054539)
        ensures
            chip == K054539::cleared(rate, rom),
    {
        let c = Channel {
            pitch: 0,
            volume: 0,
            pan: 0,
            start: 0,
            loop_start: 0,
            position: 0,
            sample_type: SampleType::Pcm8,
            reverse: false,
            playing: false,
            dpcm_level: 0,
            dpcm_high: false,
        };
        K054539 { rate, channels: [c; 8], rom }
    }

    /// A chip with no clock yet and no ROM.
    pub fn new() -> (chip: K054539)
        ensures
            chip == K054539::cleared(48_000, chip.rom),
            chip.rom@.len() == 0,
    {
        Self::clear(48_000, Vec::new())
    }

    pub open spec fn inv(self) -> bool {
        forall|i: int| 0 <= i < 8 ==> #[trigger] self.channels[i].inv()
    }

    pub open spec fn mixed(self, n: int) -> (int, int)
        decreases n,
    {
        if n <= 0 {
            (0, 0)
        } else {
            let (l, r) = self.mixed(n - 1);
            let (a, b) = self.channels[n - 1].out(self.rom@);
            (l + a, r + b)
        }
    }

    pub open spec fn advanced(self) -> K054539 {
        let r = |i: int| self.channels[i].read(self.rom@).0;
        K054539 { channels: [r(0), r(1), r(2), r(3), r(4), r(5), r(6), r(7)], ..self }
    }

    fn tick(&mut self) -> (o: (i32, i32))
        requires
            old(self).inv(),
        ensures
            final(self).inv(),
            *final(self) == old(self).advanced(),
            o.0 == old(self).mixed(8).0,
            o.1 == old(self).mixed(8).1,
    {
        let ghost start = *self;
        let mut left: i32 = 0;
        let mut right: i32 = 0;
        let mut i: usize = 0;
        while i < 8
            invariant
                i <= 8,
                start.inv(),
                *self == (K054539 { channels: self.channels, ..start }),
                forall|j: int|
                    0 <= j < i ==> #[trigger] self.channels[j] == start.channels[j].read(start.rom@).0
                        && self.channels[j].inv(),
                forall|j: int| i <= j < 8 ==> #[trigger] self.channels[j] == start.channels[j],
                (left as int, right as int) == start.mixed(i as int),
                -15_360 * i <= left <= 15_360 * i,
                -15_360 * i <= right <= 15_360 * i,
            decreases 8 - i,
        {
            assert(start.channels[i as int].inv());
            let mut c = self.channels[i];
            let (l, r) = c.play(&self.rom);
            self.channels[i] = c;
            left = left + l;
            right = right + r;
            i = i + 1;
        }
        assert(self.channels =~= start.advanced().channels);
        (left, right)
    }

    /// The chip after byte `d` lands in register `reg` (`port << 8 | addr`).
    /// The reverb, ROM readback and control registers change nothing here.
    pub open spec fn register_set(self, reg: int, d: u8) -> K054539 {
        let lo = |x: u32| ((x & 0xFF_FF00) | (d as u32)) as u32;
        let mid = |x: u32| ((x & 0xFF_00FF) | ((d as u32) << 8u32)) as u32;
        let hi = |x: u32| ((x & 0x00_FFFF) | ((d as u32) << 16u32)) as u32;
        if 0 <= reg <= 0xFF {
            let i = reg / 32;
            let c = self.channels[i];
            let r = reg % 32;
            let n = if r == 0x00 {
                Channel { pitch: lo(c.pitch), ..c }
            } else if r == 0x01 {
                Channel { pitch: mid(c.pitch), ..c }
            } else if r == 0x02 {
                Channel { pitch: hi(c.pitch), ..c }
            } else if r == 0x03 {
                Channel { volume: d, ..c }
            } else if r == 0x05 {
                Channel { pan: d & 0x0F, ..c }
            } else if r == 0x08 {
                Channel { loop_start: lo(c.loop_start), ..c }
            } else if r == 0x09 {
                Channel { loop_start: mid(c.loop_start), ..c }
            } else if r == 0x0A {
                Channel { loop_start: hi(c.loop_start), ..c }
            } else if r == 0x0C {
                Channel { start: lo(c.start), ..c }
            } else if r == 0x0D {
                Channel { start: mid(c.start), ..c }
            } else if r == 0x0E {
                Channel { start: hi(c.start), ..c }
            } else {
                c
            };
            K054539 { channels: spec_array_update(self.channels, i, n), ..self }
        } else if 0x200 <= reg <= 0x20F && reg % 2 == 0 {
            let i = (reg / 2) % 8;
            let t = (d >> 2u8) & 0x03;
            let n = Channel {
                sample_type: if t == 1 { SampleType::Pcm16 } else if t == 2 { SampleType::Dpcm } else { SampleType::Pcm8 },
                reverse: d & 0x20 != 0,
                ..self.channels[i]
            };
            K054539 { channels: spec_array_update(self.channels, i, n), ..self }
        } else if reg == 0x214 {
            let k = |i: int| if d & (1u8 << (i as u8)) != 0 {
                Channel { position: 0, dpcm_level: 0, dpcm_high: false, playing: true, ..self.channels[i] }
            } else {
                self.channels[i]
            };
            K054539 { channels: [k(0), k(1), k(2), k(3), k(4), k(5), k(6), k(7)], ..self }
        } else if reg == 0x215 {
            let k = |i: int| if d & (1u8 << (i as u8)) != 0 {
                Channel { playing: false, ..self.channels[i] }
            } else {
                self.channels[i]
            };
            K054539 { channels: [k(0), k(1), k(2), k(3), k(4), k(5), k(6), k(7)], ..self }
        } else {
            self
        }
    }

    fn write_keys(&mut self, on: bool, d: u8)
        requires
            old(self).inv(),
        ensures
            final(self).inv(),
            *final(self) == old(self).register_set(if on { 0x214 } else { 0x215 }, d),
    {
        let ghost start = *self;
        let mut i: usize = 0;
        while i < 8
            invariant
                i <= 8,
                start.inv(),
                *self == (K054539 { channels: self.channels, ..start }),
                forall|j: int|
                    0 <= j < i ==> #[trigger] self.channels[j] == (if d & (1u8 << (j as u8)) != 0 {
                        if on {
                            Channel { position: 0, dpcm_level: 0, dpcm_high: false, playing: true, ..start.channels[j] }
                        } else {
                            Channel { playing: false, ..start.channels[j] }
                        }
                    } else {
                        start.channels[j]
                    }),
                forall|j: int| i <= j < 8 ==> #[trigger] self.channels[j] == start.channels[j],
            decreases 8 - i,
        {
            let mut c = self.channels[i];
            if d & (1u8 << (i as u8)) != 0 {
                if on {
                    c.position = 0;
                    c.dpcm_level = 0;
                    c.dpcm_high = false;
                    c.playing = true;
                } else {
                    c.playing = false;
                }
            }
            self.channels[i] = c;
            i = i + 1;
        }
        assert(self.channels =~= start.register_set(if on { 0x214 } else { 0x215 }, d).channels);
        assert forall|j: int| 0 <= j < 8 implies #[trigger] self.channels[j].inv() by {
            assert(start.channels[j].inv());
        }
    }
}

impl Default for K054539 {
    fn default() -> (chip: K054539)
        ensures
            chip == K054539::cleared(48_000, chip.rom),
            chip.rom@.len() == 0,
    {
        Self::new()
    }
}

impl ChipState for K054539 {
    open spec fn inv(&self) -> bool {
        K054539::inv(*self)
    }

    open spec fn stepped(&self) -> K054539 {
        self.advanced()
    }

    open spec fn frame(&self) -> (i32, i32) {
        (self.mixed(8).0 as i32, self.mixed(8).1 as i32)
    }

    fn next_frame(&mut self) -> (f: (i32, i32)) {
        self.tick()
    }
}

impl ChipCore for K054539 {
    /// The ROM survives.
    fn reset(&mut self, clock: u32, variant: bool)
        ensures
            *final(self) == K054539::cleared(
                if clock / CLOCK_DIVIDER > 1 { clock / CLOCK_DIVIDER } else { 1 },
                old(self).rom,
            ),
    {
        let mut rom: Vec<u8> = Vec::new();
        std::mem::swap(&mut rom, &mut self.rom);
        let rate = clock / CLOCK_DIVIDER;
        *self = Self::clear(if rate > 1 { rate } else { 1 }, rom);
    }

    fn native_rate(&self) -> (rate: u32)
        ensures
            rate == self.rate,
    {
        self.rate
    }

    /// The register index is `port << 8 | addr`.
    fn write(&mut self, port: u8, addr: u16, data: u16)
        ensures
            *final(self) == old(self).register_set(port * 256 + (addr & 0xFF), (data & 0xFF) as u8),
    {
        let lo8 = addr & 0xFF;
        assert(lo8 <= 0xFF) by {
            lemma_u16(addr, 0xFF);
        }
        let reg: u16 = (port as u16) * 256 + lo8;
        let d = (data & 0xFF) as u8;
        if reg <= 0xFF {
            let i = (reg / 32) as usize;
            let mut c = self.channels[i];
            assert(old(self).channels[i as int].inv());
            let r = reg % 32;
            let (p, l, s) = (c.pitch, c.loop_start, c.start);
            assert((p & 0xFF_FF00) | (d as u32) <= 0xFF_FFFF && (p & 0xFF_00FF) | ((d as u32) << 8u32)
                <= 0xFF_FFFF && (p & 0x00_FFFF) | ((d as u32) << 16u32) <= 0xFF_FFFF) by {
                lemma_byte_merges(p, d);
            }
            assert((l & 0xFF_FF00) | (d as u32) <= 0xFF_FFFF && (l & 0xFF_00FF) | ((d as u32) << 8u32)
                <= 0xFF_FFFF && (l & 0x00_FFFF) | ((d as u32) << 16u32) <= 0xFF_FFFF) by {
                lemma_byte_merges(l, d);
            }
            assert((s & 0xFF_FF00) | (d as u32) <= 0xFF_FFFF && (s & 0xFF_00FF) | ((d as u32) << 8u32)
                <= 0xFF_FFFF && (s & 0x00_FFFF) | ((d as u32) << 16u32) <= 0xFF_FFFF && d & 0x0F <= 15)
                by {
                lemma_byte_merges(s, d);
                lemma_u8(d, 0x0F);
            }
            if r == 0x00 {
                c.pitch = (c.pitch & 0xFF_FF00) | (d as u32);
            } else if r == 0x01 {
                c.pitch = (c.pitch & 0xFF_00FF) | ((d as u32) << 8);
            } else if r == 0x02 {
                c.pitch = (c.pitch & 0x00_FFFF) | ((d as u32) << 16);
            } else if r == 0x03 {
                c.volume = d;
            } else if r == 0x05 {
                c.pan = d & 0x0F;
            } else if r == 0x08 {
                c.loop_start = (c.loop_start & 0xFF_FF00) | (d as u32);
            } else if r == 0x09 {
                c.loop_start = (c.loop_start & 0xFF_00FF) | ((d as u32) << 8);
            } else if r == 0x0A {
                c.loop_start = (c.loop_start & 0x00_FFFF) | ((d as u32) << 16);
            } else if r == 0x0C {
                c.start = (c.start & 0xFF_FF00) | (d as u32);
            } else if r == 0x0D {
                c.start = (c.start & 0xFF_00FF) | ((d as u32) << 8);
            } else if r == 0x0E {
                c.start = (c.start & 0x00_FFFF) | ((d as u32) << 16);
            }
            self.channels[i] = c;
            assert(self.channels =~= old(self).register_set(reg as int, d).channels);
            assert forall|j: int| 0 <= j < 8 implies #[trigger] self.channels[j].inv() by {
                assert(old(self).channels[j].inv());
            }
        } else if 0x200 <= reg && reg <= 0x20F && reg % 2 == 0 {
            let i = ((reg / 2) % 8) as usize;
            let mut c = self.channels[i];
            let t = (d >> 2) & 0x03;
            c.sample_type = if t == 1 { SampleType::Pcm16 } else if t == 2 { SampleType::Dpcm } else { SampleType::Pcm8 };
            c.reverse = d & 0x20 != 0;
            self.channels[i] = c;
            assert(self.channels =~= old(self).register_set(reg as int, d).channels);
            assert forall|j: int| 0 <= j < 8 implies #[trigger] self.channels[j].inv() by {
                assert(old(self).channels[j].inv());
            }
        } else if reg == 0x214 {
            self.write_keys(true, d);
        } else if reg == 0x215 {
            self.write_keys(false, d);
        }
    }

    /// The sample ROM.
    fn load_rom(&mut self, block_type: u8, total_size: u32, start: u32, data: &[u8])
        ensures
            final(self).rom@ == image_loaded(old(self).rom@, total_size as nat, start as nat, data@),
            *final(self) == (K054539 { rom: final(self).rom, ..*old(self) }),
    {
        load_image(&mut self.rom, total_size, start, data);
    }
}

} // verus!
