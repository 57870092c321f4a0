//! The Yamaha YMF278B (OPL4), its wavetable half: 24 PCM voices whose sample
//! headers live in the ROM itself.
//!
//! A voice is pointed at a **wave number**, and the 12-byte header for that
//! wave -- format, start, loop, end -- is read from the sample ROM, not from
//! registers. Formats are 8-bit, packed 12-bit (two samples in three bytes)
//! and 16-bit big-endian.
//!
//! Not modelled: the FM half (an OPL3 behind ports 0-1). The envelope is
//! simplified to an instant attack, sustain at total level, and a fast
//! release on key-off; the pan curve is linear.

use vstd::prelude::*;
use crate::bits::{lemma_i32_shr, lemma_u16, lemma_u64, lemma_u8};

use crate::chip::{image_loaded, load_image, ChipCore, ChipState};
use vstd::array::{spec_array_fill_for_copy_type, spec_array_update};

verus! {

/// One frame per 768 clocks: 44.1 kHz at the 33.8688 MHz crystal.
pub const CLOCK_DIVIDER: u32 = 768;

/// `10^(-0.375/20)` in 16.16: one total-level step.
pub const LEVEL_RATIO: i64 = 62_771;

/// The attenuation after `n` total-level steps, in 16.32 with guard bits:
/// one step multiplies by [`LEVEL_RATIO`] and drops sixteen bits.
pub open spec fn gain_raw(n: nat) -> int
    decreases n,
{
    if n == 0 {
        0x1_0000_0000
    } else {
        gain_raw((n - 1) as nat) * 62_771 / 65_536
    }
}

pub proof fn lemma_gain_bounded(n: nat)
    ensures
        0 <= gain_raw(n) <= 0x1_0000_0000,
    decreases n,
{
    if n > 0 {
        lemma_gain_bounded((n - 1) as nat);
        let g = gain_raw((n - 1) as nat);
        assert(0 <= g * 62_771 / 65_536 <= 0x1_0000_0000) by (nonlinear_arith)
            requires
                0 <= g <= 0x1_0000_0000,
        ;
    }
}

/// Total level `step` as a 16.16 gain: 0.375 dB a step.
pub open spec fn level_gain_of(step: u8) -> int {
    gain_raw(step as nat) / 65_536
}

pub fn level_gain(step: u8) -> (g: i32)
    ensures
        g == level_gain_of(step),
        0 <= g <= 65_536,
{
    let mut value: i64 = 0x1_0000_0000;
    let mut done: u8 = 0;
    while done < step
        invariant
            done <= step,
            value == gain_raw(done as nat),
        decreases step - done,
    {
        proof {
            lemma_gain_bounded(done as nat);
        }
        assert(0 <= value * LEVEL_RATIO <= 0x1_0000_0000 * 62_771) by (nonlinear_arith)
            requires
                0 <= value <= 0x1_0000_0000,
        ;
        value = value * LEVEL_RATIO / 65_536;
        done = done + 1;
    }
    proof {
        lemma_gain_bounded(step as nat);
    }
    (value / 65_536) as i32
}

/// A wave's format, from its header.
#[derive(Debug, Clone, Copy, PartialEq, Eq, Structural)]
pub enum Format {
    Pcm8,
    Pcm12,
    Pcm16,
}

/// `a + b` wrapped to 64 bits.
pub open spec fn wrapped64(a: u64, b: u64) -> u64 {
    if a + b > u64::MAX {
        (a + b - 0x1_0000_0000_0000_0000) as u64
    } else {
        (a + b) as u64
    }
}

/// One voice.
#[derive(Debug, Clone, Copy)]
pub struct Voice {
    /// The nine-bit wave number; the high bit rides the F-number register.
    pub wave_low: u8,
    pub wave_high: bool,
    /// Ten bits of F-number and a signed four-bit octave.
    pub fnum: u16,
    pub octave: i8,
    pub total_level: u8,
    /// Pan 0-15.
    pub pan: u8,
    pub keyed: bool,
    /// The fade-out after key-off, 0-255.
    pub release: u8,
    /// From the loaded header.
    pub format: Format,
    pub start: u32,
    pub loop_start: u32,
    pub end: u32,
    /// Sample index, 16.16.
    pub position: u64,
}

impl Voice {
    pub open spec fn cleared() -> Voice {
        Voice {
            wave_low: 0,
            wave_high: false,
            fnum: 0,
            octave: 0,
            total_level: 0,
            pan: 0,
            keyed: false,
            release: 0,
            format: Format::Pcm8,
            start: 0,
            loop_start: 0,
            end: 0,
            position: 0,
        }
    }

    pub open spec fn inv(self) -> bool {
        &&& self.fnum <= 0x3FF
        &&& -8 <= self.octave <= 7
        &&& self.total_level <= 127
        &&& self.pan <= 15
        &&& self.start <= 0x3F_FFFF
        &&& self.loop_start <= 0xFFFF
        &&& self.end <= 0x1_0000
    }

    /// The 16.16 sample step: `(1024 + fnum) * 2^octave / 1024`.
    pub open spec fn spec_step(self) -> u64 {
        let base = (((1024 + self.fnum) as u64) << 16u64) >> 10u64;
        if self.octave >= 0 {
            base << (self.octave as u64)
        } else {
            base >> ((-self.octave) as u64)
        }
    }

    fn step(&self) -> (s: u64)
        requires
            self.inv(),
        ensures
            s == self.spec_step(),
            s <= 0x100_0000,
    {
        let f = (1024 + self.fnum) as u64;
        assert((f << 16u64) >> 10u64 <= 0x2_0000) by {
            lemma_u64(f, 0);
            lemma_u64(f << 16u64, 0);
        }
        let base = (f << 16) >> 10;
        if self.octave >= 0 {
            let o = self.octave as u64;
            assert(base << o <= 0x100_0000) by (bit_vector)
                requires
                    base <= 0x2_0000,
                    o <= 7,
            ;
            base << o
        } else {
            let o = (-self.octave) as u64;
            assert(base >> o <= base) by {
                lemma_u64(base, o);
            }
            base >> o
        }
    }

    /// The sample index this frame reads: past the end it wraps into the
    /// loop window.
    pub open spec fn index(self) -> int {
        let si = ((self.position >> 16u64) as u32) as int;
        if si >= (if self.end > 1 { self.end as int } else { 1 }) {
            let span: int = if self.end > self.loop_start + 1 { self.end - self.loop_start } else { 1 };
            self.loop_start + (si - self.end) % span
        } else {
            si
        }
    }
}

/// One sample of `format` at sample index `index` from `base`, if the ROM
/// holds it: 8-bit, packed 12-bit (`[a11-4][a3-0 b3-0][b11-4]`), or 16-bit
/// big-endian, all scaled to sixteen bits.
pub open spec fn sample_at(rom: Seq<u8>, format: Format, base: int, index: int) -> Option<int> {
    match format {
        Format::Pcm8 => {
            if base + index < rom.len() {
                Some((rom[base + index] as i8) * 256)
            } else {
                None
            }
        },
        Format::Pcm12 => {
            let at = base + (index / 2) * 3;
            if at + 3 <= rom.len() {
                let v = if index % 2 == 0 {
                    (rom[at] as i8) * 16 + (rom[at + 1] >> 4u8)
                } else {
                    (rom[at + 2] as i8) * 16 + (rom[at + 1] & 0x0F)
                };
                Some(v * 16)
            } else {
                None
            }
        },
        Format::Pcm16 => {
            let at = base + index * 2;
            if at + 2 <= rom.len() {
                Some(((rom[at] as u16 * 256 + rom[at + 1]) as u16 as i16) as int)
            } else {
                None
            }
        },
    }
}

/// The pan's attenuation of the left side (9-15) and of the right (1-7);
/// 0 and 8 are centre.
pub open spec fn pan_attenuation(pan: int) -> (int, int) {
    (if pan >= 9 { pan - 8 } else { 0 }, if 1 <= pan <= 7 { pan } else { 0 })
}

impl Voice {
    /// The voice one frame on and its scaled value, if it sounds: a keyed
    /// voice, or one fading out after key-off, reads its sample; a read
    /// past the ROM silences it.
    pub open spec fn read(self, rom: Seq<u8>) -> (Voice, Option<int>) {
        let fading = !self.keyed && self.release > 0;
        if !self.keyed && !fading {
            (self, None)
        } else {
            match sample_at(rom, self.format, self.start as int, self.index()) {
                None => (Voice { keyed: false, release: 0, ..self }, None),
                Some(value) => {
                    let moved = Voice { position: wrapped64(self.position, self.spec_step()), ..self };
                    let scaled = ((value * level_gain_of(self.total_level)) as i32 >> 18i32) as int;
                    if fading {
                        (
                            Voice {
                                release: if self.release >= 2 { (self.release - 2) as u8 } else { 0 },
                                ..moved
                            },
                            Some(((scaled * self.release) as i32 >> 8i32) as int),
                        )
                    } else {
                        (moved, Some(scaled))
                    }
                },
            }
        }
    }

    pub open spec fn out(self, rom: Seq<u8>) -> (int, int) {
        match self.read(rom).1 {
            Some(v) => {
                let (la, ra) = pan_attenuation(self.pan as int);
                (((v * (8 - la)) as i32 >> 3i32) as int, ((v * (8 - ra)) as i32 >> 3i32) as int)
            },
            None => (0, 0),
        }
    }
}

impl Default for Voice {
    fn default() -> (v: Voice)
        ensures
            v == Voice::cleared(),
    {
        Voice {
            wave_low: 0,
            wave_high: false,
            fnum: 0,
            octave: 0,
            total_level: 0,
            pan: 0,
            keyed: false,
            release: 0,
            format: Format::Pcm8,
            start: 0,
            loop_start: 0,
            end: 0,
            position: 0,
        }
    }
}

/// The YMF278B, wave side.
#[derive(Debug)]
pub struct Ymf278b {
    pub rate: u32,
    pub voices: [Voice; 24],
    pub rom: Vec<u8>,
}

impl Ymf278b {
    pub open spec fn cleared(rate: u32, rom: Vec<u8>) -> Ymf278b {
        Ymf278b { rate, voices: spec_array_fill_for_copy_type(Voice::cleared()), rom }
    }

    fn clear(rate: u32, rom: Vec<u8>) -> (chip: Ymf278b)
        ensures
            chip == Ymf278b::cleared(rate, rom),
    {
        let v = Voice::default();
        Ymf278b { rate, voices: [v; 24], rom }
    }

    /// A chip with no clock yet and no ROM.
    pub fn new() -> (chip: Ymf278b)
        ensures
            chip == Ymf278b::cleared(44_100, chip.rom),
            chip.rom@.len() == 0,
    {
        Self::clear(44_100, Vec::new())
    }

    pub open spec fn inv(self) -> bool {
        forall|i: int| 0 <= i < 24 ==> #[trigger] self.voices[i].inv()
    }

    /// One sample of `format` at `index` from `base`.
    pub fn sample(&self, format: Format, base: u32, index: u32) -> (s: Option<i32>)
        requires
            base <= 0x3F_FFFF,
            index <= 0x1_0000,
        ensures
            s matches Some(v) ==> sample_at(self.rom@, format, base as int, index as int) == Some(v as int),
            s is None ==> sample_at(self.rom@, format, base as int, index as int) is None,
            s matches Some(v) ==> -32768 <= v <= 32767,
    {
        match format {
            Format::Pcm8 => {
                let at = (base + index) as usize;
                if at < self.rom.len() {
                    Some((self.rom[at] as i8 as i32) * 256)
                } else {
                    None
                }
            },
            Format::Pcm12 => {
                let at = (base + (index / 2) * 3) as usize;
                if at + 3 <= self.rom.len() {
                    let b1 = self.rom[at + 1];
                    assert(b1 >> 4u8 <= 15 && b1 & 0x0F <= 15) by {
                        lemma_u8(b1, 0x0F);
                    }
                    let v = if index % 2 == 0 {
                        (self.rom[at] as i8 as i32) * 16 + (b1 >> 4) as i32
                    } else {
                        (self.rom[at + 2] as i8 as i32) * 16 + (b1 & 0x0F) as i32
                    };
                    Some(v * 16)
                } else {
                    None
                }
            },
            Format::Pcm16 => {
                let at = (base + index * 2) as usize;
                if at + 2 <= self.rom.len() {
                    Some(((self.rom[at] as u16) * 256 + self.rom[at + 1] as u16) as i16 as i32)
                } else {
                    None
                }
            },
        }
    }

    fn play(&mut self, i: usize) -> (o: (i32, i32))
        requires
            old(self).inv(),
            i < 24,
        ensures
            final(self).inv(),
            *final(self) == (Ymf278b {
                voices: spec_array_update(old(self).voices, i as int, old(self).voices[i as int].read(old(self).rom@).0),
                ..*old(self)
            }),
            o.0 == old(self).voices[i as int].out(old(self).rom@).0,
            o.1 == old(self).voices[i as int].out(old(self).rom@).1,
            -8192 <= o.0 <= 8191,
            -8192 <= o.1 <= 8191,
    {
        let mut v = self.voices[i];
        assert(old(self).voices[i as int].inv());
        let fading = !v.keyed && v.release > 0;
        if !v.keyed && !fading {
            assert(self.voices =~= spec_array_update(old(self).voices, i as int, v));
            return (0, 0);
        }
        let pos = v.position;
        let si = (v.position >> 16) as u32;
        let end1 = if v.end > 1 { v.end } else { 1 };
        let index: u32 = if si >= end1 {
            let span: u32 = if v.end > v.loop_start + 1 { v.end - v.loop_start } else { 1 };
            v.loop_start + (si - v.end) % span
        } else {
            si
        };
        let value = match self.sample(v.format, v.start, index) {
            Some(x) => x,
            None => {
                v.keyed = false;
                v.release = 0;
                self.voices[i] = v;
                assert(self.voices =~= spec_array_update(old(self).voices, i as int, old(self).voices[i as int].read(old(self).rom@).0));
                assert forall|j: int| 0 <= j < 24 implies #[trigger] self.voices[j].inv() by {
                    assert(old(self).voices[j].inv());
                }
                return (0, 0);
            },
        };
        v.position = v.position.wrapping_add(v.step());
        let gain = level_gain(v.total_level);
        assert(-32768 * 65536 <= value * gain <= 32767 * 65536) by (nonlinear_arith)
            requires
                -32768 <= value <= 32767,
                0 <= gain <= 65536,
        ;
        let x = value * gain;
        assert(-8192 <= x >> 18i32 <= 8191) by {
            lemma_i32_shr(x);
        }
        let mut scaled = x >> 18;
        if fading {
            let r = v.release as i32;
            assert(-8192 * 255 <= scaled * r <= 8191 * 255) by (nonlinear_arith)
                requires
                    -8192 <= scaled <= 8191,
                    0 <= r <= 255,
            ;
            let y = scaled * r;
            assert(-8192 <= y >> 8i32 <= 8191) by {
                lemma_i32_shr(y);
            }
            scaled = y >> 8;
            v.release = v.release.saturating_sub(2);
        }
        self.voices[i] = v;
        let pan = v.pan as i32;
        let la: i32 = if pan >= 9 { pan - 8 } else { 0 };
        let ra: i32 = if 1 <= pan && pan <= 7 { pan } else { 0 };
        assert(-8192 * 8 <= scaled * (8 - la) <= 8191 * 8) by (nonlinear_arith)
            requires
                -8192 <= scaled <= 8191,
                0 <= la <= 7,
        ;
        assert(-8192 * 8 <= scaled * (8 - ra) <= 8191 * 8) by (nonlinear_arith)
            requires
                -8192 <= scaled <= 8191,
                0 <= ra <= 7,
        ;
        let xl = scaled * (8 - la);
        let xr = scaled * (8 - ra);
        assert(-8192 <= xl >> 3i32 <= 8191 && -8192 <= xr >> 3i32 <= 8191) by {
            lemma_i32_shr(xl);
            lemma_i32_shr(xr);
        }
        assert(self.voices =~= spec_array_update(old(self).voices, i as int, old(self).voices[i as int].read(old(self).rom@).0));
        assert forall|j: int| 0 <= j < 24 implies #[trigger] self.voices[j].inv() by {
            assert(old(self).voices[j].inv());
        }
        (xl >> 3, xr >> 3)
    }

    pub open spec fn mixed(self, n: int) -> (int, int)
        decreases n,
    {
        if n <= 0 {
            (0, 0)
        } else {
            let (l, r) = self.mixed(n - 1);
            let (a, b) = self.voices[n - 1].out(self.rom@);
            (l + a, r + b)
        }
    }

    pub open spec fn advanced(self) -> Ymf278b {
        let r = |i: int| self.voices[i].read(self.rom@).0;
        Ymf278b {
            voices: [
                r(0), r(1), r(2), r(3), r(4), r(5), r(6), r(7), r(8), r(9), r(10), r(11), r(12),
                r(13), r(14), r(15), r(16), r(17), r(18), r(19), r(20), r(21), r(22), r(23),
            ],
            ..self
        }
    }

    fn tick(&mut self) -> (o: (i32, i32))
        requires
            old(self).inv(),
        ensures
            final(self).inv(),
            *final(self) == old(self).advanced(),
            o.0 == old(self).mixed(24).0,
            o.1 == old(self).mixed(24).1,
    {
        let ghost start = *self;
        let mut left: i32 = 0;
        let mut right: i32 = 0;
        let mut i: usize = 0;
        while i < 24
            invariant
                i <= 24,
                self.inv(),
                *self == (Ymf278b { voices: self.voices, ..start }),
                forall|j: int| 0 <= j < i ==> #[trigger] self.voices[j] == start.voices[j].read(start.rom@).0,
                forall|j: int| i <= j < 24 ==> #[trigger] self.voices[j] == start.voices[j],
                (left as int, right as int) == start.mixed(i as int),
                -8192 * i <= left <= 8191 * i,
                -8192 * i <= right <= 8191 * i,
            decreases 24 - i,
        {
            let (l, r) = self.play(i);
            left = left + l;
            right = right + r;
            i = i + 1;
        }
        assert(self.voices =~= start.advanced().voices);
        (left, right)
    }

    /// Voice `i` after its header is loaded from the ROM: 12 bytes at
    /// `wave * 12`, with the end field stored negated. A header past the
    /// ROM leaves the voice as it was.
    pub open spec fn header_loaded(v: Voice, rom: Seq<u8>) -> Voice {
        let at = ((v.wave_low as int) + (if v.wave_high { 256int } else { 0 })) * 12;
        if at + 12 > rom.len() {
            v
        } else {
            let h0 = rom[at];
            Voice {
                format: if h0 >> 6u8 == 1 {
                    Format::Pcm12
                } else if h0 >> 6u8 == 2 {
                    Format::Pcm16
                } else {
                    Format::Pcm8
                },
                start: ((h0 & 0x3F) * 65536 + rom[at + 1] * 256 + rom[at + 2]) as u32,
                loop_start: (rom[at + 3] * 256 + rom[at + 4]) as u32,
                end: (0x1_0000 - (rom[at + 5] * 256 + rom[at + 6])) as u32,
                ..v
            }
        }
    }

    /// The chip after byte `d` lands in wave-side register `reg`.
    pub open spec fn register_set(self, reg: int, d: u8) -> Ymf278b {
        if 0x08 <= reg <= 0x1F {
            let i = reg - 0x08;
            let v = Voice { wave_low: d, ..self.voices[i] };
            Ymf278b { voices: spec_array_update(self.voices, i, Ymf278b::header_loaded(v, self.rom@)), ..self }
        } else if 0x20 <= reg <= 0x37 {
            let i = reg - 0x20;
            let v = self.voices[i];
            let n = Voice { wave_high: d & 0x01 != 0, fnum: ((v.fnum & 0x380) | ((d >> 1u8) as u16)) as u16, ..v };
            Ymf278b { voices: spec_array_update(self.voices, i, n), ..self }
        } else if 0x38 <= reg <= 0x4F {
            let i = reg - 0x38;
            let v = self.voices[i];
            let o = (d >> 4u8) as int;
            let n = Voice {
                fnum: ((v.fnum & 0x07F) | (((d & 0x07) as u16) << 7u16)) as u16,
                octave: (if o >= 8 { o - 16 } else { o }) as i8,
                ..v
            };
            Ymf278b { voices: spec_array_update(self.voices, i, n), ..self }
        } else if 0x50 <= reg <= 0x67 {
            let i = reg - 0x50;
            Ymf278b {
                voices: spec_array_update(self.voices, i, Voice { total_level: d >> 1u8, ..self.voices[i] }),
                ..self
            }
        } else if 0x68 <= reg <= 0x7F {
            let i = reg - 0x68;
            let v = self.voices[i];
            let key = d & 0x80 != 0;
            let w = Voice { keyed: key, pan: d & 0x0F, ..v };
            let n = if key && !v.keyed { Voice { position: 0, release: 255, ..w } } else { w };
            Ymf278b { voices: spec_array_update(self.voices, i, n), ..self }
        } else {
            self
        }
    }

    fn load_header(&mut self, i: usize)
        requires
            old(self).inv(),
            i < 24,
        ensures
            final(self).inv(),
            *final(self) == (Ymf278b {
                voices: spec_array_update(old(self).voices, i as int, Ymf278b::header_loaded(old(self).voices[i as int], old(self).rom@)),
                ..*old(self)
            }),
    {
        let mut v = self.voices[i];
        assert(old(self).voices[i as int].inv());
        let at = ((v.wave_low as usize) + (if v.wave_high { 256 } else { 0 })) * 12;
        if at + 12 > self.rom.len() {
            assert(self.voices =~= spec_array_update(old(self).voices, i as int, v));
            return;
        }
        let h0 = self.rom[at];
        assert(h0 >> 6u8 <= 3 && h0 & 0x3F <= 0x3F) by {
            lemma_u8(h0, 0x3F);
        }
        v.format = if h0 >> 6 == 1 {
            Format::Pcm12
        } else if h0 >> 6 == 2 {
            Format::Pcm16
        } else {
            Format::Pcm8
        };
        v.start = (h0 & 0x3F) as u32 * 65536 + self.rom[at + 1] as u32 * 256 + self.rom[at + 2] as u32;
        v.loop_start = self.rom[at + 3] as u32 * 256 + self.rom[at + 4] as u32;
        v.end = 0x1_0000 - (self.rom[at + 5] as u32 * 256 + self.rom[at + 6] as u32);
        self.voices[i] = v;
        assert(self.voices =~= spec_array_update(old(self).voices, i as int, Ymf278b::header_loaded(old(self).voices[i as int], old(self).rom@)));
        assert forall|j: int| 0 <= j < 24 implies #[trigger] self.voices[j].inv() by {
            assert(old(self).voices[j].inv());
        }
    }

    fn write_register(&mut self, reg: usize, d: u8)
        requires
            old(self).inv(),
            reg <= 0xFF,
        ensures
            final(self).inv(),
            *final(self) == old(self).register_set(reg as int, d),
    {
        if 0x08 <= reg && reg <= 0x1F {
            let i = reg - 0x08;
            let mut v = self.voices[i];
            v.wave_low = d;
            self.voices[i] = v;
            assert forall|j: int| 0 <= j < 24 implies #[trigger] self.voices[j].inv() by {
                assert(old(self).voices[j].inv());
            }
            self.load_header(i);
            assert(self.voices =~= old(self).register_set(reg as int, d).voices);
            return;
        }
        let i: usize = if 0x20 <= reg && reg <= 0x37 {
            reg - 0x20
        } else if 0x38 <= reg && reg <= 0x4F {
            reg - 0x38
        } else if 0x50 <= reg && reg <= 0x67 {
            reg - 0x50
        } else if 0x68 <= reg && reg <= 0x7F {
            reg - 0x68
        } else {
            return;
        };
        let mut v = self.voices[i];
        assert(old(self).voices[i as int].inv());
        let f = v.fnum;
        assert((f & 0x380) | ((d >> 1u8) as u16) <= 0x3FF && (f & 0x07F) | (((d & 0x07) as u16) << 7u16)
            <= 0x3FF && d >> 1u8 <= 127 && d & 0x0F <= 15 && d >> 4u8 <= 15) by {
            lemma_u8(d, 0x0F);
            lemma_u8(d, 0x07);
            lemma_u16((d >> 1u8) as u16, 0);
            lemma_u16((d & 0x07) as u16, 0);
            lemma_u16(f, 0x380);
            lemma_u16(f & 0x380, (d >> 1u8) as u16);
            lemma_u16(f, 0x07F);
            lemma_u16(f & 0x07F, ((d & 0x07) as u16) << 7u16);
        }
        if 0x20 <= reg && reg <= 0x37 {
            v.wave_high = d & 0x01 != 0;
            v.fnum = (v.fnum & 0x380) | ((d >> 1) as u16);
        } else if 0x38 <= reg && reg <= 0x4F {
            v.fnum = (v.fnum & 0x07F) | (((d & 0x07) as u16) << 7);
            let o = (d >> 4) as i8;
            v.octave = if o >= 8 { o - 16 } else { o };
        } else if 0x50 <= reg && reg <= 0x67 {
            v.total_level = d >> 1;
        } else {
            let key = d & 0x80 != 0;
            if key && !v.keyed {
                v.position = 0;
                v.release = 255;
            }
            v.keyed = key;
            v.pan = d & 0x0F;
        }
        self.voices[i] = v;
        assert(self.voices =~= old(self).register_set(reg as int, d).voices);
        assert forall|j: int| 0 <= j < 24 implies #[trigger] self.voices[j].inv() by {
            assert(old(self).voices[j].inv());
        }
    }
}

impl Default for Ymf278b {
    fn default() -> (chip: Ymf278b)
        ensures
            chip == Ymf278b::cleared(44_100, chip.rom),
            chip.rom@.len() == 0,
    {
        Self::new()
    }
}

impl ChipState for Ymf278b {
    open spec fn inv(&self) -> bool {
        Ymf278b::inv(*self)
    }

    open spec fn stepped(&self) -> Ymf278b {
        self.advanced()
    }

    open spec fn frame(&self) -> (i32, i32) {
        (self.mixed(24).0 as i32, self.mixed(24).1 as i32)
    }

    fn next_frame(&mut self) -> (f: (i32, i32)) {
        self.tick()
    }
}

impl ChipCore for Ymf278b {
    /// The sample memory survives.
    fn reset(&mut self, clock: u32, variant: bool)
        ensures
            *final(self) == Ymf278b::cleared(
                if clock / CLOCK_DIVIDER > 1 { clock / CLOCK_DIVIDER } else { 1 },
                old(self).rom,
            ),
    {
        let mut rom: Vec<u8> = Vec::new();
        std::mem::swap(&mut rom, &mut self.rom);
        let rate = clock / CLOCK_DIVIDER;
        *self = Self::clear(if rate > 1 { rate } else { 1 }, rom);
    }

    fn native_rate(&self) -> (rate: u32)
        ensures
            rate == self.rate,
    {
        self.rate
    }

    /// Port 2 carries the wave side; ports 0-1 are the FM half, not
    /// modelled. Registers from `0x80` (LFO, envelope rates) are read by
    /// nothing here.
    fn write(&mut self, port: u8, addr: u16, data: u16)
        ensures
            *final(self) == (if port == 2 {
                old(self).register_set((addr & 0xFF) as int, (data & 0xFF) as u8)
            } else {
                *old(self)
            }),
    {
        if port != 2 {
            return;
        }
        assert(addr & 0xFF <= 0xFF) by {
            lemma_u16(addr, 0xFF);
        }
        self.write_register((addr & 0xFF) as usize, (data & 0xFF) as u8);
    }

    /// The sample memory: ROM and RAM blocks, one image.
    fn load_rom(&mut self, block_type: u8, total_size: u32, start: u32, data: &[u8])
        ensures
            final(self).rom@ == image_loaded(old(self).rom@, total_size as nat, start as nat, data@),
            *final(self) == (Ymf278b { rom: final(self).rom, ..*old(self) }),
    {
        load_image(&mut self.rom, total_size, start, data);
    }
}

} // verus!
