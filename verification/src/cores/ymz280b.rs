//! The Yamaha YMZ280B: eight voices of ADPCM or PCM from ROM.
//!
//! The register file is banked by function: the per-voice pitch, control,
//! level and pan live at `0x00`-`0x1F`, and the address bytes are spread
//! across three upper banks -- high bytes at `0x20`-`0x3F`, mids at
//! `0x40`-`0x5F`, lows at `0x60`-`0x7F`. The ADPCM is the OKI step ladder
//! into a **16-bit clamping** accumulator. The DSP, interrupt and enable
//! block above `0x80` is not modelled.

use vstd::prelude::*;
use crate::bits::{lemma_i32_shr, lemma_u16, lemma_u32, lemma_u8};

use crate::chip::{image_loaded, load_image, ChipCore, ChipState};
use vstd::array::{spec_array_fill_for_copy_type, spec_array_update};

verus! {

/// One frame per 384 clocks: 44.1 kHz at the usual 16.9344 MHz.
pub const CLOCK_DIVIDER: u32 = 384;

/// The OKI step ladder.
pub const STEPS: [i32; 49] = [
    16, 17, 19, 21, 23, 25, 28, 31, 34, 37, 41, 45, 50, 55, 60, 66, 73, 80, 88, 97, 107, 118, 130,
    143, 157, 173, 190, 209, 230, 253, 279, 307, 337, 371, 408, 449, 494, 544, 598, 658, 724, 796,
    876, 963, 1060, 1166, 1282, 1411, 1552,
];

/// How a nibble's magnitude moves the ladder index.
pub const INDEX_DELTA: [i32; 8] = [-1, -1, -1, -1, 2, 5, 7, 9];

pub open spec fn step_size(i: int) -> i32 {
    STEPS[i]
}

pub open spec fn index_delta(m: int) -> i32 {
    INDEX_DELTA[m]
}

pub proof fn lemma_tables_bounded()
    ensures
        forall|i: int| 0 <= i < 49 ==> 16 <= #[trigger] step_size(i) <= 1552,
        forall|m: int| 0 <= m < 8 ==> -1 <= #[trigger] index_delta(m) <= 9,
{
    assert forall|i: int| 0 <= i < 49 implies 16 <= #[trigger] step_size(i) <= 1552 by {
        assert(STEPS@[i] == STEPS[i]);
    }
    assert(INDEX_DELTA@ =~= seq![-1i32, -1i32, -1i32, -1i32, 2i32, 5i32, 7i32, 9i32]);
}

/// `x` held to `lo..=hi`.
pub open spec fn clamp(x: int, lo: int, hi: int) -> int {
    if x < lo {
        lo
    } else if x > hi {
        hi
    } else {
        x
    }
}

/// `a + b` wrapped to 32 bits.
pub open spec fn wrapped(a: u32, b: u32) -> u32 {
    if a + b > u32::MAX {
        (a + b - 0x1_0000_0000) as u32
    } else {
        (a + b) as u32
    }
}

/// What a voice's mode bits say it plays.
#[derive(Debug, Clone, Copy, PartialEq, Eq, Structural)]
pub enum Mode {
    Adpcm,
    Pcm8,
    Pcm16,
}

/// One voice.
#[derive(Debug, Clone, Copy)]
pub struct Voice {
    /// Nine bits: `(pitch + 1) / 256` source samples per frame.
    pub pitch: u16,
    pub mode: Mode,
    pub looping: bool,
    pub level: u8,
    /// Pan 0-15, centre 8.
    pub pan: u8,
    /// 24-bit byte addresses.
    pub start: u32,
    pub loop_start: u32,
    pub loop_end: u32,
    pub end: u32,
    /// Sample index from the start, 16.8.
    pub position: u32,
    pub playing: bool,
    /// ADPCM state: the accumulator and the ladder index.
    pub signal: i32,
    pub step: i32,
}

impl Voice {
    pub open spec fn cleared() -> Voice {
        Voice {
            pitch: 0,
            mode: Mode::Adpcm,
            looping: false,
            level: 0,
            pan: 0,
            start: 0,
            loop_start: 0,
            loop_end: 0,
            end: 0,
            position: 0,
            playing: false,
            signal: 0,
            step: 0,
        }
    }

    pub open spec fn inv(self) -> bool {
        &&& self.pitch <= 0x1FF
        &&& self.pan <= 15
        &&& self.start <= 0xFF_FFFF
        &&& self.loop_start <= 0xFF_FFFF
        &&& self.loop_end <= 0xFF_FFFF
        &&& self.end <= 0xFF_FFFF
        &&& -32768 <= self.signal <= 32767
        &&& 0 <= self.step <= 48
    }

    /// One nibble into the accumulator: `(2m + 1) * step / 8`, signed by
    /// bit 3, clamped to sixteen bits; the ladder index moves by the
    /// magnitude.
    pub open spec fn decoded(self, nibble: u8) -> Voice {
        let m = (nibble & 0x07) as int;
        let delta = (2 * m + 1) * step_size(self.step as int) / 8;
        let signed = if nibble & 0x08 != 0 { -delta } else { delta };
        Voice {
            signal: clamp(self.signal + signed, -32768, 32767) as i32,
            step: clamp(self.step + index_delta(m), 0, 48) as i32,
            ..self
        }
    }

    pub fn decode_adpcm(&mut self, nibble: u8) -> (v: i32)
        requires
            old(self).inv(),
        ensures
            final(self).inv(),
            *final(self) == old(self).decoded(nibble),
            v == final(self).signal,
    {
        proof {
            lemma_tables_bounded();
        }
        let step = STEPS[self.step as usize];
        assert(nibble & 0x07 <= 7) by {
            lemma_u8(nibble, 0x07);
        }
        let magnitude = (nibble & 0x07) as i32;
        assert(0 <= (2 * magnitude + 1) * step <= 15 * 1552) by (nonlinear_arith)
            requires
                0 <= magnitude <= 7,
                16 <= step <= 1552,
        ;
        let delta = (2 * magnitude + 1) * step / 8;
        let signed = if nibble & 0x08 != 0 { -delta } else { delta };
        let s = self.signal + signed;
        self.signal = if s < -32768 { -32768 } else if s > 32767 { 32767 } else { s };
        let i = self.step + INDEX_DELTA[magnitude as usize];
        self.step = if i < 0 { 0 } else if i > 48 { 48 } else { i };
        self.signal
    }

    /// The byte address of the current sample, and whether it is past the
    /// end: nibbles in ADPCM mode, bytes in PCM8, byte pairs in PCM16.
    pub open spec fn locate(self) -> (int, bool) {
        let index = (self.position >> 8u32) as int;
        match self.mode {
            Mode::Adpcm => {
                let a = self.start + index / 2;
                (a, a >= (if self.end > self.start + 1 { self.end as int } else { self.start + 1 }))
            },
            Mode::Pcm8 => {
                let a = self.start + index;
                (a, a >= (if self.end > self.start + 1 { self.end as int } else { self.start + 1 }))
            },
            Mode::Pcm16 => {
                let a = self.start + index * 2;
                (a, a + 1 >= (if self.end > self.start + 2 { self.end as int } else { self.start + 2 }))
            },
        }
    }

    /// The voice one frame on and the value it sounds, if any. At its end a
    /// looping voice restarts its loop window and a one-shot stops; a read
    /// past the ROM stops it. ADPCM decodes a nibble only when the position
    /// reaches a fresh one and holds its level otherwise.
    pub open spec fn read(self, rom: Seq<u8>) -> (Voice, Option<int>) {
        let (address, at_end) = self.locate();
        let index = (self.position >> 8u32) as int;
        if !self.playing {
            (self, None)
        } else if at_end {
            if self.looping {
                (
                    Voice {
                        position: 0,
                        start: self.loop_start,
                        end: self.loop_end,
                        signal: 0,
                        step: 0,
                        ..self
                    },
                    None,
                )
            } else {
                (Voice { playing: false, ..self }, None)
            }
        } else if address >= rom.len() {
            (Voice { playing: false, ..self }, None)
        } else {
            let byte = rom[address];
            let moved = |v: Voice| Voice { position: wrapped(v.position, (v.pitch + 1) as u32), ..v };
            match self.mode {
                Mode::Adpcm => {
                    let nibble = if index % 2 == 0 { byte >> 4u8 } else { byte & 0x0F };
                    let limit: int = if self.pitch + 1 < 0xFF { self.pitch + 1 } else { 0xFF };
                    if (self.position & 0xFF) < limit {
                        let d = self.decoded(nibble);
                        (moved(d), Some(d.signal as int))
                    } else {
                        (moved(self), Some(self.signal as int))
                    }
                },
                Mode::Pcm8 => (moved(self), Some((byte as i8) * 256)),
                Mode::Pcm16 => {
                    let hi: u8 = if address + 1 < rom.len() { rom[address + 1] } else { 0 };
                    (moved(self), Some((((hi as u16) * 256 + byte) as u16 as i16) as int))
                },
            }
        }
    }

    pub open spec fn out(self, rom: Seq<u8>) -> (int, int) {
        match self.read(rom).1 {
            Some(v) => {
                let scaled = ((v * self.level) as i32 >> 7i32) as int;
                let pan = self.pan as int;
                (
                    ((scaled * (16 - pan)) as i32 >> 3i32) as int,
                    ((scaled * (if pan > 1 { pan } else { 1 })) as i32 >> 3i32) as int,
                )
            },
            None => (0, 0),
        }
    }

    fn play(&mut self, rom: &Vec<u8>) -> (o: (i32, i32))
        requires
            old(self).inv(),
        ensures
            final(self).inv(),
            *final(self) == old(self).read(rom@).0,
            o.0 == old(self).out(rom@).0,
            o.1 == old(self).out(rom@).1,
            -130_560 <= o.0 <= 130_560,
            -130_560 <= o.1 <= 130_560,
    {
        if !self.playing {
            return (0, 0);
        }
        let index = self.position >> 8;
        let pos = self.position;
        assert(pos >> 8u32 <= 0xFF_FFFF) by {
            lemma_u32(pos, 0);
        }
        let (address, at_end) = match self.mode {
            Mode::Adpcm => {
                let a = self.start + index / 2;
                (a, a >= (if self.end > self.start + 1 { self.end } else { self.start + 1 }))
            },
            Mode::Pcm8 => {
                let a = self.start + index;
                (a, a >= (if self.end > self.start + 1 { self.end } else { self.start + 1 }))
            },
            Mode::Pcm16 => {
                let a = self.start + index * 2;
                (a, a + 1 >= (if self.end > self.start + 2 { self.end } else { self.start + 2 }))
            },
        };
        if at_end {
            if self.looping {
                self.position = 0;
                self.start = self.loop_start;
                self.end = self.loop_end;
                self.signal = 0;
                self.step = 0;
            } else {
                self.playing = false;
            }
            return (0, 0);
        }
        if address as usize >= rom.len() {
            self.playing = false;
            return (0, 0);
        }
        let byte = rom[address as usize];
        let value: i32 = match self.mode {
            Mode::Adpcm => {
                let nibble = if index % 2 == 0 { byte >> 4 } else { byte & 0x0F };
                let limit: u32 = if (self.pitch + 1) < 0xFF { (self.pitch + 1) as u32 } else { 0xFF };
                if self.position & 0xFF < limit {
                    self.decode_adpcm(nibble)
                } else {
                    self.signal
                }
            },
            Mode::Pcm8 => (byte as i8 as i32) * 256,
            Mode::Pcm16 => {
                let hi: u8 = if (address as usize) + 1 < rom.len() { rom[address as usize + 1] } else { 0 };
                ((hi as u16) * 256 + byte as u16) as i16 as i32
            },
        };
        self.position = self.position.wrapping_add(self.pitch as u32 + 1);
        let lv = self.level as i32;
        assert(-32768 * 255 <= value * lv <= 32767 * 255) by (nonlinear_arith)
            requires
                -32768 <= value <= 32767,
                0 <= lv <= 255,
        ;
        let x = value * lv;
        assert(-65_280 <= x >> 7i32 <= 65_280) by {
            lemma_i32_shr(x);
        }
        let scaled = x >> 7;
        let pan = self.pan as i32;
        let pr: i32 = if pan > 1 { pan } else { 1 };
        assert(-65_280 * 16 <= scaled * (16 - pan) <= 65_280 * 16) by (nonlinear_arith)
            requires
                -65_280 <= scaled <= 65_280,
                0 <= pan <= 15,
        ;
        assert(-65_280 * 16 <= scaled * pr <= 65_280 * 16) by (nonlinear_arith)
            requires
                -65_280 <= scaled <= 65_280,
                1 <= pr <= 15,
        ;
        let xl = scaled * (16 - pan);
        let xr = scaled * pr;
        assert(-130_560 <= xl >> 3i32 <= 130_560 && -130_560 <= xr >> 3i32 <= 130_560) by {
            lemma_i32_shr(xl);
            lemma_i32_shr(xr);
        }
        (xl >> 3, xr >> 3)
    }
}

impl Default for Voice {
    fn default() -> (v: Voice)
        ensures
            v == Voice::cleared(),
    {
        Voice {
            pitch: 0,
            mode: Mode::Adpcm,
            looping: false,
            level: 0,
            pan: 0,
            start: 0,
            loop_start: 0,
            loop_end: 0,
            end: 0,
            position: 0,
            playing: false,
            signal: 0,
            step: 0,
        }
    }
}

/// One byte of a 24-bit address replaced: the byte at bit `shift`.
pub open spec fn byte_set(target: u32, shift: u32, d: u8) -> u32 {
    (target & !(0xFFu32 << shift)) | ((d as u32) << shift)
}

fn set_byte(target: u32, shift: u32, d: u8) -> (r: u32)
    requires
        target <= 0xFF_FFFF,
        shift == 0 || shift == 8 || shift == 16,
    ensures
        r == byte_set(target, shift, d),
        r <= 0xFF_FFFF,
{
    assert((target & !(0xFFu32 << shift)) | ((d as u32) << shift) <= 0xFF_FFFF) by (bit_vector)
        requires
            target <= 0xFF_FFFF,
            shift == 0 || shift == 8 || shift == 16,
    ;
    (target & !(0xFFu32 << shift)) | ((d as u32) << shift)
}

/// The YMZ280B.
#[derive(Debug)]
pub struct Ymz280b {
    pub rate: u32,
    pub voices: [Voice; 8],
    pub rom: Vec<u8>,
}

impl Ymz280b {
    pub open spec fn cleared(rate: u32, rom: Vec<u8>) -> Ymz280b {
        Ymz280b { rate, voices: spec_array_fill_for_copy_type(Voice::cleared()), rom }
    }

    fn clear(rate: u32, rom: Vec<u8>) -> (chip: Ymz280b)
        ensures
            chip == Ymz280b::cleared(rate, rom),
    {
        let v = Voice::default();
        Ymz280b { rate, voices: [v; 8], rom }
    }

    /// A chip with no clock yet and no ROM.
    pub fn new() -> (chip: Ymz280b)
        ensures
            chip == Ymz280b::cleared(44_100, chip.rom),
            chip.rom@.len() == 0,
    {
        Self::clear(44_100, Vec::new())
    }

    pub open spec fn inv(self) -> bool {
        forall|i: int| 0 <= i < 8 ==> #[trigger] self.voices[i].inv()
    }

    pub open spec fn mixed(self, n: int) -> (int, int)
        decreases n,
    {
        if n <= 0 {
            (0, 0)
        } else {
            let (l, r) = self.mixed(n - 1);
            let (a, b) = self.voices[n - 1].out(self.rom@);
            (l + a, r + b)
        }
    }

    pub open spec fn advanced(self) -> Ymz280b {
        let r = |i: int| self.voices[i].read(self.rom@).0;
        Ymz280b { voices: [r(0), r(1), r(2), r(3), r(4), r(5), r(6), r(7)], ..self }
    }

    fn tick(&mut self) -> (o: (i32, i32))
        requires
            old(self).inv(),
        ensures
            final(self).inv(),
            *final(self) == old(self).advanced(),
            o.0 == old(self).mixed(8).0,
            o.1 == old(self).mixed(8).1,
    {
        let ghost start = *self;
        let mut left: i32 = 0;
        let mut right: i32 = 0;
        let mut i: usize = 0;
        while i < 8
            invariant
                i <= 8,
                start.inv(),
                *self == (Ymz280b { voices: self.voices, ..start }),
                forall|j: int|
                    0 <= j < i ==> #[trigger] self.voices[j] == start.voices[j].read(start.rom@).0
                        && self.voices[j].inv(),
                forall|j: int| i <= j < 8 ==> #[trigger] self.voices[j] == start.voices[j],
                (left as int, right as int) == start.mixed(i as int),
                -130_560 * i <= left <= 130_560 * i,
                -130_560 * i <= right <= 130_560 * i,
            decreases 8 - i,
        {
            assert(start.voices[i as int].inv());
            let mut v = self.voices[i];
            let (l, r) = v.play(&self.rom);
            self.voices[i] = v;
            left = left + l;
            right = right + r;
            i = i + 1;
        }
        assert(self.voices =~= start.advanced().voices);
        (left, right)
    }

    /// The chip after byte `d` lands in register `reg` (below `0x80`); the
    /// voice is `(reg >> 2) & 7`. The control register keys on an edge,
    /// restarting the voice and its decoder.
    pub open spec fn register_set(self, reg: u8, d: u8) -> Ymz280b {
        let i = ((reg >> 2u8) & 0x07) as int;
        let v = self.voices[i];
        let f = reg & 0xE3;
        let n = if f == 0x00 {
            Voice { pitch: ((v.pitch & 0x100) | (d as u16)) as u16, ..v }
        } else if f == 0x01 {
            let key = d & 0x80 != 0;
            let m = (d >> 5u8) & 0x03;
            let w = Voice {
                pitch: ((v.pitch & 0x0FF) | (((d & 0x01) as u16) << 8u16)) as u16,
                looping: d & 0x10 != 0,
                mode: if m == 2 { Mode::Pcm8 } else if m == 3 { Mode::Pcm16 } else { Mode::Adpcm },
                playing: key,
                ..v
            };
            if key && !v.playing {
                Voice { position: 0, signal: 0, step: 0, ..w }
            } else {
                w
            }
        } else if f == 0x02 {
            Voice { level: d, ..v }
        } else if f == 0x03 {
            Voice { pan: d & 0x0F, ..v }
        } else if f == 0x20 || f == 0x40 || f == 0x60 {
            Voice { start: byte_set(v.start, (16 - (f - 0x20) / 4) as u32, d), ..v }
        } else if f == 0x21 || f == 0x41 || f == 0x61 {
            Voice { loop_start: byte_set(v.loop_start, (16 - (f - 0x21) / 4) as u32, d), ..v }
        } else if f == 0x22 || f == 0x42 || f == 0x62 {
            Voice { loop_end: byte_set(v.loop_end, (16 - (f - 0x22) / 4) as u32, d), ..v }
        } else if f == 0x23 || f == 0x43 || f == 0x63 {
            Voice { end: byte_set(v.end, (16 - (f - 0x23) / 4) as u32, d), ..v }
        } else {
            v
        };
        if reg >= 0x80 {
            self
        } else {
            Ymz280b { voices: spec_array_update(self.voices, i, n), ..self }
        }
    }
}

impl Default for Ymz280b {
    fn default() -> (chip: Ymz280b)
        ensures
            chip == Ymz280b::cleared(44_100, chip.rom),
            chip.rom@.len() == 0,
    {
        Self::new()
    }
}

impl ChipState for Ymz280b {
    open spec fn inv(&self) -> bool {
        Ymz280b::inv(*self)
    }

    open spec fn stepped(&self) -> Ymz280b {
        self.advanced()
    }

    open spec fn frame(&self) -> (i32, i32) {
        (self.mixed(8).0 as i32, self.mixed(8).1 as i32)
    }

    fn next_frame(&mut self) -> (f: (i32, i32)) {
        self.tick()
    }
}

impl ChipCore for Ymz280b {
    /// The ROM survives.
    fn reset(&mut self, clock: u32, variant: bool)
        ensures
            *final(self) == Ymz280b::cleared(
                if clock / CLOCK_DIVIDER > 1 { clock / CLOCK_DIVIDER } else { 1 },
                old(self).rom,
            ),
    {
        let mut rom: Vec<u8> = Vec::new();
        std::mem::swap(&mut rom, &mut self.rom);
        let rate = clock / CLOCK_DIVIDER;
        *self = Self::clear(if rate > 1 { rate } else { 1 }, rom);
    }

    fn native_rate(&self) -> (rate: u32)
        ensures
            rate == self.rate,
    {
        self.rate
    }

    fn write(&mut self, port: u8, addr: u16, data: u16)
        ensures
            *final(self) == old(self).register_set((addr & 0xFF) as u8, (data & 0xFF) as u8),
    {
        let reg = (addr & 0xFF) as u8;
        let d = (data & 0xFF) as u8;
        if reg >= 0x80 {
            return;
        }
        assert((reg >> 2u8) & 0x07 < 8) by {
            lemma_u8(reg >> 2u8, 0x07);
        }
        let i = ((reg >> 2) & 0x07) as usize;
        let mut v = self.voices[i];
        assert(old(self).voices[i as int].inv());
        let f = reg & 0xE3;
        assert(d & 0x0F <= 15 && (d & 0x01) as u16 <= 1) by {
            lemma_u8(d, 0x0F);
            lemma_u8(d, 0x01);
        }
        let p = v.pitch;
        assert((p & 0x100) | (d as u16) <= 0x1FF && (p & 0x0FF) | (((d & 0x01) as u16) << 8u16) <= 0x1FF)
            by {
            lemma_u8(d, 0x01);
            lemma_u16((d & 0x01) as u16, 0);
            lemma_u16(p, 0x100);
            lemma_u16(p & 0x100, d as u16);
            lemma_u16(p, 0x0FF);
            lemma_u16(p & 0x0FF, ((d & 0x01) as u16) << 8u16);
        }
        if f == 0x00 {
            v.pitch = (v.pitch & 0x100) | (d as u16);
        } else if f == 0x01 {
            v.pitch = (v.pitch & 0x0FF) | (((d & 0x01) as u16) << 8);
            v.looping = d & 0x10 != 0;
            let m = (d >> 5) & 0x03;
            v.mode = if m == 2 { Mode::Pcm8 } else if m == 3 { Mode::Pcm16 } else { Mode::Adpcm };
            let key = d & 0x80 != 0;
            if key && !v.playing {
                v.position = 0;
                v.signal = 0;
                v.step = 0;
            }
            v.playing = key;
        } else if f == 0x02 {
            v.level = d;
        } else if f == 0x03 {
            v.pan = d & 0x0F;
        } else if f == 0x20 || f == 0x40 || f == 0x60 {
            v.start = set_byte(v.start, (16 - (f - 0x20) / 4) as u32, d);
        } else if f == 0x21 || f == 0x41 || f == 0x61 {
            v.loop_start = set_byte(v.loop_start, (16 - (f - 0x21) / 4) as u32, d);
        } else if f == 0x22 || f == 0x42 || f == 0x62 {
            v.loop_end = set_byte(v.loop_end, (16 - (f - 0x22) / 4) as u32, d);
        } else if f == 0x23 || f == 0x43 || f == 0x63 {
            v.end = set_byte(v.end, (16 - (f - 0x23) / 4) as u32, d);
        }
        self.voices[i] = v;
        assert(self.voices =~= old(self).register_set(reg, d).voices);
        assert forall|j: int| 0 <= j < 8 implies #[trigger] self.voices[j].inv() by {
            assert(old(self).voices[j].inv());
        }
    }

    /// The sample ROM.
    fn load_rom(&mut self, block_type: u8, total_size: u32, start: u32, data: &[u8])
        ensures
            final(self).rom@ == image_loaded(old(self).rom@, total_size as nat, start as nat, data@),
            *final(self) == (Ymz280b { rom: final(self).rom, ..*old(self) }),
    {
        load_image(&mut self.rom, total_size, start, data);
    }
}

} // verus!
