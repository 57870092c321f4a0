//! The Konami K053260: four voices of PCM or Konami DPCM from ROM.
//!
//! The first eight register addresses are CPU-to-CPU mailboxes and carry no
//! audio; the four voices live at `0x08`-`0x27`, and the shared key, loop,
//! mode and pan registers above them. Pitch is a divider against the chip's
//! tick (`clock / (0x1000 - pitch)`), length counts bytes, and the DPCM mode
//! steps a level by a table of nibble deltas.

use vstd::prelude::*;
use crate::bits::{lemma_i32_shr, lemma_u16, lemma_u32, lemma_u8};

use crate::chip::{image_loaded, load_image, ChipCore, ChipState};
use vstd::array::{spec_array_fill_for_copy_type, spec_array_update};

verus! {

/// One frame per 32 clocks.
pub const CLOCK_DIVIDER: u32 = 32;

/// The Konami DPCM nibble deltas.
pub const DPCM_DELTA: [i32; 16] = [0, 1, 2, 4, 8, 16, 32, 64, -128, -64, -32, -16, -8, -4, -2, -1];

pub open spec fn delta(nibble: int) -> i32 {
    DPCM_DELTA[nibble]
}

pub proof fn lemma_deltas_bounded()
    ensures
        forall|n: int| 0 <= n < 16 ==> -128 <= #[trigger] delta(n) <= 64,
{
    assert(DPCM_DELTA@ =~= seq![0i32, 1i32, 2i32, 4i32, 8i32, 16i32, 32i32, 64i32, -128i32, -64i32, -32i32, -16i32, -8i32, -4i32, -2i32, -1i32]);
}

/// `x` held to `lo..=hi`.
pub open spec fn clamp(x: int, lo: int, hi: int) -> int {
    if x < lo {
        lo
    } else if x > hi {
        hi
    } else {
        x
    }
}

/// `a + b` wrapped to 32 bits.
pub open spec fn wrapped(a: u32, b: u32) -> u32 {
    if a + b > u32::MAX {
        (a + b - 0x1_0000_0000) as u32
    } else {
        (a + b) as u32
    }
}

/// One voice.
#[derive(Debug, Clone, Copy)]
pub struct Voice {
    /// Twelve bits: a divider, `clock / (0x1000 - pitch)`.
    pub pitch: u16,
    /// Bytes to play.
    pub length: u32,
    /// 21-bit start address.
    pub start: u32,
    pub volume: u8,
    /// Pan 0-7 from the shared registers.
    pub pan: u8,
    pub looping: bool,
    pub dpcm: bool,
    /// Position in 16.16 bytes from the start.
    pub position: u32,
    pub playing: bool,
    /// DPCM level and nibble phase.
    pub level: i32,
    pub high_nibble: bool,
}

impl Voice {
    pub open spec fn cleared() -> Voice {
        Voice {
            pitch: 0,
            length: 0,
            start: 0,
            volume: 0,
            pan: 0,
            looping: false,
            dpcm: false,
            position: 0,
            playing: false,
            level: 0,
            high_nibble: false,
        }
    }

    pub open spec fn inv(self) -> bool {
        &&& self.length <= 0xFFFF
        &&& self.start <= 0x1F_FFFF
        &&& self.volume <= 0x7F
        &&& self.pan <= 7
        &&& -128 <= self.level <= 127
    }

    pub open spec fn step(self) -> u32 {
        let d = 0x1000 - (self.pitch & 0x0FFF);
        (CLOCK_DIVIDER * 65536 / (if d > 1 { d } else { 1 })) as u32
    }

    /// The voice one frame on and the value it sounds, if any. At the end of
    /// its length a looping voice restarts and a one-shot stops. In DPCM mode
    /// two samples share a byte, and each fresh nibble moves the level by its
    /// delta, held to eight bits.
    pub open spec fn read(self, rom: Seq<u8>) -> (Voice, Option<int>) {
        let index = self.position >> 16u32;
        let bytes = if self.dpcm { index / 2 } else { index };
        if !self.playing {
            (self, None)
        } else if bytes >= (if self.length > 1 { self.length } else { 1 }) {
            if self.looping {
                (Voice { position: 0, level: 0, high_nibble: false, ..self }, None)
            } else {
                (Voice { playing: false, ..self }, None)
            }
        } else if self.start + bytes >= rom.len() {
            (Voice { playing: false, ..self }, None)
        } else {
            let byte = rom[self.start + bytes];
            let moved = Voice { position: wrapped(self.position, self.step()), ..self };
            if self.dpcm {
                let nibble = if index % 2 == 0 { byte & 0x0F } else { byte >> 4u8 };
                let fresh = (index % 2 == 1) != self.high_nibble || index == 0;
                let level = if fresh {
                    clamp(self.level + delta(nibble as int), -128, 127) as i32
                } else {
                    self.level
                };
                let high = if fresh { index % 2 == 1 } else { self.high_nibble };
                (Voice { level, high_nibble: high, ..moved }, Some(level as int))
            } else {
                (moved, Some((byte as i8) as int))
            }
        }
    }

    /// The voice's `(left, right)` this frame, panned over eight steps.
    pub open spec fn out(self, rom: Seq<u8>) -> (int, int) {
        match self.read(rom).1 {
            Some(v) => {
                let scaled = ((v * self.volume) as i32 >> 1i32) as int;
                let pan: int = if self.pan < 1 { 1 } else if self.pan > 7 { 7 } else { self.pan as int };
                (
                    ((scaled * (8 - pan) * 11) as i32 >> 3i32) as int,
                    ((scaled * pan * 11) as i32 >> 3i32) as int,
                )
            },
            None => (0, 0),
        }
    }

    fn play(&mut self, rom: &Vec<u8>) -> (o: (i32, i32))
        requires
            old(self).inv(),
        ensures
            final(self).inv(),
            *final(self) == old(self).read(rom@).0,
            o.0 == old(self).out(rom@).0,
            o.1 == old(self).out(rom@).1,
            -78_233 <= o.0 <= 78_232,
            -78_233 <= o.1 <= 78_232,
    {
        if !self.playing {
            return (0, 0);
        }
        let index = self.position >> 16;
        let bytes = if self.dpcm { index / 2 } else { index };
        if bytes >= (if self.length > 1 { self.length } else { 1 }) {
            if self.looping {
                self.position = 0;
                self.level = 0;
                self.high_nibble = false;
            } else {
                self.playing = false;
            }
            return (0, 0);
        }
        let at = (self.start + bytes) as usize;
        if at >= rom.len() {
            self.playing = false;
            return (0, 0);
        }
        let byte = rom[at];
        let p = self.pitch;
        assert(p & 0x0FFF <= 0x0FFF) by {
            lemma_u16(p, 0x0FFF);
        }
        let d = 0x1000 - (self.pitch & 0x0FFF) as u32;
        let step = (CLOCK_DIVIDER * 65536) / (if d > 1 { d } else { 1 });
        self.position = self.position.wrapping_add(step);
        let value: i32 = if self.dpcm {
            let nibble = if index % 2 == 0 { byte & 0x0F } else { byte >> 4 };
            assert(byte & 0x0F < 16 && byte >> 4u8 < 16) by {
                lemma_u8(byte, 0x0F);
            }
            let fresh = (index % 2 == 1) != self.high_nibble || index == 0;
            if fresh {
                proof {
                    lemma_deltas_bounded();
                }
                let moved = self.level + DPCM_DELTA[nibble as usize];
                self.level = if moved < -128 { -128 } else if moved > 127 { 127 } else { moved };
                self.high_nibble = index % 2 == 1;
            }
            self.level
        } else {
            byte as i8 as i32
        };
        let vol = self.volume as i32;
        assert(-128 * 127 <= value * vol <= 127 * 127) by (nonlinear_arith)
            requires
                -128 <= value <= 127,
                0 <= vol <= 127,
        ;
        let x = value * vol;
        proof {
            lemma_i32_shr(x);
        }
        let scaled = x >> 1;
        let pan: i32 = if self.pan < 1 { 1 } else if self.pan > 7 { 7 } else { self.pan as i32 };
        assert(-8128 * 77 <= scaled * (8 - pan) * 11 <= 8064 * 77) by (nonlinear_arith)
            requires
                -8128 <= scaled <= 8064,
                1 <= pan <= 7,
        ;
        assert(-8128 * 77 <= scaled * pan * 11 <= 8064 * 77) by (nonlinear_arith)
            requires
                -8128 <= scaled <= 8064,
                1 <= pan <= 7,
        ;
        let xl = scaled * (8 - pan) * 11;
        let xr = scaled * pan * 11;
        proof {
            lemma_i32_shr(xl);
            lemma_i32_shr(xr);
        }
        (xl >> 3, xr >> 3)
    }

    /// The key register's bit for this voice: a rising edge restarts it.
    pub open spec fn keyed(self, on: bool) -> Voice {
        if on && !self.playing {
            Voice { position: 0, level: 0, high_nibble: false, playing: on, ..self }
        } else {
            Voice { playing: on, ..self }
        }
    }
}

/// The K053260.
#[derive(Debug)]
pub struct K053260 {
    pub rate: u32,
    pub voices: [Voice; 4],
    pub rom: Vec<u8>,
}

impl K053260 {
    pub open spec fn cleared(rate: u32, rom: Vec<u8>) -> K053260 {
        K053260 { rate, voices: spec_array_fill_for_copy_type(Voice::cleared()), rom }
    }

    fn clear(rate: u32, rom: Vec<u8>) -> (chip: K053260)
        ensures
            chip == K053260::cleared(rate, rom),
    {
        let v = Voice {
            pitch: 0,
            length: 0,
            start: 0,
            volume: 0,
            pan: 0,
            looping: false,
            dpcm: false,
            position: 0,
            playing: false,
            level: 0,
            high_nibble: false,
        };
        K053260 { rate, voices: [v; 4], rom }
    }

    /// A chip with no clock yet and no ROM.
    pub fn new() -> (chip: K053260)
        ensures
            chip == K053260::cleared(111_861, chip.rom),
            chip.rom@.len() == 0,
    {
        Self::clear(111_861, Vec::new())
    }

    pub open spec fn inv(self) -> bool {
        forall|i: int| 0 <= i < 4 ==> #[trigger] self.voices[i].inv()
    }

    pub open spec fn mixed(self, n: int) -> (int, int)
        decreases n,
    {
        if n <= 0 {
            (0, 0)
        } else {
            let (l, r) = self.mixed(n - 1);
            let (a, b) = self.voices[n - 1].out(self.rom@);
            (l + a, r + b)
        }
    }

    pub open spec fn advanced(self) -> K053260 {
        let r = |i: int| self.voices[i].read(self.rom@).0;
        K053260 { voices: [r(0), r(1), r(2), r(3)], ..self }
    }

    fn tick(&mut self) -> (o: (i32, i32))
        requires
            old(self).inv(),
        ensures
            final(self).inv(),
            *final(self) == old(self).advanced(),
            o.0 == old(self).mixed(4).0,
            o.1 == old(self).mixed(4).1,
    {
        let ghost start = *self;
        let mut left: i32 = 0;
        let mut right: i32 = 0;
        let mut i: usize = 0;
        while i < 4
            invariant
                i <= 4,
                start.inv(),
                *self == (K053260 { voices: self.voices, ..start }),
                forall|j: int|
                    0 <= j < i ==> #[trigger] self.voices[j] == start.voices[j].read(start.rom@).0
                        && self.voices[j].inv(),
                forall|j: int| i <= j < 4 ==> #[trigger] self.voices[j] == start.voices[j],
                (left as int, right as int) == start.mixed(i as int),
                -78_233 * i <= left <= 78_232 * i,
                -78_233 * i <= right <= 78_232 * i,
            decreases 4 - i,
        {
            assert(start.voices[i as int].inv());
            let mut v = self.voices[i];
            let (l, r) = v.play(&self.rom);
            self.voices[i] = v;
            left = left + l;
            right = right + r;
            i = i + 1;
        }
        assert(self.voices =~= start.advanced().voices);
        (left, right)
    }

    /// The chip after byte `d` lands in register `reg` (`0x00`-`0x3F`).
    /// `0x2F` is the control register, left unread.
    pub open spec fn register_set(self, reg: u8, d: u8) -> K053260 {
        if 0x08 <= reg <= 0x27 {
            let i = ((reg - 8) / 8) as int;
            let v = self.voices[i];
            let r = (reg - 8) % 8;
            let n = if r == 0 {
                Voice { pitch: ((v.pitch & 0x0F00) | (d as u16)) as u16, ..v }
            } else if r == 1 {
                Voice { pitch: ((v.pitch & 0x00FF) | (((d & 0x0F) as u16) << 8u16)) as u16, ..v }
            } else if r == 2 {
                Voice { length: ((v.length & 0xFF00) | (d as u32)) as u32, ..v }
            } else if r == 3 {
                Voice { length: ((v.length & 0x00FF) | ((d as u32) << 8u32)) as u32, ..v }
            } else if r == 4 {
                Voice { start: ((v.start & 0x1F_FF00) | (d as u32)) as u32, ..v }
            } else if r == 5 {
                Voice { start: ((v.start & 0x1F_00FF) | ((d as u32) << 8u32)) as u32, ..v }
            } else if r == 6 {
                Voice { start: ((v.start & 0x00_FFFF) | (((d & 0x1F) as u32) << 16u32)) as u32, ..v }
            } else {
                Voice { volume: d & 0x7F, ..v }
            };
            K053260 { voices: spec_array_update(self.voices, i, n), ..self }
        } else if reg == 0x28 {
            let k = |i: int| self.voices[i].keyed(d & (1u8 << (i as u8)) != 0);
            K053260 { voices: [k(0), k(1), k(2), k(3)], ..self }
        } else if reg == 0x2A {
            let m = |i: int| Voice {
                looping: d & (1u8 << (i as u8)) != 0,
                dpcm: d & (0x10u8 << (i as u8)) != 0,
                ..self.voices[i]
            };
            K053260 { voices: [m(0), m(1), m(2), m(3)], ..self }
        } else if reg == 0x2C || reg == 0x2D {
            let a = if reg == 0x2C { 0int } else { 2int };
            let p0 = Voice { pan: d & 0x07, ..self.voices[a] };
            let p1 = Voice { pan: (d >> 3u8) & 0x07, ..self.voices[a + 1] };
            K053260 { voices: spec_array_update(spec_array_update(self.voices, a, p0), a + 1, p1), ..self }
        } else {
            self
        }
    }

    fn write_voice_register(&mut self, reg: u8, d: u8)
        requires
            old(self).inv(),
            0x08 <= reg <= 0x27,
        ensures
            final(self).inv(),
            *final(self) == old(self).register_set(reg, d),
    {
        let i = ((reg - 8) / 8) as usize;
        let mut v = self.voices[i];
        assert(old(self).voices[i as int].inv());
        let r = (reg - 8) % 8;
        let len = v.length;
        let st = v.start;
        assert((len & 0xFF00) | (d as u32) <= 0xFFFF && (len & 0x00FF) | ((d as u32) << 8u32) <= 0xFFFF
            && (st & 0x1F_FF00) | (d as u32) <= 0x1F_FFFF && (st & 0x1F_00FF) | ((d as u32) << 8u32)
            <= 0x1F_FFFF && (st & 0x00_FFFF) | (((d & 0x1F) as u32) << 16u32) <= 0x1F_FFFF && d & 0x7F
            <= 0x7F) by {
            let w = d as u32;
            lemma_u8(d, 0x7F);
            lemma_u8(d, 0x1F);
            lemma_u32(w, 0);
            lemma_u32((d & 0x1F) as u32, 0);
            lemma_u32(len, 0xFF00);
            lemma_u32(len & 0xFF00, w);
            lemma_u32(len, 0x00FF);
            lemma_u32(len & 0x00FF, w << 8u32);
            lemma_u32(st, 0x1F_FF00);
            lemma_u32(st & 0x1F_FF00, w);
            lemma_u32(st, 0x1F_00FF);
            lemma_u32(st & 0x1F_00FF, w << 8u32);
            lemma_u32(st, 0x00_FFFF);
            lemma_u32(st & 0x00_FFFF, ((d & 0x1F) as u32) << 16u32);
        }
        if r == 0 {
            v.pitch = (v.pitch & 0x0F00) | (d as u16);
        } else if r == 1 {
            v.pitch = (v.pitch & 0x00FF) | (((d & 0x0F) as u16) << 8);
        } else if r == 2 {
            v.length = (v.length & 0xFF00) | (d as u32);
        } else if r == 3 {
            v.length = (v.length & 0x00FF) | ((d as u32) << 8);
        } else if r == 4 {
            v.start = (v.start & 0x1F_FF00) | (d as u32);
        } else if r == 5 {
            v.start = (v.start & 0x1F_00FF) | ((d as u32) << 8);
        } else if r == 6 {
            v.start = (v.start & 0x00_FFFF) | (((d & 0x1F) as u32) << 16);
        } else {
            v.volume = d & 0x7F;
        }
        self.voices[i] = v;
        assert(self.voices =~= old(self).register_set(reg, d).voices);
        assert forall|j: int| 0 <= j < 4 implies #[trigger] self.voices[j].inv() by {
            assert(old(self).voices[j].inv());
        }
    }

    fn write_shared(&mut self, reg: u8, d: u8)
        requires
            old(self).inv(),
            reg == 0x28 || reg == 0x2A,
        ensures
            final(self).inv(),
            *final(self) == old(self).register_set(reg, d),
    {
        let ghost start = *self;
        let mut i: usize = 0;
        while i < 4
            invariant
                i <= 4,
                reg == 0x28 || reg == 0x2A,
                start.inv(),
                *self == (K053260 { voices: self.voices, ..start }),
                forall|j: int|
                    0 <= j < i ==> #[trigger] self.voices[j] == (if reg == 0x28 {
                        start.voices[j].keyed(d & (1u8 << (j as u8)) != 0)
                    } else {
                        Voice {
                            looping: d & (1u8 << (j as u8)) != 0,
                            dpcm: d & (0x10u8 << (j as u8)) != 0,
                            ..start.voices[j]
                        }
                    }),
                forall|j: int| i <= j < 4 ==> #[trigger] self.voices[j] == start.voices[j],
            decreases 4 - i,
        {
            let mut v = self.voices[i];
            if reg == 0x28 {
                let on = d & (1u8 << (i as u8)) != 0;
                if on && !v.playing {
                    v.position = 0;
                    v.level = 0;
                    v.high_nibble = false;
                }
                v.playing = on;
            } else {
                v.looping = d & (1u8 << (i as u8)) != 0;
                v.dpcm = d & (0x10u8 << (i as u8)) != 0;
            }
            self.voices[i] = v;
            i = i + 1;
        }
        assert(self.voices =~= start.register_set(reg, d).voices);
        assert forall|j: int| 0 <= j < 4 implies #[trigger] self.voices[j].inv() by {
            assert(start.voices[j].inv());
        }
    }
}

impl Default for K053260 {
    fn default() -> (chip: K053260)
        ensures
            chip == K053260::cleared(111_861, chip.rom),
            chip.rom@.len() == 0,
    {
        Self::new()
    }
}

impl ChipState for K053260 {
    open spec fn inv(&self) -> bool {
        K053260::inv(*self)
    }

    open spec fn stepped(&self) -> K053260 {
        self.advanced()
    }

    open spec fn frame(&self) -> (i32, i32) {
        (self.mixed(4).0 as i32, self.mixed(4).1 as i32)
    }

    fn next_frame(&mut self) -> (f: (i32, i32)) {
        self.tick()
    }
}

impl ChipCore for K053260 {
    /// The ROM survives.
    fn reset(&mut self, clock: u32, variant: bool)
        ensures
            *final(self) == K053260::cleared(
                if clock / CLOCK_DIVIDER > 1 { clock / CLOCK_DIVIDER } else { 1 },
                old(self).rom,
            ),
    {
        let mut rom: Vec<u8> = Vec::new();
        std::mem::swap(&mut rom, &mut self.rom);
        let rate = clock / CLOCK_DIVIDER;
        *self = Self::clear(if rate > 1 { rate } else { 1 }, rom);
    }

    fn native_rate(&self) -> (rate: u32)
        ensures
            rate == self.rate,
    {
        self.rate
    }

    /// Registers `0x00`-`0x07` are the CPU mailboxes and carry no audio.
    fn write(&mut self, port: u8, addr: u16, data: u16)
        ensures
            *final(self) == old(self).register_set((addr & 0x3F) as u8, (data & 0xFF) as u8),
    {
        let reg = (addr & 0x3F) as u8;
        let d = (data & 0xFF) as u8;
        if 0x08 <= reg && reg <= 0x27 {
            self.write_voice_register(reg, d);
        } else if reg == 0x28 || reg == 0x2A {
            self.write_shared(reg, d);
        } else if reg == 0x2C || reg == 0x2D {
            let a: usize = if reg == 0x2C { 0 } else { 2 };
            assert(d & 0x07 <= 7 && (d >> 3u8) & 0x07 <= 7) by {
                lemma_u8(d, 0x07);
                lemma_u8(d >> 3u8, 0x07);
            }
            let mut v = self.voices[a];
            v.pan = d & 0x07;
            self.voices[a] = v;
            let mut v = self.voices[a + 1];
            v.pan = (d >> 3) & 0x07;
            self.voices[a + 1] = v;
            assert(self.voices =~= old(self).register_set(reg, d).voices);
            assert forall|j: int| 0 <= j < 4 implies #[trigger] self.voices[j].inv() by {
                assert(old(self).voices[j].inv());
            }
        }
    }

    /// The sample ROM.
    fn load_rom(&mut self, block_type: u8, total_size: u32, start: u32, data: &[u8])
        ensures
            final(self).rom@ == image_loaded(old(self).rom@, total_size as nat, start as nat, data@),
            *final(self) == (K053260 { rom: final(self).rom, ..*old(self) }),
    {
        load_image(&mut self.rom, total_size, start, data);
    }
}

} // verus!
