//! The Yamaha YMW258-F ("MultiPCM", Sega 315-5560): 28 voices whose sample
//! headers live in the ROM, on Sega's Multi 32 and Model 1 boards.
//!
//! A voice names a sample number and a 12-byte header in ROM carries start,
//! loop and negated end, as on the OPL4's wave side. The write interface is
//! indirect: one port selects the voice, one the register, one carries the
//! value. The bank command offsets sample fetches for rips of banked boards:
//! Sega's two 512 KiB latches, which Model 1 drives as one 1 MB window.
//!
//! The envelope is an instant attack, sustain at total level and a fast fade
//! on key-off; the LFO is not modelled; pan is linear.

use vstd::prelude::*;
use crate::bits::{lemma_i32_shr, lemma_u16, lemma_u64, lemma_u8};

use crate::chip::{image_loaded, load_image, ChipCore, ChipState};
use crate::cores::ymf278b::{level_gain, level_gain_of, pan_attenuation, wrapped64};
use vstd::array::{spec_array_fill_for_copy_type, spec_array_update};

verus! {

/// One frame per 224 clocks: 44.1 kHz at the boards' 9.878 MHz.
pub const CLOCK_DIVIDER: u32 = 224;

/// The port on which the bank select arrives: the mask in `addr`, the offset
/// (in 64 KiB units) in `data`.
pub const BANK_PORT: u8 = 0xFF;

/// One voice.
#[derive(Debug, Clone, Copy)]
pub struct Voice {
    /// The sample number: low eight bits plus the pan register's ninth bit.
    pub sample_low: u8,
    pub sample_high: bool,
    pub pan: u8,
    /// Ten bits of F-number, a signed four-bit octave.
    pub fnum: u16,
    pub octave: i8,
    pub total_level: u8,
    pub keyed: bool,
    pub release: u8,
    /// From the header.
    pub start: u32,
    pub loop_start: u32,
    pub end: u32,
    /// Sample index, 16.16.
    pub position: u64,
}

impl Voice {
    pub open spec fn cleared() -> Voice {
        Voice {
            sample_low: 0,
            sample_high: false,
            pan: 0,
            fnum: 0,
            octave: 0,
            total_level: 0,
            keyed: false,
            release: 0,
            start: 0,
            loop_start: 0,
            end: 0,
            position: 0,
        }
    }

    pub open spec fn inv(self) -> bool {
        &&& self.fnum <= 0x3FF
        &&& -8 <= self.octave <= 7
        &&& self.total_level <= 127
        &&& self.pan <= 15
        &&& self.start <= 0x3F_FFFF
        &&& self.loop_start <= 0xFFFF
        &&& self.end <= 0x1_0000
    }

    /// The 16.16 sample step: `(1024 + fnum) * 2^octave / 1024`.
    pub open spec fn spec_step(self) -> u64 {
        let base = (((1024 + self.fnum) as u64) << 16u64) >> 10u64;
        if self.octave >= 0 {
            base << (self.octave as u64)
        } else {
            base >> ((-self.octave) as u64)
        }
    }

    fn step(&self) -> (s: u64)
        requires
            self.inv(),
        ensures
            s == self.spec_step(),
            s <= 0x100_0000,
    {
        let f = (1024 + self.fnum) as u64;
        assert((f << 16u64) >> 10u64 <= 0x2_0000) by {
            lemma_u64(f, 0);
            lemma_u64(f << 16u64, 0);
        }
        let base = (f << 16) >> 10;
        if self.octave >= 0 {
            let o = self.octave as u64;
            assert(base << o <= 0x100_0000) by (bit_vector)
                requires
                    base <= 0x2_0000,
                    o <= 7,
            ;
            base << o
        } else {
            let o = (-self.octave) as u64;
            assert(base >> o <= base) by {
                lemma_u64(base, o);
            }
            base >> o
        }
    }

    /// The sample index this frame reads: past the end it wraps into the
    /// loop window.
    pub open spec fn index(self) -> int {
        let si = ((self.position >> 16u64) as u32) as int;
        if si >= (if self.end > 1 { self.end as int } else { 1 }) {
            let span: int = if self.end > self.loop_start + 1 { self.end - self.loop_start } else { 1 };
            self.loop_start + (si - self.end) % span
        } else {
            si
        }
    }
}

impl Default for Voice {
    fn default() -> (v: Voice)
        ensures
            v == Voice::cleared(),
    {
        Voice {
            sample_low: 0,
            sample_high: false,
            pan: 0,
            fnum: 0,
            octave: 0,
            total_level: 0,
            keyed: false,
            release: 0,
            start: 0,
            loop_start: 0,
            end: 0,
            position: 0,
        }
    }
}

/// The MultiPCM.
#[derive(Debug)]
pub struct MultiPcm {
    pub rate: u32,
    pub voices: [Voice; 28],
    /// The indirect interface's latches.
    pub selected_voice: usize,
    pub selected_register: u8,
    /// The bank offsets in bytes, one per 512 KiB half: `bank_low` serves
    /// addresses with bit 19 clear, `bank_high` those with it set.
    pub bank_low: u32,
    pub bank_high: u32,
    pub rom: Vec<u8>,
}

/// Where a sample byte at `address` is fetched: only addresses with bit 20
/// set are banked, and bit 19 chooses which half's latch replaces the top of
/// the address.
pub open spec fn banked(address: u32, low: u32, high: u32) -> u32 {
    if address & 0x10_0000 != 0 {
        (address & 0x07_FFFF) | (if address & 0x08_0000 == 0 { low } else { high })
    } else {
        address
    }
}

impl MultiPcm {
    /// Everything cleared at `rate`, holding `rom`, with the power-on banks:
    /// the 1 MB window at `0x18_0000`.
    pub open spec fn cleared(rate: u32, rom: Vec<u8>) -> MultiPcm {
        MultiPcm {
            rate,
            voices: spec_array_fill_for_copy_type(Voice::cleared()),
            selected_voice: 0,
            selected_register: 0,
            bank_low: 0x18_0000,
            bank_high: 0x20_0000,
            rom,
        }
    }

    fn clear(rate: u32, rom: Vec<u8>) -> (chip: MultiPcm)
        ensures
            chip == MultiPcm::cleared(rate, rom),
    {
        let v = Voice::default();
        MultiPcm {
            rate,
            voices: [v; 28],
            selected_voice: 0,
            selected_register: 0,
            bank_low: 0x18_0000,
            bank_high: 0x20_0000,
            rom,
        }
    }

    /// A chip with no clock yet and no ROM.
    pub fn new() -> (chip: MultiPcm)
        ensures
            chip == MultiPcm::cleared(44_100, chip.rom),
            chip.rom@.len() == 0,
    {
        Self::clear(44_100, Vec::new())
    }

    pub open spec fn inv(self) -> bool {
        &&& forall|i: int| 0 <= i < 28 ==> #[trigger] self.voices[i].inv()
        &&& self.selected_voice < 28
        &&& self.selected_register <= 7
    }

    /// The bank select: `mask` names the halves (bit 1 the low one, bit 0
    /// the high one), `offset` is in 64 KiB units. Both halves at a
    /// megabyte-aligned offset is one 1 MB window, the high half half a
    /// megabyte above the low; otherwise each named half moves there.
    pub open spec fn bank_set(self, mask: u16, offset: u16) -> MultiPcm {
        let base = ((offset as u32) << 16u32) as u32;
        if mask & 0x03 == 0x03 && base & 0x08_0000 == 0 {
            MultiPcm { bank_low: base, bank_high: base | 0x08_0000, ..self }
        } else {
            MultiPcm {
                bank_low: if mask & 0x02 != 0 { base } else { self.bank_low },
                bank_high: if mask & 0x01 != 0 { base } else { self.bank_high },
                ..self
            }
        }
    }

    pub fn set_bank(&mut self, mask: u16, offset: u16)
        ensures
            *final(self) == old(self).bank_set(mask, offset),
    {
        let base = (offset as u32) << 16;
        if mask & 0x03 == 0x03 && base & 0x08_0000 == 0 {
            self.bank_low = base;
            self.bank_high = base | 0x08_0000;
            return;
        }
        if mask & 0x02 != 0 {
            self.bank_low = base;
        }
        if mask & 0x01 != 0 {
            self.bank_high = base;
        }
    }

    /// The voice one frame on and its scaled value, if it sounds.
    pub open spec fn read(self, v: Voice) -> (Voice, Option<int>) {
        let fading = !v.keyed && v.release > 0;
        if !v.keyed && !fading {
            (v, None)
        } else {
            let at = banked((v.start + v.index()) as u32, self.bank_low, self.bank_high) as int;
            if at >= self.rom@.len() {
                (Voice { keyed: false, release: 0, ..v }, None)
            } else {
                let value = ((self.rom@[at] as i8) * 256) as int;
                let moved = Voice { position: wrapped64(v.position, v.spec_step()), ..v };
                let scaled = ((value * level_gain_of(v.total_level)) as i32 >> 18i32) as int;
                if fading {
                    (
                        Voice { release: if v.release >= 2 { (v.release - 2) as u8 } else { 0 }, ..moved },
                        Some(((scaled * v.release) as i32 >> 8i32) as int),
                    )
                } else {
                    (moved, Some(scaled))
                }
            }
        }
    }

    pub open spec fn out(self, v: Voice) -> (int, int) {
        match self.read(v).1 {
            Some(x) => {
                let (la, ra) = pan_attenuation(v.pan as int);
                (((x * (8 - la)) as i32 >> 3i32) as int, ((x * (8 - ra)) as i32 >> 3i32) as int)
            },
            None => (0, 0),
        }
    }

    fn play(&mut self, i: usize) -> (o: (i32, i32))
        requires
            old(self).inv(),
            i < 28,
        ensures
            final(self).inv(),
            *final(self) == (MultiPcm {
                voices: spec_array_update(old(self).voices, i as int, old(self).read(old(self).voices[i as int]).0),
                ..*old(self)
            }),
            o.0 == old(self).out(old(self).voices[i as int]).0,
            o.1 == old(self).out(old(self).voices[i as int]).1,
            -8192 <= o.0 <= 8191,
            -8192 <= o.1 <= 8191,
    {
        let mut v = self.voices[i];
        assert(old(self).voices[i as int].inv());
        let fading = !v.keyed && v.release > 0;
        if !v.keyed && !fading {
            assert(self.voices =~= spec_array_update(old(self).voices, i as int, v));
            return (0, 0);
        }
        let si = (v.position >> 16) as u32;
        let end1 = if v.end > 1 { v.end } else { 1 };
        let index: u32 = if si >= end1 {
            let span: u32 = if v.end > v.loop_start + 1 { v.end - v.loop_start } else { 1 };
            v.loop_start + (si - v.end) % span
        } else {
            si
        };
        let mut address = v.start + index;
        if address & 0x10_0000 != 0 {
            let bank = if address & 0x08_0000 == 0 { self.bank_low } else { self.bank_high };
            address = (address & 0x07_FFFF) | bank;
        }
        if address as usize >= self.rom.len() {
            v.keyed = false;
            v.release = 0;
            self.voices[i] = v;
            assert(self.voices =~= spec_array_update(old(self).voices, i as int, old(self).read(old(self).voices[i as int]).0));
            assert forall|j: int| 0 <= j < 28 implies #[trigger] self.voices[j].inv() by {
                assert(old(self).voices[j].inv());
            }
            return (0, 0);
        }
        let value = (self.rom[address as usize] as i8 as i32) * 256;
        v.position = v.position.wrapping_add(v.step());
        let gain = level_gain(v.total_level);
        assert(-32768 * 65536 <= value * gain <= 32767 * 65536) by (nonlinear_arith)
            requires
                -32768 <= value <= 32767,
                0 <= gain <= 65536,
        ;
        let x = value * gain;
        proof {
            lemma_i32_shr(x);
        }
        let mut scaled = x >> 18;
        if fading {
            let r = v.release as i32;
            assert(-8192 * 255 <= scaled * r <= 8191 * 255) by (nonlinear_arith)
                requires
                    -8192 <= scaled <= 8191,
                    0 <= r <= 255,
            ;
            let y = scaled * r;
            proof {
                lemma_i32_shr(y);
            }
            scaled = y >> 8;
            v.release = v.release.saturating_sub(2);
        }
        self.voices[i] = v;
        let pan = v.pan as i32;
        let la: i32 = if pan >= 9 { pan - 8 } else { 0 };
        let ra: i32 = if 1 <= pan && pan <= 7 { pan } else { 0 };
        assert(-8192 * 8 <= scaled * (8 - la) <= 8191 * 8) by (nonlinear_arith)
            requires
                -8192 <= scaled <= 8191,
                0 <= la <= 7,
        ;
        assert(-8192 * 8 <= scaled * (8 - ra) <= 8191 * 8) by (nonlinear_arith)
            requires
                -8192 <= scaled <= 8191,
                0 <= ra <= 7,
        ;
        let xl = scaled * (8 - la);
        let xr = scaled * (8 - ra);
        proof {
            lemma_i32_shr(xl);
            lemma_i32_shr(xr);
        }
        assert(self.voices =~= spec_array_update(old(self).voices, i as int, old(self).read(old(self).voices[i as int]).0));
        assert forall|j: int| 0 <= j < 28 implies #[trigger] self.voices[j].inv() by {
            assert(old(self).voices[j].inv());
        }
        (xl >> 3, xr >> 3)
    }

    pub open spec fn mixed(self, n: int) -> (int, int)
        decreases n,
    {
        if n <= 0 {
            (0, 0)
        } else {
            let (l, r) = self.mixed(n - 1);
            let (a, b) = self.out(self.voices[n - 1]);
            (l + a, r + b)
        }
    }

    pub open spec fn advanced(self) -> MultiPcm {
        let r = |i: int| self.read(self.voices[i]).0;
        MultiPcm {
            voices: [
                r(0), r(1), r(2), r(3), r(4), r(5), r(6), r(7), r(8), r(9), r(10), r(11), r(12),
                r(13), r(14), r(15), r(16), r(17), r(18), r(19), r(20), r(21), r(22), r(23), r(24),
                r(25), r(26), r(27),
            ],
            ..self
        }
    }

    fn tick(&mut self) -> (o: (i32, i32))
        requires
            old(self).inv(),
        ensures
            final(self).inv(),
            *final(self) == old(self).advanced(),
            o.0 == old(self).mixed(28).0,
            o.1 == old(self).mixed(28).1,
    {
        let ghost start = *self;
        let mut left: i32 = 0;
        let mut right: i32 = 0;
        let mut i: usize = 0;
        while i < 28
            invariant
                i <= 28,
                self.inv(),
                *self == (MultiPcm { voices: self.voices, ..start }),
                forall|j: int| 0 <= j < i ==> #[trigger] self.voices[j] == start.read(start.voices[j]).0,
                forall|j: int| i <= j < 28 ==> #[trigger] self.voices[j] == start.voices[j],
                (left as int, right as int) == start.mixed(i as int),
                -8192 * i <= left <= 8191 * i,
                -8192 * i <= right <= 8191 * i,
            decreases 28 - i,
        {
            assert(self.read(self.voices[i as int]) == start.read(start.voices[i as int]));
            assert(self.out(self.voices[i as int]) == start.out(start.voices[i as int]));
            let (l, r) = self.play(i);
            left = left + l;
            right = right + r;
            i = i + 1;
        }
        assert(self.voices =~= start.advanced().voices);
        (left, right)
    }

    /// Voice `v` after its header is loaded from the ROM: 12 bytes at
    /// `sample * 12`, the end field stored negated. A header past the ROM
    /// leaves the voice as it was.
    pub open spec fn header_loaded(v: Voice, rom: Seq<u8>) -> Voice {
        let at = ((v.sample_low as int) + (if v.sample_high { 256int } else { 0 })) * 12;
        if at + 12 > rom.len() {
            v
        } else {
            Voice {
                start: ((rom[at] & 0x3F) * 65536 + rom[at + 1] * 256 + rom[at + 2]) as u32,
                loop_start: (rom[at + 3] * 256 + rom[at + 4]) as u32,
                end: (0x1_0000 - (rom[at + 5] * 256 + rom[at + 6])) as u32,
                ..v
            }
        }
    }

    /// The selected voice after value `d` lands in the selected register.
    pub open spec fn register_set(self, d: u8) -> MultiPcm {
        let i = self.selected_voice as int;
        let v = self.voices[i];
        let r = self.selected_register;
        let n = if r == 0 {
            Voice { pan: d >> 4u8, sample_high: d & 0x01 != 0, ..v }
        } else if r == 1 {
            MultiPcm::header_loaded(Voice { sample_low: d, ..v }, self.rom@)
        } else if r == 2 {
            Voice { fnum: ((v.fnum & 0x3C0) | ((d >> 2u8) as u16)) as u16, ..v }
        } else if r == 3 {
            let o = (d >> 4u8) as int;
            Voice {
                fnum: ((v.fnum & 0x03F) | (((d & 0x0F) as u16) << 6u16)) as u16,
                octave: (if o >= 8 { o - 16 } else { o }) as i8,
                ..v
            }
        } else if r == 4 {
            let key = d & 0x80 != 0;
            if key && !v.keyed {
                Voice { position: 0, release: 255, keyed: key, ..v }
            } else {
                Voice { keyed: key, ..v }
            }
        } else if r == 5 {
            Voice { total_level: d >> 1u8, ..v }
        } else {
            v
        };
        MultiPcm { voices: spec_array_update(self.voices, i, n), ..self }
    }

    fn write_register(&mut self, d: u8)
        requires
            old(self).inv(),
        ensures
            final(self).inv(),
            *final(self) == old(self).register_set(d),
    {
        let i = self.selected_voice;
        let mut v = self.voices[i];
        assert(old(self).voices[i as int].inv());
        let f = v.fnum;
        assert((f & 0x3C0) | ((d >> 2u8) as u16) <= 0x3FF && (f & 0x03F) | (((d & 0x0F) as u16) << 6u16)
            <= 0x3FF && d >> 1u8 <= 127 && d >> 4u8 <= 15) by {
            lemma_u8(d, 0x0F);
            lemma_u16((d >> 2u8) as u16, 0);
            lemma_u16((d & 0x0F) as u16, 0);
            lemma_u16(f, 0x3C0);
            lemma_u16(f & 0x3C0, (d >> 2u8) as u16);
            lemma_u16(f, 0x03F);
            lemma_u16(f & 0x03F, ((d & 0x0F) as u16) << 6u16);
        }
        let r = self.selected_register;
        if r == 0 {
            v.pan = d >> 4;
            v.sample_high = d & 0x01 != 0;
        } else if r == 1 {
            v.sample_low = d;
            let at = ((v.sample_low as usize) + (if v.sample_high { 256 } else { 0 })) * 12;
            if at + 12 <= self.rom.len() {
                v.start = (self.rom[at] & 0x3F) as u32 * 65536 + self.rom[at + 1] as u32 * 256 + self.rom[at + 2] as u32;
                v.loop_start = self.rom[at + 3] as u32 * 256 + self.rom[at + 4] as u32;
                v.end = 0x1_0000 - (self.rom[at + 5] as u32 * 256 + self.rom[at + 6] as u32);
                let h0 = self.rom[at];
                assert(h0 & 0x3F <= 0x3F) by {
                    lemma_u8(h0, 0x3F);
                }
            }
        } else if r == 2 {
            v.fnum = (v.fnum & 0x3C0) | ((d >> 2) as u16);
        } else if r == 3 {
            v.fnum = (v.fnum & 0x03F) | (((d & 0x0F) as u16) << 6);
            let o = (d >> 4) as i8;
            v.octave = if o >= 8 { o - 16 } else { o };
        } else if r == 4 {
            let key = d & 0x80 != 0;
            if key && !v.keyed {
                v.position = 0;
                v.release = 255;
            }
            v.keyed = key;
        } else if r == 5 {
            v.total_level = d >> 1;
        }
        self.voices[i] = v;
        assert(self.voices =~= old(self).register_set(d).voices);
        assert forall|j: int| 0 <= j < 28 implies #[trigger] self.voices[j].inv() by {
            assert(old(self).voices[j].inv());
        }
    }

    /// The slot latch: slot numbers skip every eighth encoding, the chip's
    /// 28-of-32 map; an eighth encoding changes nothing.
    pub open spec fn slot_selected(self, d: u8) -> MultiPcm {
        let raw = (d & 0x1F) as int;
        if raw % 8 == 7 {
            self
        } else {
            let s = (raw / 8) * 7 + raw % 8;
            MultiPcm { selected_voice: (if s < 27 { s } else { 27 }) as usize, ..self }
        }
    }
}

impl Default for MultiPcm {
    fn default() -> (chip: MultiPcm)
        ensures
            chip == MultiPcm::cleared(44_100, chip.rom),
            chip.rom@.len() == 0,
    {
        Self::new()
    }
}

impl ChipState for MultiPcm {
    open spec fn inv(&self) -> bool {
        MultiPcm::inv(*self)
    }

    open spec fn stepped(&self) -> MultiPcm {
        self.advanced()
    }

    open spec fn frame(&self) -> (i32, i32) {
        (self.mixed(28).0 as i32, self.mixed(28).1 as i32)
    }

    fn next_frame(&mut self) -> (f: (i32, i32)) {
        self.tick()
    }
}

impl ChipCore for MultiPcm {
    /// The ROM survives; the banks return to their power-on window.
    fn reset(&mut self, clock: u32, variant: bool)
        ensures
            *final(self) == MultiPcm::cleared(
                if clock / CLOCK_DIVIDER > 1 { clock / CLOCK_DIVIDER } else { 1 },
                old(self).rom,
            ),
    {
        let mut rom: Vec<u8> = Vec::new();
        std::mem::swap(&mut rom, &mut self.rom);
        let rate = clock / CLOCK_DIVIDER;
        *self = Self::clear(if rate > 1 { rate } else { 1 }, rom);
    }

    fn native_rate(&self) -> (rate: u32)
        ensures
            rate == self.rate,
    {
        self.rate
    }

    /// Offset 0 carries the data, 1 selects the slot, 2 the register; the
    /// bank select arrives on [`BANK_PORT`].
    fn write(&mut self, port: u8, addr: u16, data: u16)
        ensures
            *final(self) == (if port == BANK_PORT {
                old(self).bank_set(addr, data)
            } else if addr & 0x03 == 0 {
                old(self).register_set((data & 0xFF) as u8)
            } else if addr & 0x03 == 1 {
                old(self).slot_selected((data & 0xFF) as u8)
            } else if addr & 0x03 == 2 {
                MultiPcm { selected_register: ((data & 0xFF) as u8) & 0x07, ..*old(self) }
            } else {
                *old(self)
            }),
    {
        if port == BANK_PORT {
            self.set_bank(addr, data);
            return;
        }
        let d = (data & 0xFF) as u8;
        let a = addr & 0x03;
        if a == 0 {
            self.write_register(d);
        } else if a == 1 {
            let raw = (d & 0x1F) as usize;
            assert(d & 0x1F <= 31) by {
                lemma_u8(d, 0x1F);
            }
            if raw % 8 != 7 {
                let s = (raw / 8) * 7 + raw % 8;
                self.selected_voice = if s < 27 { s } else { 27 };
            }
        } else if a == 2 {
            assert(d & 0x07 <= 7) by {
                lemma_u8(d, 0x07);
            }
            self.selected_register = d & 0x07;
        }
    }

    /// The sample ROM.
    fn load_rom(&mut self, block_type: u8, total_size: u32, start: u32, data: &[u8])
        ensures
            final(self).rom@ == image_loaded(old(self).rom@, total_size as nat, start as nat, data@),
            *final(self) == (MultiPcm { rom: final(self).rom, ..*old(self) }),
    {
        load_image(&mut self.rom, total_size, start, data);
    }
}

} // verus!
