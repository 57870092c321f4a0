//! Capcom's QSound: sixteen PCM voices behind a DSP this core does not run.
//!
//! The real chip is a DSP16A running Capcom's program; what a VGM records is
//! the register interface that program serves, and what this core models is
//! the part of it that plays music: sixteen PCM voices with pitch, loop and
//! per-voice pan.
//!
//! Not modelled: the echo and filter stages, and the three ADPCM effect
//! voices. The pan table is a linear weighting of the 33-position range.

use vstd::prelude::*;
use crate::bits::{lemma_i32_shr, lemma_u16, lemma_u32};

use crate::chip::{image_loaded, load_image, ChipCore, ChipState};
use vstd::array::{spec_array_fill_for_copy_type, spec_array_update};

verus! {

/// One frame per 166 clocks.
pub const CLOCK_DIVIDER: u32 = 166;

/// One voice.
#[derive(Debug, Clone, Copy)]
pub struct Voice {
    pub bank: u16,
    pub start: u16,
    /// `0x1000` is one ROM byte per frame.
    pub pitch: u16,
    /// Bytes to step back at the end; zero means one-shot.
    pub loop_length: u16,
    pub end: u16,
    pub volume: u16,
    /// Pan position 0..=32, centre 16.
    pub pan: u16,
    /// Position within the bank, 16.16 over the 16-bit address.
    pub position: u32,
}

/// `a + b` wrapped to 32 bits.
pub open spec fn wrapped(a: u32, b: u32) -> u32 {
    if a + b > u32::MAX {
        (a + b - 0x1_0000_0000) as u32
    } else {
        (a + b) as u32
    }
}

/// `a - b` wrapped to 32 bits.
pub open spec fn wrapped_sub(a: u32, b: u32) -> u32 {
    if a >= b {
        (a - b) as u32
    } else {
        (a - b + 0x1_0000_0000) as u32
    }
}

impl Voice {
    pub open spec fn cleared() -> Voice {
        Voice { bank: 0, start: 0, pitch: 0, loop_length: 0, end: 0, volume: 0, pan: 0, position: 0 }
    }

    /// The voice one frame on and the sample it sounds, if any. A voice with
    /// no pitch or no volume is at rest; at its end a one-shot stops (its
    /// pitch zeroed) and a loop steps back; a read past the ROM stops it.
    pub open spec fn read(self, rom: Seq<u8>) -> (Voice, Option<int>) {
        if self.pitch == 0 || self.volume == 0 {
            (self, None)
        } else if (self.position >> 16u32) >= self.end && self.loop_length == 0 {
            (Voice { pitch: 0, ..self }, None)
        } else {
            let p = if (self.position >> 16u32) >= self.end {
                wrapped_sub(self.position, ((self.loop_length as u32) << 16u32) as u32)
            } else {
                self.position
            };
            let at = ((((self.bank & 0x7F) as u32) << 16u32) | (p >> 16u32)) as int;
            if at >= rom.len() {
                (Voice { position: p, pitch: 0, ..self }, None)
            } else {
                (
                    Voice { position: wrapped(p, ((self.pitch as u32) << 4u32) as u32), ..self },
                    Some((rom[at] as i8) as int),
                )
            }
        }
    }

    pub open spec fn out(self, rom: Seq<u8>) -> (int, int) {
        match self.read(rom).1 {
            Some(v) => {
                let scaled = ((v * self.volume) as i32 >> 7i32) as int;
                (
                    ((scaled * (32 - self.pan)) as i32 >> 5i32) as int,
                    ((scaled * self.pan) as i32 >> 5i32) as int,
                )
            },
            None => (0, 0),
        }
    }

    fn play(&mut self, rom: &Vec<u8>) -> (o: (i32, i32))
        requires
            old(self).pan <= 32,
        ensures
            final(self).pan <= 32,
            *final(self) == old(self).read(rom@).0,
            o.0 == old(self).out(rom@).0,
            o.1 == old(self).out(rom@).1,
            -65_536 <= o.0 <= 65_535,
            -65_536 <= o.1 <= 65_535,
    {
        if self.pitch == 0 || self.volume == 0 {
            return (0, 0);
        }
        let offset = self.position >> 16;
        if offset >= self.end as u32 {
            if self.loop_length == 0 {
                self.pitch = 0;
                return (0, 0);
            }
            self.position = self.position.wrapping_sub((self.loop_length as u32) << 16);
        }
        let b = self.bank;
        let p = self.position;
        assert((((b & 0x7F) as u32) << 16u32) | (p >> 16u32) <= 0x7F_FFFF) by {
            lemma_u16(b, 0x7F);
            lemma_u32((b & 0x7F) as u32, 0);
            lemma_u32(p, 0);
            lemma_u32(((b & 0x7F) as u32) << 16u32, p >> 16u32);
        }
        let at = ((((self.bank & 0x7F) as u32) << 16) | (self.position >> 16)) as usize;
        if at >= rom.len() {
            self.pitch = 0;
            return (0, 0);
        }
        let value = rom[at] as i8 as i32;
        self.position = self.position.wrapping_add((self.pitch as u32) << 4);
        let vol = self.volume as i32;
        assert(-128 * 65535 <= value * vol <= 127 * 65535) by (nonlinear_arith)
            requires
                -128 <= value <= 127,
                0 <= vol <= 65535,
        ;
        let x = value * vol;
        assert(-65_535 <= x >> 7i32 <= 65_024) by {
            lemma_i32_shr(x);
        }
        let scaled = x >> 7;
        let pan = self.pan as i32;
        assert(-65_535 * 32 <= scaled * (32 - pan) <= 65_024 * 32) by (nonlinear_arith)
            requires
                -65_535 <= scaled <= 65_024,
                0 <= pan <= 32,
        ;
        assert(-65_535 * 32 <= scaled * pan <= 65_024 * 32) by (nonlinear_arith)
            requires
                -65_535 <= scaled <= 65_024,
                0 <= pan <= 32,
        ;
        let xl = scaled * (32 - pan);
        let xr = scaled * pan;
        assert(-65_536 <= xl >> 5i32 <= 65_535 && -65_536 <= xr >> 5i32 <= 65_535) by {
            lemma_i32_shr(xl);
            lemma_i32_shr(xr);
        }
        (xl >> 5, xr >> 5)
    }
}

/// The QSound.
#[derive(Debug)]
pub struct QSound {
    pub rate: u32,
    pub voices: [Voice; 16],
    pub rom: Vec<u8>,
}

impl QSound {
    pub open spec fn cleared(rate: u32, rom: Vec<u8>) -> QSound {
        QSound { rate, voices: spec_array_fill_for_copy_type(Voice::cleared()), rom }
    }

    fn clear(rate: u32, rom: Vec<u8>) -> (chip: QSound)
        ensures
            chip == QSound::cleared(rate, rom),
    {
        let v = Voice { bank: 0, start: 0, pitch: 0, loop_length: 0, end: 0, volume: 0, pan: 0, position: 0 };
        QSound { rate, voices: [v; 16], rom }
    }

    /// A chip with no clock yet and no ROM.
    pub fn new() -> (chip: QSound)
        ensures
            chip == QSound::cleared(24_038, chip.rom),
            chip.rom@.len() == 0,
    {
        Self::clear(24_038, Vec::new())
    }

    pub open spec fn inv(self) -> bool {
        forall|i: int| 0 <= i < 16 ==> #[trigger] self.voices[i].pan <= 32
    }

    pub open spec fn mixed(self, n: int) -> (int, int)
        decreases n,
    {
        if n <= 0 {
            (0, 0)
        } else {
            let (l, r) = self.mixed(n - 1);
            let (a, b) = self.voices[n - 1].out(self.rom@);
            (l + a, r + b)
        }
    }

    pub open spec fn advanced(self) -> QSound {
        let r = |i: int| self.voices[i].read(self.rom@).0;
        QSound {
            voices: [
                r(0), r(1), r(2), r(3), r(4), r(5), r(6), r(7), r(8), r(9), r(10), r(11), r(12),
                r(13), r(14), r(15),
            ],
            ..self
        }
    }

    fn tick(&mut self) -> (o: (i32, i32))
        requires
            old(self).inv(),
        ensures
            final(self).inv(),
            *final(self) == old(self).advanced(),
            o.0 == old(self).mixed(16).0,
            o.1 == old(self).mixed(16).1,
    {
        let ghost start = *self;
        let mut left: i32 = 0;
        let mut right: i32 = 0;
        let mut i: usize = 0;
        while i < 16
            invariant
                i <= 16,
                start.inv(),
                *self == (QSound { voices: self.voices, ..start }),
                forall|j: int|
                    0 <= j < i ==> #[trigger] self.voices[j] == start.voices[j].read(start.rom@).0
                        && self.voices[j].pan <= 32,
                forall|j: int| i <= j < 16 ==> #[trigger] self.voices[j] == start.voices[j],
                (left as int, right as int) == start.mixed(i as int),
                -65_536 * i <= left <= 65_535 * i,
                -65_536 * i <= right <= 65_535 * i,
            decreases 16 - i,
        {
            assert(start.voices[i as int].pan <= 32);
            let mut v = self.voices[i];
            let (l, r) = v.play(&self.rom);
            self.voices[i] = v;
            left = left + l;
            right = right + r;
            i = i + 1;
        }
        assert(self.voices =~= start.advanced().voices);
        (left, right)
    }

    /// The chip after value `data` lands in register `addr`: `0x00`-`0x7F`
    /// are the voice file, eight apiece (writing the start also moves the
    /// position there); `0x80`-`0x8F` the pan positions, `0x0110` to
    /// `0x0130` left to right. Echo, filters and ADPCM are not modelled.
    pub open spec fn register_set(self, addr: u16, data: u16) -> QSound {
        if addr <= 0x7F {
            let i = (addr / 8) as int;
            let v = self.voices[i];
            let r = addr % 8;
            let n = if r == 0 {
                Voice { bank: data, ..v }
            } else if r == 1 {
                Voice { start: data, position: ((data as u32) << 16u32) as u32, ..v }
            } else if r == 2 {
                Voice { pitch: data, ..v }
            } else if r == 4 {
                Voice { loop_length: data, ..v }
            } else if r == 5 {
                Voice { end: data, ..v }
            } else if r == 6 {
                Voice { volume: data, ..v }
            } else {
                v
            };
            QSound { voices: spec_array_update(self.voices, i, n), ..self }
        } else if 0x80 <= addr <= 0x8F {
            let i = (addr - 0x80) as int;
            let p: int = if data <= 0x0110 { 0 } else if data - 0x0110 > 32 { 32 } else { data - 0x0110 };
            QSound { voices: spec_array_update(self.voices, i, Voice { pan: p as u16, ..self.voices[i] }), ..self }
        } else {
            self
        }
    }
}

impl Default for QSound {
    fn default() -> (chip: QSound)
        ensures
            chip == QSound::cleared(24_038, chip.rom),
            chip.rom@.len() == 0,
    {
        Self::new()
    }
}

impl ChipState for QSound {
    open spec fn inv(&self) -> bool {
        QSound::inv(*self)
    }

    open spec fn stepped(&self) -> QSound {
        self.advanced()
    }

    open spec fn frame(&self) -> (i32, i32) {
        (self.mixed(16).0 as i32, self.mixed(16).1 as i32)
    }

    fn next_frame(&mut self) -> (f: (i32, i32)) {
        self.tick()
    }
}

impl ChipCore for QSound {
    /// The ROM survives.
    fn reset(&mut self, clock: u32, variant: bool)
        ensures
            *final(self) == QSound::cleared(
                if clock / CLOCK_DIVIDER > 1 { clock / CLOCK_DIVIDER } else { 1 },
                old(self).rom,
            ),
    {
        let mut rom: Vec<u8> = Vec::new();
        std::mem::swap(&mut rom, &mut self.rom);
        let rate = clock / CLOCK_DIVIDER;
        *self = Self::clear(if rate > 1 { rate } else { 1 }, rom);
    }

    fn native_rate(&self) -> (rate: u32)
        ensures
            rate == self.rate,
    {
        self.rate
    }

    /// `addr` is the register, `data` the 16-bit value.
    fn write(&mut self, port: u8, addr: u16, data: u16)
        ensures
            *final(self) == old(self).register_set(addr, data),
    {
        if addr <= 0x7F {
            let i = (addr / 8) as usize;
            let mut v = self.voices[i];
            let r = addr % 8;
            if r == 0 {
                v.bank = data;
            } else if r == 1 {
                v.start = data;
                v.position = (data as u32) << 16;
            } else if r == 2 {
                v.pitch = data;
            } else if r == 4 {
                v.loop_length = data;
            } else if r == 5 {
                v.end = data;
            } else if r == 6 {
                v.volume = data;
            }
            self.voices[i] = v;
        } else if 0x80 <= addr && addr <= 0x8F {
            let i = (addr - 0x80) as usize;
            let mut v = self.voices[i];
            let above = data.saturating_sub(0x0110);
            v.pan = if above > 32 { 32 } else { above };
            self.voices[i] = v;
        } else {
            return;
        }
        assert(self.voices =~= old(self).register_set(addr, data).voices);
        assert forall|j: int| 0 <= j < 16 implies #[trigger] self.voices[j].pan <= 32 by {
            assert(old(self).voices[j].pan <= 32);
        }
    }

    /// The sample ROM.
    fn load_rom(&mut self, block_type: u8, total_size: u32, start: u32, data: &[u8])
        ensures
            final(self).rom@ == image_loaded(old(self).rom@, total_size as nat, start as nat, data@),
            *final(self) == (QSound { rom: final(self).rom, ..*old(self) }),
    {
        load_image(&mut self.rom, total_size, start, data);
    }
}

} // verus!
