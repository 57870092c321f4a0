//! The Namco C140 (and, approximately, the C219): 24 PCM voices from ROM.
//!
//! Twenty-four voices of 8-bit linear or mu-law-compressed PCM, each with
//! per-side volumes, a 16-bit frequency, and loop points.
//!
//! # Banking is board-shaped
//!
//! The chip emits more address than its socket wires up, and each Namco board
//! rearranged the upper lines its own way. The VGM header says which board:
//! System 2 folds bit 21 down by two, System 21 by one. The C219's own scheme
//! (group bank registers at `0x1F0`-`0x1F7`) is approximated as linear
//! addressing.

use vstd::prelude::*;
use crate::bits::{lemma_i32_shr, lemma_u16, lemma_u8};

use crate::chip::{image_loaded, load_image, ChipCore, ChipSettings, ChipState};
use vstd::array::{spec_array_fill_for_copy_type, spec_array_update};

verus! {

/// The mu-law segment bases: eight segments, each twice the last.
pub const SEGMENT_BASE: [i32; 8] = [0, 16, 48, 112, 240, 496, 1008, 2032];

/// What a compressed sample byte decodes to: a segment base plus the low
/// nibble scaled by the segment; bit 7 is the negative half.
pub open spec fn mulaw_value(byte: u8) -> int {
    let magnitude = (byte & 0x7F) as u32;
    let segment = magnitude >> 4u32;
    let value = SEGMENT_BASE[segment as int] + ((magnitude & 0x0F) << segment);
    if byte & 0x80 != 0 {
        -value
    } else {
        value
    }
}

/// Decodes one compressed sample byte.
pub fn mulaw(byte: u8) -> (v: i32)
    ensures
        v == mulaw_value(byte),
        -3952 <= v <= 3952,
{
    let magnitude = (byte & 0x7F) as u32;
    assert(byte & 0x7F <= 0x7F) by {
        lemma_u8(byte, 0x7F);
    }
    let segment = magnitude >> 4u32;
    assert(segment <= 7 && (magnitude & 0x0F) << segment <= 15 * 128) by (bit_vector)
        requires
            magnitude <= 0x7F,
            segment == magnitude >> 4u32,
    ;
    assert(SEGMENT_BASE@ =~= seq![0i32, 16, 48, 112, 240, 496, 1008, 2032]);
    let value = SEGMENT_BASE[segment as usize] + ((magnitude & 0x0F) << segment) as i32;
    if byte & 0x80 != 0 {
        -value
    } else {
        value
    }
}

/// Which board's address fold to apply.
#[derive(Debug, Clone, Copy, PartialEq, Eq, Structural)]
pub enum Banking {
    System2,
    System21,
    /// The C219's own scheme, approximated as linear.
    C219,
}

/// A voice's base byte address through the board's fold.
pub open spec fn folded(banking: Banking, bank: u8, offset: u16) -> int {
    let raw = ((bank as u32) << 16u32) | (offset as u32);
    match banking {
        Banking::System2 => (((raw & 0x20_0000) >> 2u32) | (raw & 0x07_FFFF)) as int,
        Banking::System21 => (((raw & 0x30_0000) >> 1u32) | (raw & 0x07_FFFF)) as int,
        Banking::C219 => raw as int,
    }
}

/// One voice.
#[derive(Debug, Clone, Copy)]
pub struct Voice {
    pub right_volume: u8,
    pub left_volume: u8,
    /// `0x10000` would be one sample per frame; the register reaches `0xFFFF`.
    pub frequency: u16,
    pub bank: u8,
    pub mode: u8,
    pub start: u16,
    pub end: u16,
    pub loop_start: u16,
    /// Sample position from the start address, 16.16.
    pub position: u32,
    pub playing: bool,
}

/// `a + b` wrapped to 32 bits.
pub open spec fn wrapped(a: u32, b: u32) -> u32 {
    if a + b > u32::MAX {
        (a + b - 0x1_0000_0000) as u32
    } else {
        (a + b) as u32
    }
}

impl Voice {
    pub open spec fn cleared() -> Voice {
        Voice {
            right_volume: 0,
            left_volume: 0,
            frequency: 0,
            bank: 0,
            mode: 0,
            start: 0,
            end: 0,
            loop_start: 0,
            position: 0,
            playing: false,
        }
    }

    /// The sample's length in bytes; an end before the start is empty.
    pub open spec fn length(self) -> int {
        if self.end >= self.start {
            self.end - self.start
        } else {
            0
        }
    }

    /// The voice one frame on, and the value it sounds, if any: at its end
    /// a looping voice restarts from its loop address and a one-shot stops;
    /// a read past the ROM stops it too.
    pub open spec fn read(self, banking: Banking, rom: Seq<u8>) -> (Voice, Option<int>) {
        let index = self.position >> 16u32;
        if !self.playing {
            (self, None)
        } else if index >= (if self.length() > 1 { self.length() } else { 1 }) {
            if self.mode & 0x10 != 0 {
                (Voice { position: 0, start: self.loop_start, ..self }, None)
            } else {
                (Voice { playing: false, ..self }, None)
            }
        } else {
            let at = folded(banking, self.bank, self.start) + index;
            if at >= rom.len() {
                (Voice { playing: false, ..self }, None)
            } else {
                let byte = rom[at];
                let value = if self.mode & 0x08 != 0 {
                    mulaw_value(byte)
                } else {
                    (byte as i8) * 16
                };
                (Voice { position: wrapped(self.position, self.frequency as u32), ..self }, Some(value))
            }
        }
    }

    /// The voice's `(left, right)` this frame.
    pub open spec fn out(self, banking: Banking, rom: Seq<u8>) -> (int, int) {
        match self.read(banking, rom).1 {
            Some(v) => (
                ((v * self.left_volume) as i32 >> 8i32) as int,
                ((v * self.right_volume) as i32 >> 8i32) as int,
            ),
            None => (0, 0),
        }
    }
}

/// The C140 / C219.
#[derive(Debug)]
pub struct C140 {
    pub rate: u32,
    pub banking: Banking,
    pub voices: [Voice; 24],
    pub rom: Vec<u8>,
}

impl C140 {
    pub open spec fn cleared(rate: u32, banking: Banking, rom: Vec<u8>) -> C140 {
        C140 { rate, banking, voices: spec_array_fill_for_copy_type(Voice::cleared()), rom }
    }

    fn clear(rate: u32, banking: Banking, rom: Vec<u8>) -> (chip: C140)
        ensures
            chip == C140::cleared(rate, banking, rom),
    {
        let v = Voice {
            right_volume: 0,
            left_volume: 0,
            frequency: 0,
            bank: 0,
            mode: 0,
            start: 0,
            end: 0,
            loop_start: 0,
            position: 0,
            playing: false,
        };
        C140 { rate, banking, voices: [v; 24], rom }
    }

    /// A chip with no clock yet and an empty ROM; `reset` gives it a clock.
    pub fn new() -> (chip: C140)
        ensures
            chip == C140::cleared(21_390, Banking::System2, chip.rom),
            chip.rom@.len() == 0,
    {
        Self::clear(21_390, Banking::System2, Vec::new())
    }

    /// A voice's base byte address through the board's fold.
    pub fn address(&self, bank: u8, offset: u16) -> (a: usize)
        ensures
            a == folded(self.banking, bank, offset),
            a <= 0xFF_FFFF,
    {
        let raw = ((bank as u32) << 16) | (offset as u32);
        assert(raw <= 0xFF_FFFF && ((raw & 0x20_0000) >> 2u32) | (raw & 0x07_FFFF) <= raw
            && ((raw & 0x30_0000) >> 1u32) | (raw & 0x07_FFFF) <= raw) by (bit_vector)
            requires
                raw == ((bank as u32) << 16u32) | (offset as u32),
        ;
        match self.banking {
            Banking::System2 => (((raw & 0x20_0000) >> 2) | (raw & 0x07_FFFF)) as usize,
            Banking::System21 => (((raw & 0x30_0000) >> 1) | (raw & 0x07_FFFF)) as usize,
            Banking::C219 => raw as usize,
        }
    }

    fn play(&mut self, i: usize) -> (o: (i32, i32))
        requires
            i < 24,
        ensures
            *final(self) == (C140 {
                voices: spec_array_update(
                    old(self).voices,
                    i as int,
                    old(self).voices[i as int].read(old(self).banking, old(self).rom@).0,
                ),
                ..*old(self)
            }),
            o.0 == old(self).voices[i as int].out(old(self).banking, old(self).rom@).0,
            o.1 == old(self).voices[i as int].out(old(self).banking, old(self).rom@).1,
            -3937 <= o.0 <= 3937,
            -3937 <= o.1 <= 3937,
    {
        let mut voice = self.voices[i];
        if !voice.playing {
            assert(self.voices =~= spec_array_update(old(self).voices, i as int, voice));
            return (0, 0);
        }
        let length: u32 = if voice.end >= voice.start { (voice.end - voice.start) as u32 } else { 0 };
        let index = voice.position >> 16;
        if index >= (if length > 1 { length } else { 1 }) {
            if voice.mode & 0x10 != 0 {
                voice.position = 0;
                voice.start = voice.loop_start;
            } else {
                voice.playing = false;
            }
            self.voices[i] = voice;
            return (0, 0);
        }
        let base = self.address(voice.bank, voice.start);
        let at = base + index as usize;
        if at >= self.rom.len() {
            voice.playing = false;
            self.voices[i] = voice;
            return (0, 0);
        }
        let byte = self.rom[at];
        let value: i32 = if voice.mode & 0x08 != 0 {
            mulaw(byte)
        } else {
            (byte as i8 as i32) * 16
        };
        voice.position = voice.position.wrapping_add(voice.frequency as u32);
        self.voices[i] = voice;
        let lv = voice.left_volume as i32;
        let rv = voice.right_volume as i32;
        assert(-3952 * 255 <= value * lv <= 3952 * 255) by (nonlinear_arith)
            requires
                -3952 <= value <= 3952,
                0 <= lv <= 255,
        ;
        assert(-3952 * 255 <= value * rv <= 3952 * 255) by (nonlinear_arith)
            requires
                -3952 <= value <= 3952,
                0 <= rv <= 255,
        ;
        let xl = value * lv;
        let xr = value * rv;
        proof {
            lemma_i32_shr(xl);
            lemma_i32_shr(xr);
        }
        (xl >> 8, xr >> 8)
    }

    /// The first `n` voices' summed outputs.
    pub open spec fn mixed(self, n: int) -> (int, int)
        decreases n,
    {
        if n <= 0 {
            (0, 0)
        } else {
            let (l, r) = self.mixed(n - 1);
            let (a, b) = self.voices[n - 1].out(self.banking, self.rom@);
            (l + a, r + b)
        }
    }

    pub open spec fn advanced(self) -> C140 {
        let r = |i: int| self.voices[i].read(self.banking, self.rom@).0;
        C140 {
            voices: [
                r(0), r(1), r(2), r(3), r(4), r(5), r(6), r(7), r(8), r(9), r(10), r(11), r(12), r(13), r(14), r(15), r(16), r(17), r(18), r(19), r(20), r(21), r(22), r(23)
            ],
            ..self
        }
    }

    fn tick(&mut self) -> (o: (i32, i32))
        ensures
            *final(self) == old(self).advanced(),
            o.0 == 4 * old(self).mixed(24).0,
            o.1 == 4 * old(self).mixed(24).1,
    {
        let ghost start = *self;
        let mut left: i32 = 0;
        let mut right: i32 = 0;
        let mut i: usize = 0;
        while i < 24
            invariant
                i <= 24,
                *self == (C140 { voices: self.voices, ..start }),
                forall|j: int|
                    0 <= j < i ==> #[trigger] self.voices[j] == start.voices[j].read(
                        start.banking,
                        start.rom@,
                    ).0,
                forall|j: int| i <= j < 24 ==> #[trigger] self.voices[j] == start.voices[j],
                (left as int, right as int) == start.mixed(i as int),
                -3937 * i <= left <= 3937 * i,
                -3937 * i <= right <= 3937 * i,
            decreases 24 - i,
        {
            let (l, r) = self.play(i);
            left = left + l;
            right = right + r;
            i = i + 1;
        }
        assert(self.voices =~= start.advanced().voices);
        (left * 4, right * 4)
    }
}


impl C140 {
    /// The chip after byte `d` lands in register `reg`: 24 voices of 16
    /// registers; the block above them (the C219's bank file) is not
    /// modelled. The mode register is also the key: bit 7 starts the voice
    /// from its start address, clear stops it.
    pub open spec fn register_set(self, reg: int, d: u8) -> C140 {
        if reg >= 0x180 {
            self
        } else {
            let i = reg / 16;
            let v = self.voices[i];
            let r = reg % 16;
            let hi = |x: u16| ((x & 0x00FF) | ((d as u16) << 8u16)) as u16;
            let lo = |x: u16| ((x & 0xFF00) | (d as u16)) as u16;
            let w = if r == 0 {
                Voice { right_volume: d, ..v }
            } else if r == 1 {
                Voice { left_volume: d, ..v }
            } else if r == 2 {
                Voice { frequency: hi(v.frequency), ..v }
            } else if r == 3 {
                Voice { frequency: lo(v.frequency), ..v }
            } else if r == 4 {
                Voice { bank: d, ..v }
            } else if r == 5 {
                if d & 0x80 != 0 {
                    Voice { mode: d, position: 0, playing: true, ..v }
                } else {
                    Voice { mode: d, playing: false, ..v }
                }
            } else if r == 6 {
                Voice { start: hi(v.start), ..v }
            } else if r == 7 {
                Voice { start: lo(v.start), ..v }
            } else if r == 8 {
                Voice { end: hi(v.end), ..v }
            } else if r == 9 {
                Voice { end: lo(v.end), ..v }
            } else if r == 10 {
                Voice { loop_start: hi(v.loop_start), ..v }
            } else if r == 11 {
                Voice { loop_start: lo(v.loop_start), ..v }
            } else {
                v
            };
            C140 { voices: spec_array_update(self.voices, i, w), ..self }
        }
    }

    /// The rate a header clock gives: the C140's "clock" is normally the
    /// sample rate itself, and a real crystal is divided down.
    pub open spec fn rate_for(clock: u32) -> u32 {
        if clock < 1_000_000 {
            if clock > 1 { clock } else { 1 }
        } else if clock / 288 > 1 {
            clock / 288
        } else {
            1
        }
    }
}

impl Default for C140 {
    fn default() -> (chip: C140)
        ensures
            chip == C140::cleared(21_390, Banking::System2, chip.rom),
            chip.rom@.len() == 0,
    {
        Self::new()
    }
}

impl ChipState for C140 {
    open spec fn inv(&self) -> bool {
        true
    }

    open spec fn stepped(&self) -> C140 {
        self.advanced()
    }

    /// One voice at full scale lands near +-2k; the x4 puts it near the
    /// usual one-channel headroom.
    open spec fn frame(&self) -> (i32, i32) {
        ((4 * self.mixed(24).0) as i32, (4 * self.mixed(24).1) as i32)
    }

    fn next_frame(&mut self) -> (f: (i32, i32)) {
        self.tick()
    }
}

impl ChipCore for C140 {
    /// `variant` is the header's bit 31: the C219. The ROM survives.
    fn reset(&mut self, clock: u32, variant: bool)
        ensures
            *final(self) == C140::cleared(
                C140::rate_for(clock),
                if variant { Banking::C219 } else { Banking::System2 },
                old(self).rom,
            ),
    {
        let mut rom: Vec<u8> = Vec::new();
        std::mem::swap(&mut rom, &mut self.rom);
        let rate = if clock < 1_000_000 {
            if clock > 1 { clock } else { 1 }
        } else if clock / 288 > 1 {
            clock / 288
        } else {
            1
        };
        *self = Self::clear(rate, if variant { Banking::C219 } else { Banking::System2 }, rom);
    }

    /// The header's board type: 1 System 21, 2 C219; otherwise System 2,
    /// except that a chip the clock's variant bit made a C219 stays one.
    fn configure(&mut self, settings: &ChipSettings)
        ensures
            *final(self) == (C140 {
                banking: if settings.c140_type == 1 {
                    Banking::System21
                } else if settings.c140_type == 2 {
                    Banking::C219
                } else if old(self).banking == Banking::C219 {
                    Banking::C219
                } else {
                    Banking::System2
                },
                ..*old(self)
            }),
    {
        self.banking = if settings.c140_type == 1 {
            Banking::System21
        } else if settings.c140_type == 2 {
            Banking::C219
        } else {
            match self.banking {
                Banking::C219 => Banking::C219,
                _ => Banking::System2,
            }
        };
    }

    fn native_rate(&self) -> (rate: u32)
        ensures
            rate == self.rate,
    {
        self.rate
    }

    /// The VGM's `0xD4 pp rr dd`: the register index is `pp << 8 | rr`.
    fn write(&mut self, port: u8, addr: u16, data: u16)
        ensures
            *final(self) == old(self).register_set(port * 256 + (addr & 0xFF), (data & 0xFF) as u8),
    {
        let lo = addr & 0xFF;
        assert(lo <= 0xFF) by {
            lemma_u16(addr, 0xFF);
        }
        let reg: u16 = (port as u16) * 256 + lo;
        let d = (data & 0xFF) as u8;
        if reg >= 0x180 {
            return;
        }
        let i = (reg / 16) as usize;
        let mut v = self.voices[i];
        let r = reg % 16;
        if r == 0 {
            v.right_volume = d;
        } else if r == 1 {
            v.left_volume = d;
        } else if r == 2 {
            v.frequency = (v.frequency & 0x00FF) | ((d as u16) << 8);
        } else if r == 3 {
            v.frequency = (v.frequency & 0xFF00) | (d as u16);
        } else if r == 4 {
            v.bank = d;
        } else if r == 5 {
            v.mode = d;
            if d & 0x80 != 0 {
                v.position = 0;
                v.playing = true;
            } else {
                v.playing = false;
            }
        } else if r == 6 {
            v.start = (v.start & 0x00FF) | ((d as u16) << 8);
        } else if r == 7 {
            v.start = (v.start & 0xFF00) | (d as u16);
        } else if r == 8 {
            v.end = (v.end & 0x00FF) | ((d as u16) << 8);
        } else if r == 9 {
            v.end = (v.end & 0xFF00) | (d as u16);
        } else if r == 10 {
            v.loop_start = (v.loop_start & 0x00FF) | ((d as u16) << 8);
        } else if r == 11 {
            v.loop_start = (v.loop_start & 0xFF00) | (d as u16);
        }
        self.voices[i] = v;
        assert(self.voices =~= old(self).register_set(reg as int, d).voices);
    }

    /// The sample ROM.
    fn load_rom(&mut self, block_type: u8, total_size: u32, start: u32, data: &[u8])
        ensures
            final(self).rom@ == image_loaded(old(self).rom@, total_size as nat, start as nat, data@),
            *final(self) == (C140 { rom: final(self).rom, ..*old(self) }),
    {
        load_image(&mut self.rom, total_size, start, data);
    }
}

} // verus!
