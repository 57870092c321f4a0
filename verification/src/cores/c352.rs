//! The Namco C352: thirty-two PCM voices, four output buses, one noise
//! generator.
//!
//! Thirty-two voices of 8-bit linear or mu-law PCM from a 24-bit ROM space,
//! keyed through their flag registers, at a rate the header's own divider
//! field sets.
//!
//! The **mu-law curve** is a piecewise-linear reconstruction of the
//! documented shape; the **rear outputs mix into the front pair** at half
//! weight (this engine is stereo); and the frequency-modulation, link and
//! filter flags are not modelled. Phase inversion, loops, reverse playback
//! and the noise voice are.

use vstd::prelude::*;
use crate::bits::{lemma_i32_shr, lemma_u16, lemma_u8};

use crate::chip::{image_loaded, load_image, ChipCore, ChipSettings, ChipState};
use vstd::array::{spec_array_fill_for_copy_type, spec_array_update};

verus! {

/// Flag bits.
pub const FLG_KEYON: u16 = 0x4000;
pub const FLG_KEYOFF: u16 = 0x2000;
pub const FLG_PHASEFL: u16 = 0x0100;
pub const FLG_NOISE: u16 = 0x0010;
pub const FLG_MULAW: u16 = 0x0008;
pub const FLG_LOOP: u16 = 0x0002;
pub const FLG_REVERSE: u16 = 0x0001;

/// The mu-law curve's level for a seven-bit magnitude: slope 1 up to 16,
/// then 2 up to 24, 4 up to 48, 8 up to 100 and 16 beyond.
pub open spec fn mulaw_level(m: int) -> int {
    if m <= 16 {
        m
    } else if m <= 24 {
        16 + 2 * (m - 16)
    } else if m <= 48 {
        32 + 4 * (m - 24)
    } else if m <= 100 {
        128 + 8 * (m - 48)
    } else {
        544 + 16 * (m - 100)
    }
}

/// A compressed sample byte expanded: the level of its magnitude, times 32,
/// bit 7 the negative half.
pub open spec fn mulaw_value(byte: u8) -> int {
    let v = mulaw_level((byte & 0x7F) as int) * 32;
    if byte & 0x80 != 0 {
        -v
    } else {
        v
    }
}

pub fn mulaw(byte: u8) -> (v: i32)
    ensures
        v == mulaw_value(byte),
        -31_232 <= v <= 31_232,
{
    assert(byte & 0x7F <= 127) by {
        lemma_u8(byte, 0x7F);
    }
    let m = (byte & 0x7F) as i32;
    let level = if m <= 16 {
        m
    } else if m <= 24 {
        16 + 2 * (m - 16)
    } else if m <= 48 {
        32 + 4 * (m - 24)
    } else if m <= 100 {
        128 + 8 * (m - 48)
    } else {
        544 + 16 * (m - 100)
    };
    let value = level * 32;
    if byte & 0x80 != 0 {
        -value
    } else {
        value
    }
}

/// `a + b` wrapped to 32 bits.
pub open spec fn wrapped(a: u32, b: u32) -> u32 {
    if a + b > u32::MAX {
        (a + b - 0x1_0000_0000) as u32
    } else {
        (a + b) as u32
    }
}

/// `a - b` wrapped to 32 bits.
pub open spec fn wrapped_sub(a: u32, b: u32) -> u32 {
    if a >= b {
        (a - b) as u32
    } else {
        (a - b + 0x1_0000_0000) as u32
    }
}

/// One voice.
#[derive(Debug, Clone, Copy)]
pub struct Voice {
    /// Front volumes: high byte left, low byte right.
    pub volume_front: u16,
    /// Rear volumes, mixed into the same pair.
    pub volume_rear: u16,
    pub frequency: u16,
    pub flags: u16,
    pub bank: u16,
    pub start: u16,
    pub end: u16,
    pub loop_start: u16,
    /// Sample position from the start, 16.16.
    pub position: u32,
    pub playing: bool,
}

impl Voice {
    pub open spec fn cleared() -> Voice {
        Voice {
            volume_front: 0,
            volume_rear: 0,
            frequency: 0,
            flags: 0,
            bank: 0,
            start: 0,
            end: 0,
            loop_start: 0,
            position: 0,
            playing: false,
        }
    }

    /// The voice one frame on and the value it sounds, if any: the shared
    /// noise sample for a noise voice; otherwise its ROM byte, past whose
    /// end a looping voice restarts at its loop address and a one-shot
    /// stops (as a read past the ROM does).
    pub open spec fn read(self, rom: Seq<u8>, noise_sample: int) -> (Voice, Option<int>) {
        if !self.playing {
            (self, None)
        } else {
            let moved = Voice { position: wrapped(self.position, self.frequency as u32), ..self };
            if self.flags & FLG_NOISE != 0 {
                (moved, Some(noise_sample))
            } else {
                let steps = self.position >> 16u32;
                let span = (if self.end >= self.start { self.end - self.start } else { self.end - self.start + 0x1_0000 }) as u32;
                if steps > span {
                    if self.flags & FLG_LOOP != 0 {
                        (Voice { position: 0, start: self.loop_start, ..self }, None)
                    } else {
                        (Voice { playing: false, ..self }, None)
                    }
                } else {
                    let offset = if self.flags & FLG_REVERSE != 0 {
                        wrapped_sub(self.start as u32, steps)
                    } else {
                        wrapped(self.start as u32, steps)
                    };
                    let at = (((self.bank as u32) << 16u32) | (offset & 0xFFFF)) as int;
                    if at >= rom.len() {
                        (Voice { playing: false, ..self }, None)
                    } else if self.flags & FLG_MULAW != 0 {
                        (moved, Some(mulaw_value(rom[at])))
                    } else {
                        (moved, Some((rom[at] as i8) * 256))
                    }
                }
            }
        }
    }

    /// The voice's `(left, right)`: its front volume plus half its rear,
    /// the left side inverted under the phase flag.
    pub open spec fn out(self, rom: Seq<u8>, noise_sample: int) -> (int, int) {
        match self.read(rom, noise_sample).1 {
            Some(v) => {
                let vl = (self.volume_front >> 8u16) + ((self.volume_rear >> 8u16) / 2);
                let vr = (self.volume_front & 0xFF) + ((self.volume_rear & 0xFF) / 2);
                let l = ((v * vl) as i32 >> 10i32) as int;
                let r = ((v * vr) as i32 >> 10i32) as int;
                (if self.flags & FLG_PHASEFL != 0 { -l } else { l }, r)
            },
            None => (0, 0),
        }
    }

    fn play(&mut self, rom: &Vec<u8>, noise_sample: i32) -> (o: (i32, i32))
        requires
            noise_sample == 0x1000 || noise_sample == -0x1000,
        ensures
            *final(self) == old(self).read(rom@, noise_sample as int).0,
            o.0 == old(self).out(rom@, noise_sample as int).0,
            o.1 == old(self).out(rom@, noise_sample as int).1,
            -12_224 <= o.0 <= 12_224,
            -12_224 <= o.1 <= 12_224,
    {
        if !self.playing {
            return (0, 0);
        }
        let value: i32 = if self.flags & FLG_NOISE != 0 {
            noise_sample
        } else {
            let steps = self.position >> 16;
            let span = self.end.wrapping_sub(self.start) as u32;
            if steps > span {
                if self.flags & FLG_LOOP != 0 {
                    self.position = 0;
                    self.start = self.loop_start;
                } else {
                    self.playing = false;
                }
                return (0, 0);
            }
            let offset = if self.flags & FLG_REVERSE != 0 {
                (self.start as u32).wrapping_sub(steps)
            } else {
                (self.start as u32).wrapping_add(steps)
            };
            let at = (((self.bank as u32) << 16) | (offset & 0xFFFF)) as usize;
            if at >= rom.len() {
                self.playing = false;
                return (0, 0);
            }
            if self.flags & FLG_MULAW != 0 {
                mulaw(rom[at])
            } else {
                (rom[at] as i8 as i32) * 256
            }
        };
        self.position = self.position.wrapping_add(self.frequency as u32);
        let (f, r) = (self.volume_front, self.volume_rear);
        assert(f >> 8u16 <= 255 && r >> 8u16 <= 255 && f & 0xFF <= 255 && r & 0xFF <= 255) by {
            lemma_u16(f, 0xFF);
            lemma_u16(r, 0xFF);
        }
        let vl = (self.volume_front >> 8) as i32 + ((self.volume_rear >> 8) as i32) / 2;
        let vr = (self.volume_front & 0xFF) as i32 + ((self.volume_rear & 0xFF) as i32) / 2;
        assert(-32768 * 382 <= value * vl <= 32768 * 382 && -32768 * 382 <= value * vr <= 32768 * 382)
            by (nonlinear_arith)
            requires
                -32768 <= value <= 32767,
                0 <= vl <= 382,
                0 <= vr <= 382,
        ;
        let xl = value * vl;
        let xr = value * vr;
        proof {
            lemma_i32_shr(xl);
            lemma_i32_shr(xr);
        }
        let l = xl >> 10;
        (if self.flags & FLG_PHASEFL != 0 { -l } else { l }, xr >> 10)
    }
}

impl Default for Voice {
    fn default() -> (v: Voice)
        ensures
            v == Voice::cleared(),
    {
        Voice {
            volume_front: 0,
            volume_rear: 0,
            frequency: 0,
            flags: 0,
            bank: 0,
            start: 0,
            end: 0,
            loop_start: 0,
            position: 0,
            playing: false,
        }
    }
}

/// The C352.
#[derive(Debug)]
pub struct C352 {
    pub rate: u32,
    pub clock: u32,
    pub divider: u32,
    pub voices: [Voice; 32],
    pub rom: Vec<u8>,
    /// The noise generator's shift register.
    pub noise: u32,
}

/// The output rate for `clock` and `divider`, at least one.
pub open spec fn rate_of(clock: u32, divider: u32) -> u32 {
    let r = clock / (if divider > 1 { divider } else { 1 });
    if r > 1 {
        r
    } else {
        1
    }
}

impl C352 {
    pub open spec fn cleared(clock: u32, divider: u32, rate: u32, rom: Vec<u8>) -> C352 {
        C352 {
            rate,
            clock,
            divider,
            voices: spec_array_fill_for_copy_type(Voice::cleared()),
            rom,
            noise: 0x5A5A_5A5A,
        }
    }

    fn clear(clock: u32, divider: u32, rate: u32, rom: Vec<u8>) -> (chip: C352)
        ensures
            chip == C352::cleared(clock, divider, rate, rom),
    {
        let v = Voice::default();
        C352 { rate, clock, divider, voices: [v; 32], rom, noise: 0x5A5A_5A5A }
    }

    /// A chip with no clock yet and no ROM.
    pub fn new() -> (chip: C352)
        ensures
            chip == C352::cleared(0, 288, 42_667, chip.rom),
            chip.rom@.len() == 0,
    {
        Self::clear(0, 288, 42_667, Vec::new())
    }

    fn rate_for(clock: u32, divider: u32) -> (r: u32)
        ensures
            r == rate_of(clock, divider),
    {
        let r = clock / (if divider > 1 { divider } else { 1 });
        if r > 1 { r } else { 1 }
    }

    /// The noise register one step on.
    pub open spec fn noise_stepped(self) -> u32 {
        (self.noise >> 1u32) | (((self.noise ^ (self.noise >> 1u32)) & 1) << 30u32)
    }

    /// The sample every noise voice plays this frame.
    pub open spec fn noise_sample(self) -> int {
        if self.noise_stepped() & 1 != 0 {
            0x1000
        } else {
            -0x1000
        }
    }

    pub open spec fn mixed(self, n: int) -> (int, int)
        decreases n,
    {
        if n <= 0 {
            (0, 0)
        } else {
            let (l, r) = self.mixed(n - 1);
            let (a, b) = self.voices[n - 1].out(self.rom@, self.noise_sample());
            (l + a, r + b)
        }
    }

    pub open spec fn advanced(self) -> C352 {
        let r = |i: int| self.voices[i].read(self.rom@, self.noise_sample()).0;
        C352 {
            noise: self.noise_stepped(),
            voices: [
                r(0), r(1), r(2), r(3), r(4), r(5), r(6), r(7), r(8), r(9), r(10), r(11), r(12),
                r(13), r(14), r(15), r(16), r(17), r(18), r(19), r(20), r(21), r(22), r(23), r(24),
                r(25), r(26), r(27), r(28), r(29), r(30), r(31),
            ],
            ..self
        }
    }

    fn tick(&mut self) -> (o: (i32, i32))
        ensures
            *final(self) == old(self).advanced(),
            o.0 == old(self).mixed(32).0,
            o.1 == old(self).mixed(32).1,
    {
        let ghost start = *self;
        let n = self.noise;
        self.noise = (n >> 1u32) | (((n ^ (n >> 1u32)) & 1) << 30u32);
        let noise_sample: i32 = if self.noise & 1 != 0 { 0x1000 } else { -0x1000 };
        let mut left: i32 = 0;
        let mut right: i32 = 0;
        let mut i: usize = 0;
        while i < 32
            invariant
                i <= 32,
                noise_sample == start.noise_sample(),
                *self == (C352 { voices: self.voices, noise: start.noise_stepped(), ..start }),
                forall|j: int|
                    0 <= j < i ==> #[trigger] self.voices[j] == start.voices[j].read(start.rom@, noise_sample as int).0,
                forall|j: int| i <= j < 32 ==> #[trigger] self.voices[j] == start.voices[j],
                (left as int, right as int) == start.mixed(i as int),
                -12_224 * i <= left <= 12_224 * i,
                -12_224 * i <= right <= 12_224 * i,
            decreases 32 - i,
        {
            let mut v = self.voices[i];
            let (l, r) = v.play(&self.rom, noise_sample);
            self.voices[i] = v;
            left = left + l;
            right = right + r;
            i = i + 1;
        }
        assert(self.voices =~= start.advanced().voices);
        (left, right)
    }

    /// The chip after value `data` lands in register `addr`: voices are
    /// eight words apart; the flag word keys on and off. The global file
    /// from `0x100` (master volume, DSP controls) is not modelled.
    pub open spec fn register_set(self, addr: u16, data: u16) -> C352 {
        if addr >= 0x100 {
            self
        } else {
            let i = (addr / 8) as int;
            let v = self.voices[i];
            let r = addr % 8;
            let n = if r == 0 {
                Voice { volume_front: data, ..v }
            } else if r == 1 {
                Voice { volume_rear: data, ..v }
            } else if r == 2 {
                Voice { frequency: data, ..v }
            } else if r == 3 {
                let on = Voice {
                    flags: data,
                    position: if data & FLG_KEYON != 0 { 0 } else { v.position },
                    playing: if data & FLG_KEYON != 0 { true } else { v.playing },
                    ..v
                };
                if data & FLG_KEYOFF != 0 { Voice { playing: false, ..on } } else { on }
            } else if r == 4 {
                Voice { bank: data, ..v }
            } else if r == 5 {
                Voice { start: data, ..v }
            } else if r == 6 {
                Voice { end: data, ..v }
            } else {
                Voice { loop_start: data, ..v }
            };
            C352 { voices: spec_array_update(self.voices, i, n), ..self }
        }
    }
}

impl Default for C352 {
    fn default() -> (chip: C352)
        ensures
            chip == C352::cleared(0, 288, 42_667, chip.rom),
            chip.rom@.len() == 0,
    {
        Self::new()
    }
}

impl ChipState for C352 {
    open spec fn inv(&self) -> bool {
        true
    }

    open spec fn stepped(&self) -> C352 {
        self.advanced()
    }

    open spec fn frame(&self) -> (i32, i32) {
        (self.mixed(32).0 as i32, self.mixed(32).1 as i32)
    }

    fn next_frame(&mut self) -> (f: (i32, i32)) {
        self.tick()
    }
}

impl ChipCore for C352 {
    /// The ROM and the divider survive; the rate follows the new clock.
    fn reset(&mut self, clock: u32, variant: bool)
        ensures
            *final(self) == C352::cleared(
                clock,
                old(self).divider,
                rate_of(clock, old(self).divider),
                old(self).rom,
            ),
    {
        let mut rom: Vec<u8> = Vec::new();
        std::mem::swap(&mut rom, &mut self.rom);
        let divider = self.divider;
        *self = Self::clear(clock, divider, Self::rate_for(clock, divider), rom);
    }

    /// The header's divider field, times four; zero means 288.
    fn configure(&mut self, settings: &ChipSettings)
        ensures
            *final(self) == ({
                let field = settings.c352_clock_divider as u32;
                let divider = if field == 0 { 288 } else { (field * 4) as u32 };
                C352 { divider, rate: rate_of(old(self).clock, divider), ..*old(self) }
            }),
    {
        let field = settings.c352_clock_divider as u32;
        self.divider = if field == 0 { 288 } else { field * 4 };
        self.rate = Self::rate_for(self.clock, self.divider);
    }

    fn native_rate(&self) -> (rate: u32)
        ensures
            rate == self.rate,
    {
        self.rate
    }

    /// A 16-bit register address, 16-bit data.
    fn write(&mut self, port: u8, addr: u16, data: u16)
        ensures
            *final(self) == old(self).register_set(addr, data),
    {
        if addr >= 0x100 {
            return;
        }
        let i = (addr / 8) as usize;
        let mut v = self.voices[i];
        let r = addr % 8;
        if r == 0 {
            v.volume_front = data;
        } else if r == 1 {
            v.volume_rear = data;
        } else if r == 2 {
            v.frequency = data;
        } else if r == 3 {
            v.flags = data;
            if data & FLG_KEYON != 0 {
                v.position = 0;
                v.playing = true;
            }
            if data & FLG_KEYOFF != 0 {
                v.playing = false;
            }
        } else if r == 4 {
            v.bank = data;
        } else if r == 5 {
            v.start = data;
        } else if r == 6 {
            v.end = data;
        } else {
            v.loop_start = data;
        }
        self.voices[i] = v;
        assert(self.voices =~= old(self).register_set(addr, data).voices);
    }

    /// The sample ROM.
    fn load_rom(&mut self, block_type: u8, total_size: u32, start: u32, data: &[u8])
        ensures
            final(self).rom@ == image_loaded(old(self).rom@, total_size as nat, start as nat, data@),
            *final(self) == (C352 { rom: final(self).rom, ..*old(self) }),
    {
        load_image(&mut self.rom, total_size, start, data);
    }
}

} // verus!
