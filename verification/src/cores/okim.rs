//! The two OKI ADPCM chips: the OKIM6295 sample player and the OKIM6258
//! streaming codec.
//!
//! Both share [`Adpcm`]: the same four-bit nibble, the same twelve-bit
//! accumulator, the same 49-entry step table. What differs is where the
//! nibbles come from -- a sample ROM the chip addresses itself, or a stream
//! the host feeds it a byte at a time.
//!
//! **The OKIM6295** plays four voices out of a ROM whose first kilobyte is a
//! table of contents: eight bytes per sample, the first six its start and end.
//! Its command interface is two writes: one latches a sample number, the next
//! says which voices start it and how loud. Boards with more than 256 KB bank
//! the chip's address bus, either with a whole-view latch (`$0F`) or with the
//! NMK112's per-quarter banks (`$0E`, `$10`-`$13`).
//!
//! **The OKIM6258** has no ROM and no voices: the host writes ADPCM bytes and
//! the chip converts them, two nibbles to a byte.
//!
//! Not modelled: the OKIM6295's mid-stream clock retune (`$08`-`$0B`) and the
//! OKIM6258's 3-bit ADPCM mode.

use vstd::prelude::*;
use crate::bits::{lemma_i32_shr, lemma_u16, lemma_u32, lemma_u8};

use crate::chip::{div_trunc, image_loaded, load_image, ChipCore, ChipSettings, ChipState};
use vstd::array::{spec_array_fill_for_copy_type, spec_array_update};

verus! {

/// How much the accumulator moves per step, doubling roughly every six
/// entries: the documented Dialogic/OKI table.
pub const STEP_TABLE: [i32; 49] = [
    16, 17, 19, 21, 23, 25, 28, 31, 34, 37, 41, 45, 50, 55, 60, 66, 73, 80, 88, 97, 107, 118, 130,
    143, 157, 173, 190, 209, 230, 253, 279, 307, 337, 371, 408, 449, 494, 544, 598, 658, 724, 796,
    876, 963, 1060, 1166, 1282, 1411, 1552,
];

/// How the step index moves for each nibble magnitude.
pub const INDEX_DELTA: [i32; 8] = [-1, -1, -1, -1, 2, 5, 7, 9];

/// Peak amplitude of one voice at full volume.
pub const PEAK: i32 = 6_000;

/// Volume attenuation in 3 dB steps, 16.16 fixed point; the top codes are
/// silent.
pub const VOLUME: [i32; 16] = [
    65536, 46396, 32846, 23253, 16462, 11654, 8250, 5841, 4135, 2927, 2072, 1467, 1039, 0, 0, 0,
];

pub open spec fn step_size(i: int) -> i32 {
    STEP_TABLE@[i]
}

pub open spec fn index_delta(i: int) -> i32 {
    INDEX_DELTA@[i]
}

pub open spec fn volume_gain(i: int) -> i32 {
    VOLUME@[i]
}

/// The tables' entries are where the decoder's arithmetic needs them.
pub proof fn lemma_tables_bounded()
    ensures
        forall|i: int| 0 <= i < 49 ==> 16 <= #[trigger] step_size(i) <= 1552,
        forall|i: int| 0 <= i < 8 ==> -1 <= #[trigger] index_delta(i) <= 9,
        forall|i: int| 0 <= i < 16 ==> 0 <= #[trigger] volume_gain(i) <= 65536,
{
}

/// `x` clamped into `lo..=hi`.
pub open spec fn clamped(x: int, lo: int, hi: int) -> int {
    if x < lo {
        lo
    } else if x > hi {
        hi
    } else {
        x
    }
}

/// The shared four-bit ADPCM decoder: one nibble in, one twelve-bit sample
/// out, and a step index that adapts.
#[derive(Debug, Clone, Copy)]
pub struct Adpcm {
    pub signal: i32,
    pub step: i32,
}

/// The reconstruction of a nibble's magnitude: an eighth of the step, plus
/// the step, half of it and a quarter of it for magnitude bits 2, 1 and 0.
pub open spec fn delta_of(size: i32, magnitude: u8) -> int {
    (size >> 3u32) + (if magnitude & 4 != 0 {
        size as int
    } else {
        0
    }) + (if magnitude & 2 != 0 {
        (size >> 1u32) as int
    } else {
        0
    }) + (if magnitude & 1 != 0 {
        (size >> 2u32) as int
    } else {
        0
    })
}

impl Adpcm {
    /// Silence, at the smallest step.
    pub fn new() -> (a: Adpcm)
        ensures
            a.signal == 0 && a.step == 0,
    {
        Adpcm { signal: 0, step: 0 }
    }

    pub open spec fn inv(self) -> bool {
        &&& -2048 <= self.signal <= 2047
        &&& 0 <= self.step <= 48
    }

    /// Resets to silence, as a voice does when it is triggered.
    pub fn restart(&mut self)
        ensures
            final(self).signal == 0 && final(self).step == 0,
    {
        self.signal = 0;
        self.step = 0;
    }

    /// The decoder after one nibble: bit 3 is the sign, the low three bits
    /// the magnitude; the signal is clamped to twelve bits signed and the
    /// step index moves by the magnitude's delta, clamped to the table.
    pub open spec fn decoded(self, nibble: u8) -> Adpcm {
        let magnitude = nibble & 7;
        let delta = delta_of(step_size(self.step as int), magnitude);
        let raw = if nibble & 8 != 0 {
            self.signal - delta
        } else {
            self.signal + delta
        };
        Adpcm {
            signal: clamped(raw, -2048, 2047) as i32,
            step: clamped(self.step + index_delta(magnitude as int), 0, 48) as i32,
        }
    }

    /// Decodes one nibble, returning the new twelve-bit signal.
    pub fn decode(&mut self, nibble: u8) -> (s: i32)
        requires
            old(self).inv(),
        ensures
            final(self).inv(),
            *final(self) == old(self).decoded(nibble),
            s == final(self).signal,
    {
        proof {
            lemma_tables_bounded();
        }
        let magnitude = nibble & 7;
        assert(nibble & 7 < 8) by {
            lemma_u8(nibble, 7);
        }
        let size = STEP_TABLE[self.step as usize];
        assert(0 <= (size >> 3u32) <= 194 && 0 <= (size >> 1u32) <= 776 && 0 <= (size >> 2u32)
            <= 388) by {
            lemma_i32_shr(size);
        }
        let mut delta = size >> 3;
        if magnitude & 4 != 0 {
            delta += size;
        }
        if magnitude & 2 != 0 {
            delta += size >> 1;
        }
        if magnitude & 1 != 0 {
            delta += size >> 2;
        }
        let raw = if nibble & 8 != 0 {
            self.signal - delta
        } else {
            self.signal + delta
        };
        self.signal = if raw < -2048 {
            -2048
        } else if raw > 2047 {
            2047
        } else {
            raw
        };
        let next = self.step + INDEX_DELTA[magnitude as usize];
        self.step = if next < 0 {
            0
        } else if next > 48 {
            48
        } else {
            next
        };
        self.signal
    }
}

/// A twelve-bit signal scaled to a voice's peak and attenuated by volume
/// code `volume`.
pub open spec fn voice_level(signal: i32, volume: int) -> i32 {
    let scaled = div_trunc(signal * PEAK, 2048) as i32;
    ((scaled * volume_gain(volume)) as i32) >> 16u32
}

fn level(signal: i32, volume: usize) -> (l: i32)
    requires
        -2048 <= signal <= 2047,
        volume < 16,
    ensures
        l == voice_level(signal, volume as int),
        -6000 <= l <= 6000,
{
    proof {
        lemma_tables_bounded();
    }
    let scaled = signal * PEAK / 2048;
    assert(-6000 <= scaled <= 6000) by (nonlinear_arith)
        requires
            -2048 <= signal <= 2047,
            scaled == div_trunc(signal * 6000, 2048),
    ;
    let gain = VOLUME[volume];
    assert(-6000 * 65536 <= scaled * gain <= 6000 * 65536) by (nonlinear_arith)
        requires
            -6000 <= scaled <= 6000,
            0 <= gain <= 65536,
    ;
    let product = scaled * gain;
    proof {
        lemma_i32_shr(product);
    }
    product >> 16
}

/// One of the OKIM6295's four voices.
#[derive(Debug, Clone, Copy)]
pub struct Voice {
    pub playing: bool,
    pub adpcm: Adpcm,
    /// Byte offsets into the sample ROM, as the chip sees it.
    pub position: u32,
    pub end: u32,
    /// Whether the next nibble is the high half of the current byte.
    pub high_nibble: bool,
    pub volume: usize,
}

impl Voice {
    pub open spec fn silent() -> Voice {
        Voice {
            playing: false,
            adpcm: Adpcm { signal: 0, step: 0 },
            position: 0,
            end: 0,
            high_nibble: false,
            volume: 0,
        }
    }

    fn new() -> (v: Voice)
        ensures
            v == Voice::silent(),
    {
        Voice {
            playing: false,
            adpcm: Adpcm::new(),
            position: 0,
            end: 0,
            high_nibble: false,
            volume: 0,
        }
    }

    pub open spec fn inv(self) -> bool {
        &&& self.adpcm.inv()
        &&& self.position <= 0x40000
        &&& self.end <= 0x3FFFF
        &&& self.volume < 16
        &&& self.playing ==> self.position <= self.end
    }

    /// The voice started on a sample spanning `start..=end` at volume code
    /// `volume`: the decoder restarts from silence and the high nibble of
    /// the first byte comes first.
    pub open spec fn started(self, start: u32, end: u32, volume: u8) -> Voice {
        Voice {
            playing: true,
            adpcm: Adpcm { signal: 0, step: 0 },
            position: start,
            end: end,
            high_nibble: true,
            volume: volume as usize,
        }
    }
}

/// A 24-bit big-endian table field, as the chip reads it.
pub open spec fn read24(b0: u8, b1: u8, b2: u8) -> u32 {
    ((b0 as u32) << 16u32) | ((b1 as u32) << 8u32) | (b2 as u32)
}

/// The OKIM6295: four ADPCM voices reading from a sample ROM.
#[derive(Debug)]
pub struct Okim6295 {
    pub rate: u32,
    pub voices: [Voice; 4],
    pub rom: Vec<u8>,
    /// The sample number a latching write is holding for the write that
    /// says which voices play it.
    pub latched: Option<u8>,
    /// The plain banking window's base, in bytes.
    pub bank: u32,
    /// The NMK112 mode byte: non-zero replaces the plain latch with
    /// per-quarter banking, and bit 7 pages the phrase table too.
    pub nmk_mode: u8,
    /// The NMK112's four bank registers, in 64 KB units.
    pub nmk_banks: [u8; 4],
}

impl Okim6295 {
    /// The power-on chip at `rate`, holding `rom`.
    pub open spec fn powered(rate: u32, rom: Vec<u8>) -> Okim6295 {
        let v = Voice::silent();
        Okim6295 {
            rate: rate,
            voices: [v, v, v, v],
            rom: rom,
            latched: None,
            bank: 0,
            nmk_mode: 0,
            nmk_banks: spec_array_fill_for_copy_type(0u8),
        }
    }

    fn power_on(rate: u32, rom: Vec<u8>) -> (chip: Okim6295)
        ensures
            chip == Okim6295::powered(rate, rom),
            chip.inv(),
    {
        let v = Voice::new();
        Okim6295 {
            rate: rate,
            voices: [v, v, v, v],
            rom: rom,
            latched: None,
            bank: 0,
            nmk_mode: 0,
            nmk_banks: [0u8; 4],
        }
    }

    /// A chip with no clock yet; `reset` gives it one.
    pub fn new() -> (chip: Okim6295)
        ensures
            chip == Okim6295::powered(8_000, chip.rom),
            chip.rom@.len() == 0,
            chip.inv(),
    {
        Self::power_on(8_000, Vec::new())
    }

    pub open spec fn inv(self) -> bool {
        &&& forall|i: int| 0 <= i < 4 ==> #[trigger] self.voices[i].inv()
        &&& self.bank <= 0xFF * 0x40000
    }

    /// The physical ROM offset the chip's `address` reaches through the
    /// banking: the plain latch offsets the whole view; the NMK112 maps each
    /// 64 KB quarter through its own bank, paging the table's first 0x400
    /// bytes by 256-byte run when the mode byte's bit 7 is set.
    pub open spec fn physical(self, address: u32) -> int {
        if self.nmk_mode == 0 {
            self.bank + address
        } else {
            let slot = if address < 0x400 && self.nmk_mode & 0x80 != 0 {
                address >> 8u32
            } else {
                address >> 16u32
            };
            (((self.nmk_banks[(slot & 3) as int] as u32) << 16u32) | (address & 0xFFFF)) as int
        }
    }

    /// One byte of sample memory through the banking, `None` past the ROM.
    pub open spec fn byte_at(self, address: u32) -> Option<u8> {
        let p = self.physical(address);
        if 0 <= p < self.rom@.len() {
            Some(self.rom@[p])
        } else {
            None
        }
    }

    pub fn rom_byte(&self, address: u32) -> (b: Option<u8>)
        requires
            self.inv(),
            address <= 0x40000,
        ensures
            b == self.byte_at(address),
    {
        let physical: u32 = if self.nmk_mode == 0 {
            self.bank + address
        } else {
            let slot = if address < 0x400 && self.nmk_mode & 0x80 != 0 {
                address >> 8
            } else {
                address >> 16
            };
            assert(slot & 3 < 4) by {
                lemma_u32(slot, 3);
            }
            ((self.nmk_banks[(slot & 3) as usize] as u32) << 16) | (address & 0xFFFF)
        };
        if (physical as usize) < self.rom.len() {
            Some(self.rom[physical as usize])
        } else {
            None
        }
    }

    /// The start and end of sample `index` from the table of contents, as
    /// eighteen-bit chip addresses. An entry that runs past the ROM, whose
    /// end does not follow its start, or whose end lies past the ROM is
    /// refused.
    pub open spec fn bounds_of(self, index: u8) -> Option<(u32, u32)> {
        let at = (index as u32 * 8) as u32;
        let b = |k: int| self.byte_at((at + k) as u32);
        if b(0) is None || b(1) is None || b(2) is None || b(3) is None || b(4) is None || b(
            5,
        ) is None {
            None
        } else {
            let start = read24(b(0)->0, b(1)->0, b(2)->0) & 0x3FFFF;
            let end = read24(b(3)->0, b(4)->0, b(5)->0) & 0x3FFFF;
            if start < end && self.byte_at(end) is Some {
                Some((start, end))
            } else {
                None
            }
        }
    }

    fn sample_bounds(&self, index: u8) -> (r: Option<(u32, u32)>)
        requires
            self.inv(),
        ensures
            r == self.bounds_of(index),
            r matches Some((s, e)) ==> s < e <= 0x3FFFF,
    {
        let at = index as u32 * 8;
        let b0 = match self.rom_byte(at) {
            Some(b) => b,
            None => return None,
        };
        let b1 = match self.rom_byte(at + 1) {
            Some(b) => b,
            None => return None,
        };
        let b2 = match self.rom_byte(at + 2) {
            Some(b) => b,
            None => return None,
        };
        let b3 = match self.rom_byte(at + 3) {
            Some(b) => b,
            None => return None,
        };
        let b4 = match self.rom_byte(at + 4) {
            Some(b) => b,
            None => return None,
        };
        let b5 = match self.rom_byte(at + 5) {
            Some(b) => b,
            None => return None,
        };
        let start = (((b0 as u32) << 16) | ((b1 as u32) << 8) | (b2 as u32)) & 0x3FFFF;
        let raw_end = ((b3 as u32) << 16) | ((b4 as u32) << 8) | (b5 as u32);
        let end = raw_end & 0x3FFFF;
        assert(raw_end & 0x3FFFF <= 0x3FFFF) by {
            lemma_u32(raw_end, 0x3FFFF);
        }
        if start < end && self.rom_byte(end).is_some() {
            Some((start, end))
        } else {
            None
        }
    }

    /// A write to the command port: a latch byte (bit 7, nothing latched)
    /// holds a sample number; the next byte's top nibble is a voice mask
    /// (voice 4 is bit 7) that starts the latched sample on the masked
    /// voices at the bottom nibble's volume, or stops them when nothing is
    /// latched.
    pub open spec fn commanded(self, value: u8) -> Okim6295 {
        if self.latched is None && value & 0x80 != 0 {
            Okim6295 { latched: Some(value & 0x7F), ..self }
        } else {
            let mask = value >> 4u8;
            let hit = |i: int| mask & ((1u8 << (i as u8)) as u8) != 0;
            match self.latched {
                Some(sample) => {
                    let bounds = self.bounds_of(sample);
                    let v = |i: int|
                        if hit(i) && bounds is Some {
                            self.voices[i].started(bounds.unwrap().0, bounds.unwrap().1, value & 0x0F)
                        } else {
                            self.voices[i]
                        };
                    Okim6295 { latched: None, voices: [v(0), v(1), v(2), v(3)], ..self }
                },
                None => {
                    let v = |i: int|
                        if hit(i) {
                            Voice { playing: false, ..self.voices[i] }
                        } else {
                            self.voices[i]
                        };
                    Okim6295 { voices: [v(0), v(1), v(2), v(3)], ..self }
                },
            }
        }
    }

    /// The chip after a write of `data` to register `addr & 0x7F`.
    pub open spec fn written(self, addr: u16, data: u16) -> Okim6295 {
        let value = (data & 0xFF) as u8;
        let r = addr & 0x7F;
        if r == 0x0F {
            Okim6295 { bank: (value as u32 * 0x40000) as u32, ..self }
        } else if r == 0x0E {
            Okim6295 { nmk_mode: value, ..self }
        } else if 0x10 <= r <= 0x13 {
            Okim6295 {
                nmk_banks: spec_array_update(self.nmk_banks, (addr & 0x03) as int, value),
                ..self
            }
        } else if r != 0 {
            self
        } else {
            self.commanded(value)
        }
    }

    fn command(&mut self, value: u8)
        requires
            old(self).inv(),
        ensures
            final(self).inv(),
            *final(self) == old(self).commanded(value),
    {
        if self.latched.is_none() && value & 0x80 != 0 {
            self.latched = Some(value & 0x7F);
            return;
        }
        let mask = value >> 4;
        let ghost before = *self;
        match self.latched {
            Some(sample) => {
                self.latched = None;
                let bounds = self.sample_bounds(sample);
                let mut index: usize = 0;
                while index < 4
                    invariant
                        index <= 4,
                        before.inv(),
                        before.latched == Some(sample),
                        bounds == before.bounds_of(sample),
                        bounds matches Some((s, e)) ==> s < e <= 0x3FFFF,
                        self.rate == before.rate,
                        self.rom == before.rom,
                        self.latched == None::<u8>,
                        self.bank == before.bank,
                        self.nmk_mode == before.nmk_mode,
                        self.nmk_banks == before.nmk_banks,
                        forall|i: int| index <= i < 4 ==> self.voices[i] == before.voices[i],
                        forall|i: int|
                            0 <= i < index ==> self.voices[i] == (if mask & ((1u8 << (
                            i as u8)) as u8) != 0 && bounds is Some {
                                before.voices[i].started(
                                    bounds.unwrap().0,
                                    bounds.unwrap().1,
                                    value & 0x0F,
                                )
                            } else {
                                before.voices[i]
                            }),
                        forall|i: int| 0 <= i < 4 ==> #[trigger] self.voices[i].inv(),
                    decreases 4 - index,
                {
                    if mask & (1u8 << (index as u8)) != 0 {
                        if let Some((start, end)) = bounds {
                            assert(self.voices[index as int].inv());
                            let mut v = self.voices[index];
                            v.playing = true;
                            v.adpcm.restart();
                            v.position = start;
                            v.end = end;
                            v.high_nibble = true;
                            assert(value & 0x0F < 16) by {
                                lemma_u8(value, 0x0F);
                            }
                            v.volume = (value & 0x0F) as usize;
                            assert(v.inv());
                            self.voices[index] = v;
                        }
                    }
                    assert forall|i: int| 0 <= i < 4 implies #[trigger] self.voices[i].inv() by {
                        if i != index {
                            assert(self.voices[i] == before.voices[i] || i < index);
                        }
                    }
                    index = index + 1;
                }
                assert(self.voices =~= before.commanded(value).voices);
            },
            None => {
                let mut index: usize = 0;
                while index < 4
                    invariant
                        index <= 4,
                        before.inv(),
                        before.latched == None::<u8>,
                        self.rate == before.rate,
                        self.rom == before.rom,
                        self.latched == None::<u8>,
                        self.bank == before.bank,
                        self.nmk_mode == before.nmk_mode,
                        self.nmk_banks == before.nmk_banks,
                        forall|i: int| index <= i < 4 ==> self.voices[i] == before.voices[i],
                        forall|i: int|
                            0 <= i < index ==> self.voices[i] == (if mask & ((1u8 << (
                            i as u8)) as u8) != 0 {
                                Voice { playing: false, ..before.voices[i] }
                            } else {
                                before.voices[i]
                            }),
                        forall|i: int| 0 <= i < 4 ==> #[trigger] self.voices[i].inv(),
                    decreases 4 - index,
                {
                    if mask & (1u8 << (index as u8)) != 0 {
                        assert(self.voices[index as int].inv());
                        let mut v = self.voices[index];
                        v.playing = false;
                        assert(v.inv());
                        self.voices[index] = v;
                    }
                    index = index + 1;
                }
                assert(self.voices =~= before.commanded(value).voices);
            },
        }
    }

    /// One voice one nibble later, and what it contributes to the mix: a
    /// voice whose byte lies past the ROM stops; two nibbles make a byte,
    /// high half first, and the voice stops once it steps past its end.
    pub open spec fn voice_stepped(self, v: Voice) -> (Voice, i32) {
        if !v.playing {
            (v, 0)
        } else {
            match self.byte_at(v.position) {
                None => (Voice { playing: false, ..v }, 0),
                Some(byte) => {
                    let nibble = if v.high_nibble {
                        byte >> 4u8
                    } else {
                        byte & 0x0F
                    };
                    let adpcm = v.adpcm.decoded(nibble);
                    let level = voice_level(adpcm.signal, v.volume as int);
                    if v.high_nibble {
                        (Voice { adpcm: adpcm, high_nibble: false, ..v }, level)
                    } else {
                        let position = (v.position + 1) as u32;
                        (
                            Voice {
                                adpcm: adpcm,
                                high_nibble: true,
                                position: position,
                                playing: !(position > v.end),
                                ..v
                            },
                            level,
                        )
                    }
                },
            }
        }
    }

    fn step_voice(&self, v: Voice) -> (r: (Voice, i32))
        requires
            self.inv(),
            v.inv(),
        ensures
            r == self.voice_stepped(v),
            r.0.inv(),
            -6000 <= r.1 <= 6000,
    {
        if !v.playing {
            return (v, 0);
        }
        let byte = match self.rom_byte(v.position) {
            Some(b) => b,
            None => {
                let mut stopped = v;
                stopped.playing = false;
                return (stopped, 0);
            },
        };
        let mut voice = v;
        let nibble = if voice.high_nibble {
            byte >> 4
        } else {
            byte & 0x0F
        };
        let signal = voice.adpcm.decode(nibble);
        if voice.high_nibble {
            voice.high_nibble = false;
        } else {
            voice.high_nibble = true;
            voice.position = voice.position + 1;
            if voice.position > voice.end {
                voice.playing = false;
            }
        }
        (voice, level(signal, voice.volume))
    }

    /// The chip one frame later: each voice decodes one nibble.
    pub open spec fn ticked(self) -> Okim6295 {
        let v = |i: int| self.voice_stepped(self.voices[i]).0;
        Okim6295 { voices: [v(0), v(1), v(2), v(3)], ..self }
    }

    /// The mono mix of the frame: the four voices' levels summed.
    pub open spec fn mixed(self) -> i32 {
        let l = |i: int| self.voice_stepped(self.voices[i]).1 as int;
        (l(0) + l(1) + l(2) + l(3)) as i32
    }
}

impl ChipState for Okim6295 {
    open spec fn inv(&self) -> bool {
        Okim6295::inv(*self)
    }

    open spec fn stepped(&self) -> Okim6295 {
        self.ticked()
    }

    open spec fn frame(&self) -> (i32, i32) {
        (self.mixed(), self.mixed())
    }

    fn next_frame(&mut self) -> (f: (i32, i32)) {
        let (v0, l0) = self.step_voice(self.voices[0]);
        let (v1, l1) = self.step_voice(self.voices[1]);
        let (v2, l2) = self.step_voice(self.voices[2]);
        let (v3, l3) = self.step_voice(self.voices[3]);
        self.voices = [v0, v1, v2, v3];
        let sum = l0 + l1 + l2 + l3;
        (sum, sum)
    }
}

/// The bit of a command byte that selects voice `i`: bits 4 to 7 for
/// voices 0 to 3.
pub open spec fn voice_select_bit(i: int) -> u8 {
    if i == 0 {
        0x10
    } else if i == 1 {
        0x20
    } else if i == 2 {
        0x40
    } else {
        0x80
    }
}

/// The command byte's high nibble, as the chip reads it bit by bit.
proof fn lemma_voice_select_bits(v: u8)
    by (bit_vector)
    ensures
        ((v >> 4u8) & (1u8 << 0u8) != 0) == (v & 0x10 != 0),
        ((v >> 4u8) & (1u8 << 1u8) != 0) == (v & 0x20 != 0),
        ((v >> 4u8) & (1u8 << 2u8) != 0) == (v & 0x40 != 0),
        ((v >> 4u8) & (1u8 << 3u8) != 0) == (v & 0x80 != 0),
        v & 0x0F == v % 16,
{
}

/// What a command byte `m|a` does after a latch byte: each voice whose bit
/// `m` sets starts the latched sample from its start, at volume code `a`
/// (the byte's low nibble), when the sample's bounds are valid; every other
/// voice is left as it was; and the latch is spent.
pub proof fn lemma_command_starts_selected_voices(chip: Okim6295, value: u8, i: int)
    requires
        chip.latched is Some,
        0 <= i < 4,
    ensures
        chip.commanded(value).latched is None,
        value & voice_select_bit(i) != 0 && chip.bounds_of(chip.latched->Some_0) is Some ==> {
            let v = chip.commanded(value).voices[i];
            let (start, end) = chip.bounds_of(chip.latched->Some_0)->Some_0;
            &&& v.playing
            &&& v.volume == value % 16
            &&& v.position == start
            &&& v.end == end
            &&& v.high_nibble
        },
        value & voice_select_bit(i) == 0 || chip.bounds_of(chip.latched->Some_0) is None
            ==> chip.commanded(value).voices[i] == chip.voices[i],
{
    lemma_voice_select_bits(value);
    assert((0int as u8) == 0u8 && (1int as u8) == 1u8 && (2int as u8) == 2u8 && (3int as u8)
        == 3u8);
}

/// A voice's level is its scaled signal times `VOLUME[a] / 65536`, rounded
/// down: full scale at code 0, and silence at the top codes 13 to 15.
pub proof fn lemma_volume_scales_the_level(signal: i32, a: int)
    requires
        -2048 <= signal <= 2047,
        0 <= a < 16,
    ensures
        voice_level(signal, a) == (div_trunc(signal * PEAK, 2048) * volume_gain(a)) / 65536,
        a == 0 ==> voice_level(signal, a) == div_trunc(signal * PEAK, 2048),
        a >= 13 ==> voice_level(signal, a) == 0,
{
    lemma_tables_bounded();
    let scaled = div_trunc(signal * PEAK, 2048);
    assert(-6000 <= scaled <= 6000) by (nonlinear_arith)
        requires
            -2048 <= signal <= 2047,
            scaled == div_trunc(signal * 6000, 2048),
    ;
    let g = volume_gain(a);
    assert(-6000 * 65536 <= scaled * g <= 6000 * 65536) by (nonlinear_arith)
        requires
            -6000 <= scaled <= 6000,
            0 <= g <= 65536,
    ;
    let x = ((scaled as i32) * g) as i32;
    assert(x == scaled * g);
    lemma_i32_shr(x);
    assert(voice_level(signal, a) == x >> 16u32);
    assert(a == 0 ==> g == 65536);
    if a >= 13 {
        assert(g == 0);
        assert(scaled * g == 0) by (nonlinear_arith)
            requires
                g == 0,
        ;
    }
}

impl ChipCore for Okim6295 {
    /// The divider is pin-selected: `variant` (the header's bit 31, pin 7)
    /// high selects divide-by-132, low divide-by-165. The ROM survives.
    fn reset(&mut self, clock: u32, variant: bool)
        ensures
            *final(self) == Okim6295::powered(
                ({
                    let r = clock / (if variant { 132u32 } else { 165u32 });
                    if r > 1 { r } else { 1 }
                }),
                old(self).rom,
            ),
    {
        let mut rom: Vec<u8> = Vec::new();
        std::mem::swap(&mut rom, &mut self.rom);
        let divider: u32 = if variant { 132 } else { 165 };
        let rate = clock / divider;
        *self = Self::power_on(if rate > 1 { rate } else { 1 }, rom);
    }

    fn native_rate(&self) -> (rate: u32)
        ensures
            rate == self.rate,
    {
        self.rate
    }

    fn write(&mut self, port: u8, addr: u16, data: u16)
        ensures
            *final(self) == old(self).written(addr, data),
    {
        let value = (data & 0xFF) as u8;
        let r = addr & 0x7F;
        if r == 0x0F {
            self.bank = value as u32 * 0x40000;
        } else if r == 0x0E {
            self.nmk_mode = value;
        } else if 0x10 <= r && r <= 0x13 {
            assert(addr & 0x03 < 4) by {
                lemma_u16(addr, 0x03);
            }
            self.nmk_banks[(addr & 0x03) as usize] = value;
        } else if r == 0 {
            self.command(value);
        }
    }

    /// The sample ROM, delivered as a data block.
    fn load_rom(&mut self, block_type: u8, total_size: u32, start: u32, data: &[u8])
        ensures
            final(self).rom@ == image_loaded(old(self).rom@, total_size as nat, start as nat, data@),
            final(self).voices == old(self).voices,
            final(self).rate == old(self).rate,
            final(self).latched == old(self).latched,
            final(self).bank == old(self).bank,
            final(self).nmk_mode == old(self).nmk_mode,
            final(self).nmk_banks == old(self).nmk_banks,
    {
        load_image(&mut self.rom, total_size, start, data);
    }
}

/// The OKIM6258: the same codec with no ROM and no voices, fed a byte at a
/// time.
#[derive(Debug)]
pub struct Okim6258 {
    pub rate: u32,
    /// Kept so `configure` can recompute the rate: the divider arrives after
    /// the reset that carries the clock.
    pub clock: u32,
    pub adpcm: Adpcm,
    /// The most recent decoded level, held between nibbles.
    pub level: i32,
    /// The low nibble of the byte just written, still to be decoded.
    pub pending: Option<u8>,
    pub playing: bool,
}

impl Okim6258 {
    pub open spec fn powered(rate: u32, clock: u32) -> Okim6258 {
        Okim6258 {
            rate: rate,
            clock: clock,
            adpcm: Adpcm { signal: 0, step: 0 },
            level: 0,
            pending: None,
            playing: false,
        }
    }

    /// A chip with no clock yet; `reset` gives it one.
    pub fn new() -> (chip: Okim6258)
        ensures
            chip == Okim6258::powered(8_000, 0),
            chip.inv(),
    {
        Okim6258 {
            rate: 8_000,
            clock: 0,
            adpcm: Adpcm::new(),
            level: 0,
            pending: None,
            playing: false,
        }
    }

    pub open spec fn inv(self) -> bool {
        &&& self.adpcm.inv()
        &&& -2048 <= self.level <= 2047
    }

    /// The control register: bit 0 stops (and wins), resetting the codec;
    /// bit 1 plays, resetting the codec if it was stopped. The data port
    /// decodes the high nibble now and holds the low one for the next frame.
    pub open spec fn written(self, addr: u16, data: u16) -> Okim6258 {
        let value = (data & 0xFF) as u8;
        let r = addr & 0xFF;
        let silent = Adpcm { signal: 0, step: 0 };
        if r == 0x00 {
            if value & 0x01 != 0 {
                Okim6258 { playing: false, adpcm: silent, level: 0, pending: None, ..self }
            } else if value & 0x02 != 0 {
                if !self.playing {
                    Okim6258 { playing: true, adpcm: silent, level: 0, pending: None, ..self }
                } else {
                    Okim6258 { playing: true, ..self }
                }
            } else {
                self
            }
        } else if r == 0x01 {
            let adpcm = self.adpcm.decoded(value >> 4u8);
            Okim6258 { adpcm: adpcm, level: adpcm.signal, pending: Some(value & 0x0F), ..self }
        } else {
            self
        }
    }

    /// The chip one frame later: a held nibble is decoded.
    pub open spec fn ticked(self) -> Okim6258 {
        match self.pending {
            Some(nibble) => {
                let adpcm = self.adpcm.decoded(nibble);
                Okim6258 { adpcm: adpcm, level: adpcm.signal, pending: None, ..self }
            },
            None => self,
        }
    }

    /// The held level scaled to the peak while playing; silence otherwise.
    pub open spec fn sample_now(self) -> i32 {
        if self.playing {
            div_trunc(self.level * PEAK, 2048) as i32
        } else {
            0
        }
    }
}

impl ChipState for Okim6258 {
    open spec fn inv(&self) -> bool {
        Okim6258::inv(*self)
    }

    open spec fn stepped(&self) -> Okim6258 {
        self.ticked()
    }

    open spec fn frame(&self) -> (i32, i32) {
        (self.ticked().sample_now(), self.ticked().sample_now())
    }

    fn next_frame(&mut self) -> (f: (i32, i32)) {
        if let Some(nibble) = self.pending {
            self.level = self.adpcm.decode(nibble);
            self.pending = None;
        }
        let sample = if self.playing {
            assert(-6000 <= self.level * 6000 / 2048 <= 6000) by (nonlinear_arith)
                requires
                    -2048 <= self.level <= 2047,
            ;
            self.level * PEAK / 2048
        } else {
            0
        };
        (sample, sample)
    }
}

impl ChipCore for Okim6258 {
    /// The divider arrives separately, in the header's flags; until it does
    /// the documented default of 512 stands.
    fn reset(&mut self, clock: u32, variant: bool)
        ensures
            *final(self) == Okim6258::powered(if clock / 512 > 1 { clock / 512 } else { 1 }, clock),
    {
        let rate = clock / 512;
        *self = Okim6258 {
            rate: if rate > 1 { rate } else { 1 },
            clock: clock,
            adpcm: Adpcm::new(),
            level: 0,
            pending: None,
            playing: false,
        };
    }

    /// The header's flags: bits 0-1 select the divider, 1024, 768 or 512.
    fn configure(&mut self, settings: &ChipSettings)
        ensures
            final(self).rate == ({
                let d: u32 = if settings.okim6258_flags & 0x03 == 0 {
                    1024
                } else if settings.okim6258_flags & 0x03 == 1 {
                    768
                } else {
                    512
                };
                let r = old(self).clock / d;
                if r > 1 { r } else { 1 }
            }),
            *final(self) == (Okim6258 { rate: final(self).rate, ..*old(self) }),
    {
        let divider: u32 = if settings.okim6258_flags & 0x03 == 0 {
            1024
        } else if settings.okim6258_flags & 0x03 == 1 {
            768
        } else {
            512
        };
        let rate = self.clock / divider;
        self.rate = if rate > 1 { rate } else { 1 };
    }

    fn native_rate(&self) -> (rate: u32)
        ensures
            rate == self.rate,
    {
        self.rate
    }

    fn write(&mut self, port: u8, addr: u16, data: u16)
        ensures
            *final(self) == old(self).written(addr, data),
    {
        let value = (data & 0xFF) as u8;
        let r = addr & 0xFF;
        if r == 0x00 {
            if value & 0x01 != 0 {
                self.playing = false;
                self.adpcm.restart();
                self.level = 0;
                self.pending = None;
            } else if value & 0x02 != 0 {
                if !self.playing {
                    self.adpcm.restart();
                    self.level = 0;
                    self.pending = None;
                }
                self.playing = true;
            }
        } else if r == 0x01 {
            self.level = self.adpcm.decode(value >> 4);
            self.pending = Some(value & 0x0F);
        }
    }
}

} // verus!
