//! The Seta X1-010: sixteen channels that are each either a PCM sampler or a
//! wavetable voice with a RAM envelope.
//!
//! The chip's address space *is* its sound RAM: the sixteen 8-byte channel
//! files at `0x0000`, the 128-byte envelope tables from `0x0080`, and the
//! 128-byte waveforms from `0x1000`, all written through the same command.
//! A channel's registers mean different things per mode: in PCM, volume
//! nibbles / rate / start page / end-page complement; in wavetable,
//! waveform number / 13-bit pitch / envelope time / envelope number.
//!
//! The envelope walks its table at a linear rate derived from the time
//! register, and the two spare per-channel registers are ignored.

use vstd::prelude::*;
use crate::bits::{lemma_u16, lemma_u32, lemma_u64, lemma_u8};

use crate::chip::{image_loaded, load_image, ChipCore, ChipState};
use vstd::array::{spec_array_fill_for_copy_type, spec_array_update};

verus! {

/// One frame per 512 clocks: 31.25 kHz at the usual 16 MHz.
pub const CLOCK_DIVIDER: u32 = 512;

/// `a + b` wrapped to 64 bits.
pub open spec fn wrapped64(a: u64, b: u64) -> u64 {
    if a + b > u64::MAX {
        (a + b - 0x1_0000_0000_0000_0000) as u64
    } else {
        (a + b) as u64
    }
}

/// `a + b` wrapped to 32 bits.
pub open spec fn wrapped(a: u32, b: u32) -> u32 {
    if a + b > u32::MAX {
        (a + b - 0x1_0000_0000) as u32
    } else {
        (a + b) as u32
    }
}

/// The X1-010.
#[derive(Debug)]
pub struct X1010 {
    pub rate: u32,
    /// The whole 8 KiB sound-RAM image: channel files, envelopes, waves.
    pub ram: [u8; 0x2000],
    /// Per-channel playback state the RAM does not carry.
    pub position: [u64; 16],
    pub env_position: [u32; 16],
    pub keyed: [bool; 16],
    pub rom: Vec<u8>,
}

impl X1010 {
    pub open spec fn cleared(rate: u32, rom: Vec<u8>) -> X1010 {
        X1010 {
            rate,
            ram: spec_array_fill_for_copy_type(0u8),
            position: spec_array_fill_for_copy_type(0u64),
            env_position: spec_array_fill_for_copy_type(0u32),
            keyed: spec_array_fill_for_copy_type(false),
            rom,
        }
    }

    fn clear(rate: u32, rom: Vec<u8>) -> (chip: X1010)
        ensures
            chip == X1010::cleared(rate, rom),
    {
        X1010 {
            rate,
            ram: [0u8; 0x2000],
            position: [0u64; 16],
            env_position: [0u32; 16],
            keyed: [false; 16],
            rom,
        }
    }

    /// A chip with no clock yet and no ROM.
    pub fn new() -> (chip: X1010)
        ensures
            chip == X1010::cleared(31_250, chip.rom),
            chip.rom@.len() == 0,
    {
        Self::clear(31_250, Vec::new())
    }

    /// Register `offset` of channel `ch`.
    pub open spec fn reg(self, ch: int, offset: int) -> u8 {
        self.ram[ch * 8 + offset]
    }

    /// Channel `ch` one frame on, and its `(left, right)`.
    ///
    /// Wavetable mode (control bit 1) steps through a RAM waveform at the
    /// 13-bit pitch and scales it by a RAM envelope walked at the time
    /// register's rate. PCM mode steps through the ROM from the start page
    /// at the rate register's 1/256ths of a byte; reaching the end page
    /// clears the channel's key (in its control byte too), and a read past
    /// the ROM stops it.
    pub open spec fn channel_step(self, ch: int) -> (X1010, (int, int)) {
        if !self.keyed[ch] {
            (self, (0, 0))
        } else if self.reg(ch, 0) & 0x02 != 0 {
            let pitch = (((self.reg(ch, 3) & 0x1F) as u32) << 8u32) | (self.reg(ch, 2) as u32);
            let pos = wrapped64(self.position[ch], (pitch as u64) << 6u64);
            let index = ((pos >> 16u64) & 0x7F) as int;
            let sample = (self.ram[0x1000 + (self.reg(ch, 1) & 0x1F) * 0x80 + index] as i8) as int;
            let step: u32 = if self.reg(ch, 4) > 1 { self.reg(ch, 4) as u32 } else { 1 };
            let env_pos = wrapped(self.env_position[ch], step);
            let env = self.ram[(self.reg(ch, 5) & 0x1F) * 0x80 + ((env_pos >> 9u32) & 0x7F) as int];
            (
                X1010 {
                    position: spec_array_update(self.position, ch, pos),
                    env_position: spec_array_update(self.env_position, ch, env_pos),
                    ..self
                },
                (sample * (env >> 4u8) * 4, sample * (env & 0x0F) * 4),
            )
        } else {
            let start = (self.reg(ch, 4) as int) * 4096;
            let end = (0x100 - self.reg(ch, 5)) * 4096;
            let pos = wrapped64(self.position[ch], ((self.reg(ch, 2) as u64) << 8u64) as u64);
            let moved = X1010 { position: spec_array_update(self.position, ch, pos), ..self };
            let at = start + (pos >> 16u64);
            if at >= end {
                (
                    X1010 {
                        keyed: spec_array_update(self.keyed, ch, false),
                        ram: spec_array_update(self.ram, ch * 8, self.ram[ch * 8] & !0x01u8),
                        ..moved
                    },
                    (0, 0),
                )
            } else if at >= self.rom@.len() {
                (X1010 { keyed: spec_array_update(self.keyed, ch, false), ..moved }, (0, 0))
            } else {
                let sample = (self.rom@[at] as i8) as int;
                let volume = self.reg(ch, 1);
                (moved, (sample * (volume >> 4u8) * 4, sample * (volume & 0x0F) * 4))
            }
        }
    }

    /// The first `n` channels run in order, and their summed output.
    pub open spec fn run(self, n: int) -> (X1010, (int, int))
        decreases n,
    {
        if n <= 0 {
            (self, (0, 0))
        } else {
            let (s, (l, r)) = self.run(n - 1);
            let (t, (a, b)) = s.channel_step(n - 1);
            (t, (l + a, r + b))
        }
    }

    fn channel(&mut self, ch: usize) -> (o: (i32, i32))
        requires
            ch < 16,
        ensures
            (*final(self), (o.0 as int, o.1 as int)) == old(self).channel_step(ch as int),
            -7680 <= o.0 <= 7680,
            -7680 <= o.1 <= 7680,
    {
        if !self.keyed[ch] {
            return (0, 0);
        }
        let base = ch * 8;
        let control = self.ram[base];
        if control & 0x02 != 0 {
            let r1 = self.ram[base + 1];
            let r2 = self.ram[base + 2];
            let r3 = self.ram[base + 3];
            let r4 = self.ram[base + 4];
            let r5 = self.ram[base + 5];
            let pitch = (((r3 & 0x1F) as u32) << 8) | (r2 as u32);
            assert(pitch <= 0x1FFF) by {
                lemma_u8(r3, 0x1F);
                lemma_u32((r3 & 0x1F) as u32, 0);
                lemma_u32(((r3 & 0x1F) as u32) << 8u32, r2 as u32);
            }
            self.position[ch] = self.position[ch].wrapping_add((pitch as u64) << 6);
            let pos = self.position[ch];
            assert((pos >> 16u64) & 0x7F < 128 && r1 & 0x1F < 32 && r5 & 0x1F < 32) by {
                lemma_u64(pos >> 16u64, 0x7F);
                lemma_u8(r1, 0x1F);
                lemma_u8(r5, 0x1F);
            }
            let index = ((self.position[ch] >> 16) & 0x7F) as usize;
            let sample = self.ram[0x1000 + ((r1 & 0x1F) as usize) * 0x80 + index] as i8 as i32;
            let step: u32 = if r4 > 1 { r4 as u32 } else { 1 };
            self.env_position[ch] = self.env_position[ch].wrapping_add(step);
            let ep = self.env_position[ch];
            assert((ep >> 9u32) & 0x7F < 128) by {
                lemma_u32(ep >> 9u32, 0x7F);
            }
            let env = self.ram[((r5 & 0x1F) as usize) * 0x80 + ((self.env_position[ch] >> 9) & 0x7F) as usize];
            assert(env >> 4u8 <= 15 && env & 0x0F <= 15) by {
                lemma_u8(env, 0x0F);
            }
            let el = (env >> 4) as i32;
            let er = (env & 0x0F) as i32;
            assert(-7680 <= sample * el * 4 <= 7680 && -7680 <= sample * er * 4 <= 7680) by (nonlinear_arith)
                requires
                    -128 <= sample <= 127,
                    0 <= el <= 15,
                    0 <= er <= 15,
            ;
            assert(self.position =~= spec_array_update(old(self).position, ch as int, pos));
            assert(self.env_position =~= spec_array_update(old(self).env_position, ch as int, ep));
            (sample * el * 4, sample * er * 4)
        } else {
            let r4 = self.ram[base + 4] as u64;
            let r5c = 0x100 - self.ram[base + 5] as u64;
            assert(r4 << 12u64 == r4 * 4096 && r5c << 12u64 == r5c * 4096) by {
                lemma_u64(r4, 0);
                lemma_u64(r5c, 0);
            }
            let start = r4 << 12;
            let end = r5c << 12;
            self.position[ch] = self.position[ch].wrapping_add((self.ram[base + 2] as u64) << 8);
            let pos = self.position[ch];
            assert(pos >> 16u64 <= 0xFFFF_FFFF_FFFF) by {
                lemma_u64(pos, 0);
            }
            let at = start + (self.position[ch] >> 16);
            assert(self.position =~= spec_array_update(old(self).position, ch as int, pos));
            if at >= end {
                self.keyed[ch] = false;
                self.ram[base] = self.ram[base] & !0x01u8;
                assert(self.keyed =~= spec_array_update(old(self).keyed, ch as int, false));
                assert(self.ram =~= spec_array_update(old(self).ram, ch as int * 8, old(self).ram[ch as int * 8] & !0x01u8));
                return (0, 0);
            }
            if at >= self.rom.len() as u64 {
                self.keyed[ch] = false;
                assert(self.keyed =~= spec_array_update(old(self).keyed, ch as int, false));
                return (0, 0);
            }
            let sample = self.rom[at as usize] as i8 as i32;
            let volume = self.ram[base + 1];
            assert(volume >> 4u8 <= 15 && volume & 0x0F <= 15) by {
                lemma_u8(volume, 0x0F);
            }
            let vl = (volume >> 4) as i32;
            let vr = (volume & 0x0F) as i32;
            assert(-7680 <= sample * vl * 4 <= 7680 && -7680 <= sample * vr * 4 <= 7680) by (nonlinear_arith)
                requires
                    -128 <= sample <= 127,
                    0 <= vl <= 15,
                    0 <= vr <= 15,
            ;
            (sample * vl * 4, sample * vr * 4)
        }
    }

    fn tick(&mut self) -> (o: (i32, i32))
        ensures
            *final(self) == old(self).run(16).0,
            o.0 == old(self).run(16).1.0,
            o.1 == old(self).run(16).1.1,
    {
        let ghost start = *self;
        let mut left: i32 = 0;
        let mut right: i32 = 0;
        let mut ch: usize = 0;
        while ch < 16
            invariant
                ch <= 16,
                (*self, (left as int, right as int)) == start.run(ch as int),
                -7680 * ch <= left <= 7680 * ch,
                -7680 * ch <= right <= 7680 * ch,
            decreases 16 - ch,
        {
            let (l, r) = self.channel(ch);
            left = left + l;
            right = right + r;
            ch = ch + 1;
        }
        (left, right)
    }

    /// The chip after byte `d` lands at RAM address `at`: a control byte's
    /// key bit, on a rising edge, also restarts its channel.
    pub open spec fn ram_set(self, at: int, d: u8) -> X1010 {
        let s = if at < 0x80 && at % 8 == 0 {
            let ch = at / 8;
            let now = d & 0x01 != 0;
            if now && !self.keyed[ch] {
                X1010 {
                    position: spec_array_update(self.position, ch, 0),
                    env_position: spec_array_update(self.env_position, ch, 0),
                    keyed: spec_array_update(self.keyed, ch, now),
                    ..self
                }
            } else {
                X1010 { keyed: spec_array_update(self.keyed, ch, now), ..self }
            }
        } else {
            self
        };
        X1010 { ram: spec_array_update(s.ram, at, d), ..s }
    }
}

impl Default for X1010 {
    fn default() -> (chip: X1010)
        ensures
            chip == X1010::cleared(31_250, chip.rom),
            chip.rom@.len() == 0,
    {
        Self::new()
    }
}

impl ChipState for X1010 {
    open spec fn inv(&self) -> bool {
        true
    }

    open spec fn stepped(&self) -> X1010 {
        self.run(16).0
    }

    open spec fn frame(&self) -> (i32, i32) {
        (self.run(16).1.0 as i32, self.run(16).1.1 as i32)
    }

    fn next_frame(&mut self) -> (f: (i32, i32)) {
        self.tick()
    }
}

impl ChipCore for X1010 {
    /// The ROM survives; the sound RAM is cleared.
    fn reset(&mut self, clock: u32, variant: bool)
        ensures
            *final(self) == X1010::cleared(
                if clock / CLOCK_DIVIDER > 1 { clock / CLOCK_DIVIDER } else { 1 },
                old(self).rom,
            ),
    {
        let mut rom: Vec<u8> = Vec::new();
        std::mem::swap(&mut rom, &mut self.rom);
        let rate = clock / CLOCK_DIVIDER;
        *self = Self::clear(if rate > 1 { rate } else { 1 }, rom);
    }

    fn native_rate(&self) -> (rate: u32)
        ensures
            rate == self.rate,
    {
        self.rate
    }

    /// Every write is a sound-RAM write.
    fn write(&mut self, port: u8, addr: u16, data: u16)
        ensures
            *final(self) == old(self).ram_set((addr & 0x1FFF) as int, (data & 0xFF) as u8),
    {
        assert(addr & 0x1FFF < 0x2000) by {
            lemma_u16(addr, 0x1FFF);
        }
        let at = (addr & 0x1FFF) as usize;
        let d = (data & 0xFF) as u8;
        if at < 0x80 && at % 8 == 0 {
            let ch = at / 8;
            let now = d & 0x01 != 0;
            if now && !self.keyed[ch] {
                self.position[ch] = 0;
                self.env_position[ch] = 0;
            }
            self.keyed[ch] = now;
        }
        self.ram[at] = d;
        assert(self.ram =~= old(self).ram_set(at as int, d).ram);
        assert(self.keyed =~= old(self).ram_set(at as int, d).keyed);
        assert(self.position =~= old(self).ram_set(at as int, d).position);
        assert(self.env_position =~= old(self).ram_set(at as int, d).env_position);
    }

    /// The PCM sample ROM.
    fn load_rom(&mut self, block_type: u8, total_size: u32, start: u32, data: &[u8])
        ensures
            final(self).rom@ == image_loaded(old(self).rom@, total_size as nat, start as nat, data@),
            *final(self) == (X1010 { rom: final(self).rom, ..*old(self) }),
    {
        load_image(&mut self.rom, total_size, start, data);
    }
}

} // verus!
