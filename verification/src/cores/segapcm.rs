//! The Sega PCM (315-5218): sixteen channels of 8-bit PCM on Sega's Super
//! Scaler boards.
//!
//! The chip's register file is a 256-byte RAM the driver writes directly,
//! and this core keeps it that way: writes land in the RAM, and the sixteen
//! channels are read out of it each frame. Addresses are 16.8 fixed point
//! (the fraction lives in a hidden per-channel latch), the end is a page
//! compare, and the bank register is folded through the header's interface
//! word (shift and mask). A bank shift of 32 or more is taken modulo 32.

use vstd::prelude::*;
use crate::bits::{lemma_i32_shr, lemma_u16, lemma_u32};

use crate::chip::{image_loaded, load_image, ChipCore, ChipSettings, ChipState};
use vstd::array::{spec_array_fill_for_copy_type, spec_array_update};

verus! {

/// One frame per 128 clocks: 31.25 kHz at the usual 4 MHz.
pub const CLOCK_DIVIDER: u32 = 128;

/// The Sega PCM.
#[derive(Debug)]
pub struct SegaPcm {
    pub rate: u32,
    /// The register RAM, as the driver sees it.
    pub ram: [u8; 0x100],
    /// The hidden low byte of each channel's 16.8 address.
    pub fraction: [u8; 16],
    pub rom: Vec<u8>,
    pub bank_shift: u32,
    pub bank_mask: u32,
}

impl SegaPcm {
    pub open spec fn cleared(rate: u32, rom: Vec<u8>, bank_shift: u32, bank_mask: u32) -> SegaPcm {
        SegaPcm {
            rate,
            ram: spec_array_fill_for_copy_type(0xFFu8),
            fraction: spec_array_fill_for_copy_type(0u8),
            rom,
            bank_shift,
            bank_mask,
        }
    }

    fn clear(rate: u32, rom: Vec<u8>, bank_shift: u32, bank_mask: u32) -> (chip: SegaPcm)
        ensures
            chip == SegaPcm::cleared(rate, rom, bank_shift, bank_mask),
    {
        SegaPcm { rate, ram: [0xFFu8; 0x100], fraction: [0u8; 16], rom, bank_shift, bank_mask }
    }

    /// A chip with no clock yet, no ROM, and every channel stopped.
    pub fn new() -> (chip: SegaPcm)
        ensures
            chip == SegaPcm::cleared(31_250, chip.rom, 12, 0x70),
            chip.rom@.len() == 0,
    {
        Self::clear(31_250, Vec::new(), 12, 0x70)
    }

    /// Register `offset` of channel `ch`.
    pub open spec fn reg(self, ch: int, offset: int) -> u32 {
        self.ram[8 * ch + offset] as u32
    }

    /// Channel `ch` one frame on, and its `(left, right)`. A set stop bit
    /// (flags bit 0) keeps it silent. At its end page a one-shot (flags
    /// bit 1) sets its own stop bit and a looping channel jumps to its loop
    /// address; a read past the ROM stops it too.
    pub open spec fn channel_step(self, ch: int) -> (SegaPcm, (int, int)) {
        let flags = self.reg(ch, 0x86);
        let stop = SegaPcm {
            ram: spec_array_update(self.ram, 8 * ch + 0x86, self.ram[8 * ch + 0x86] | 1),
            ..self
        };
        if flags & 1 != 0 {
            (self, (0, 0))
        } else {
            let addr0 = (self.reg(ch, 0x85) << 16u32) | (self.reg(ch, 0x84) << 8u32) | (self.fraction[ch] as u32);
            let at_end = addr0 >> 16u32 == self.reg(ch, 0x06) + 1;
            if at_end && flags & 2 != 0 {
                (stop, (0, 0))
            } else {
                let addr = if at_end {
                    (self.reg(ch, 0x05) << 16u32) | (self.reg(ch, 0x04) << 8u32)
                } else {
                    addr0
                };
                let bank = ((flags & self.bank_mask) >> 4u32) << (self.bank_shift & 31);
                let at = bank + (addr >> 8u32);
                if at >= self.rom@.len() {
                    (stop, (0, 0))
                } else {
                    let value = (self.rom@[at] as i8) as int;
                    let next = ((addr + self.reg(ch, 0x07)) as u32) & 0x00FF_FFFF;
                    let r1 = spec_array_update(self.ram, 8 * ch + 0x84, ((next >> 8u32) & 0xFF) as u8);
                    let r2 = spec_array_update(r1, 8 * ch + 0x85, ((next >> 16u32) & 0xFF) as u8);
                    (
                        SegaPcm {
                            fraction: spec_array_update(self.fraction, ch, (next & 0xFF) as u8),
                            ram: r2,
                            ..self
                        },
                        (
                            ((value * self.reg(ch, 0x02)) as i32 >> 4i32) as int,
                            ((value * self.reg(ch, 0x03)) as i32 >> 4i32) as int,
                        ),
                    )
                }
            }
        }
    }

    /// The first `n` channels run in order, and their summed output.
    pub open spec fn run(self, n: int) -> (SegaPcm, (int, int))
        decreases n,
    {
        if n <= 0 {
            (self, (0, 0))
        } else {
            let (s, (l, r)) = self.run(n - 1);
            let (t, (a, b)) = s.channel_step(n - 1);
            (t, (l + a, r + b))
        }
    }

    fn channel(&mut self, ch: usize) -> (o: (i32, i32))
        requires
            ch < 16,
        ensures
            (*final(self), (o.0 as int, o.1 as int)) == old(self).channel_step(ch as int),
            -2040 <= o.0 <= 2040,
            -2040 <= o.1 <= 2040,
    {
        let base = 8 * ch;
        let flags = self.ram[base + 0x86] as u32;
        if flags & 1 != 0 {
            return (0, 0);
        }
        let b85 = self.ram[base + 0x85] as u32;
        let b84 = self.ram[base + 0x84] as u32;
        let fr = self.fraction[ch] as u32;
        let b05 = self.ram[base + 0x05] as u32;
        let b04 = self.ram[base + 0x04] as u32;
        assert((b85 << 16u32) | (b84 << 8u32) | fr <= 0xFF_FFFF && (b05 << 16u32) | (b04 << 8u32)
            <= 0xFF_FFFF) by {
            lemma_u32(b85, 0);
            lemma_u32(b84, 0);
            lemma_u32(b05, 0);
            lemma_u32(b04, 0);
            lemma_u32(b85 << 16u32, b84 << 8u32);
            lemma_u32((b85 << 16u32) | (b84 << 8u32), fr);
            lemma_u32(b05 << 16u32, b04 << 8u32);
        }
        let mut addr = (b85 << 16) | (b84 << 8) | fr;
        let loop_addr = (b05 << 16) | (b04 << 8);
        let end_page = self.ram[base + 0x06] as u32 + 1;
        if addr >> 16 == end_page {
            if flags & 2 != 0 {
                self.ram[base + 0x86] = self.ram[base + 0x86] | 1;
                return (0, 0);
            }
            addr = loop_addr;
        }
        let bs = self.bank_shift;
        let shift = bs & 31;
        assert(shift < 32) by {
            lemma_u32(bs, 31);
        }
        let bank = ((flags & self.bank_mask) >> 4) << shift;
        let at = bank as u64 + (addr >> 8) as u64;
        if at >= self.rom.len() as u64 {
            self.ram[base + 0x86] = self.ram[base + 0x86] | 1;
            return (0, 0);
        }
        let value = self.rom[at as usize] as i8 as i32;
        let vl = self.ram[base + 0x02] as i32;
        let vr = self.ram[base + 0x03] as i32;
        assert(-128 * 255 <= value * vl <= 127 * 255 && -128 * 255 <= value * vr <= 127 * 255) by (nonlinear_arith)
            requires
                -128 <= value <= 127,
                0 <= vl <= 255,
                0 <= vr <= 255,
        ;
        let xl = value * vl;
        let xr = value * vr;
        assert(-2040 <= xl >> 4i32 <= 2040 && -2040 <= xr >> 4i32 <= 2040) by {
            lemma_i32_shr(xl);
            lemma_i32_shr(xr);
        }
        let next = (addr + self.ram[base + 0x07] as u32) & 0x00FF_FFFF;
        self.fraction[ch] = (next & 0xFF) as u8;
        self.ram[base + 0x84] = ((next >> 8) & 0xFF) as u8;
        self.ram[base + 0x85] = ((next >> 16) & 0xFF) as u8;
        (xl >> 4, xr >> 4)
    }

    fn tick(&mut self) -> (o: (i32, i32))
        ensures
            *final(self) == old(self).run(16).0,
            o.0 == old(self).run(16).1.0,
            o.1 == old(self).run(16).1.1,
    {
        let ghost start = *self;
        let mut left: i32 = 0;
        let mut right: i32 = 0;
        let mut ch: usize = 0;
        while ch < 16
            invariant
                ch <= 16,
                (*self, (left as int, right as int)) == start.run(ch as int),
                -2040 * ch <= left <= 2040 * ch,
                -2040 * ch <= right <= 2040 * ch,
            decreases 16 - ch,
        {
            let (l, r) = self.channel(ch);
            left = left + l;
            right = right + r;
            ch = ch + 1;
        }
        (left, right)
    }
}

impl Default for SegaPcm {
    fn default() -> (chip: SegaPcm)
        ensures
            chip == SegaPcm::cleared(31_250, chip.rom, 12, 0x70),
            chip.rom@.len() == 0,
    {
        Self::new()
    }
}

impl ChipState for SegaPcm {
    open spec fn inv(&self) -> bool {
        true
    }

    open spec fn stepped(&self) -> SegaPcm {
        self.run(16).0
    }

    open spec fn frame(&self) -> (i32, i32) {
        (self.run(16).1.0 as i32, self.run(16).1.1 as i32)
    }

    fn next_frame(&mut self) -> (f: (i32, i32)) {
        self.tick()
    }
}

impl ChipCore for SegaPcm {
    /// The ROM and the bank folding survive; every channel stops.
    fn reset(&mut self, clock: u32, variant: bool)
        ensures
            *final(self) == SegaPcm::cleared(
                if clock / CLOCK_DIVIDER > 1 { clock / CLOCK_DIVIDER } else { 1 },
                old(self).rom,
                old(self).bank_shift,
                old(self).bank_mask,
            ),
    {
        let mut rom: Vec<u8> = Vec::new();
        std::mem::swap(&mut rom, &mut self.rom);
        let rate = clock / CLOCK_DIVIDER;
        *self = Self::clear(if rate > 1 { rate } else { 1 }, rom, self.bank_shift, self.bank_mask);
    }

    /// The header's interface word: the bank shift in the low byte, the bank
    /// mask in bits 16-23 (zero meaning the classic `0x70`). A zero word
    /// keeps the folding as it is.
    fn configure(&mut self, settings: &ChipSettings)
        ensures
            *final(self) == (if settings.sega_pcm_interface != 0 {
                let m = (settings.sega_pcm_interface >> 16u32) & 0xFF;
                SegaPcm {
                    bank_shift: settings.sega_pcm_interface & 0xFF,
                    bank_mask: if m == 0 { 0x70 } else { m },
                    ..*old(self)
                }
            } else {
                *old(self)
            }),
    {
        let interface = settings.sega_pcm_interface;
        if interface != 0 {
            self.bank_shift = interface & 0xFF;
            let mask = (interface >> 16) & 0xFF;
            self.bank_mask = if mask == 0 { 0x70 } else { mask };
        }
    }

    fn native_rate(&self) -> (rate: u32)
        ensures
            rate == self.rate,
    {
        self.rate
    }

    /// A raw register-RAM write; the channels read it back each frame.
    fn write(&mut self, port: u8, addr: u16, data: u16)
        ensures
            *final(self) == (SegaPcm {
                ram: spec_array_update(old(self).ram, (addr & 0xFF) as int, (data & 0xFF) as u8),
                ..*old(self)
            }),
    {
        assert(addr & 0xFF <= 0xFF) by {
            lemma_u16(addr, 0xFF);
        }
        self.ram[(addr & 0xFF) as usize] = (data & 0xFF) as u8;
        assert(self.ram =~= spec_array_update(old(self).ram, (addr & 0xFF) as int, (data & 0xFF) as u8));
    }

    /// The sample ROM.
    fn load_rom(&mut self, block_type: u8, total_size: u32, start: u32, data: &[u8])
        ensures
            final(self).rom@ == image_loaded(old(self).rom@, total_size as nat, start as nat, data@),
            *final(self) == (SegaPcm { rom: final(self).rom, ..*old(self) }),
    {
        load_image(&mut self.rom, total_size, start, data);
    }
}

} // verus!
