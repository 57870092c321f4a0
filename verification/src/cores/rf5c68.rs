//! The Ricoh RF5C68 and RF5C164: eight PCM channels reading 64 KiB of RAM.
//!
//! The two parts answer the same registers, so one core serves both.
//!
//! # The shape of the chip
//!
//! This chip plays from **RAM the driver streams into it**, through a 4 KiB
//! window that a bank register slides over the 64 KiB. A VGM carries those
//! uploads two ways: RAM data blocks, and direct pokes, which arrive on
//! **port 1** so that they cannot collide with the register writes on port 0.
//!
//! Samples are **sign-magnitude** -- bit 7 set means positive -- and the byte
//! `0xFF` is not a sample but the **loop marker**: a channel that reads it
//! jumps to its loop address, and one that finds the marker there too halts.

use vstd::prelude::*;
use crate::bits::{lemma_i32_shr, lemma_u16, lemma_u32, lemma_u8};

use crate::chip::{ChipCore, ChipState};
use vstd::array::{spec_array_fill_for_copy_type, spec_array_update};

verus! {

/// One frame per 384 clocks.
pub const CLOCK_DIVIDER: u32 = 384;

/// The size of the chip's RAM.
pub const RAM_SIZE: usize = 0x10000;

/// One PCM channel.
#[derive(Debug, Clone, Copy)]
pub struct Channel {
    /// An 8-bit volume.
    pub envelope: u8,
    /// Low nibble left, high nibble right.
    pub pan: u8,
    /// The address step per frame, in 16.11 fixed point.
    pub delta: u16,
    /// The loop address, in whole bytes.
    pub loop_start: u16,
    /// The start address's high byte: a key-on begins at `start << 8`.
    pub start: u8,
    /// The playback address, 16.11 fixed point.
    pub address: u32,
    /// Keyed on. The register is an off mask; this is kept the other way.
    pub playing: bool,
}

/// `a + b` wrapped to 32 bits.
pub open spec fn wrapped(a: u32, b: u32) -> u32 {
    if a + b > u32::MAX {
        (a + b - 0x1_0000_0000) as u32
    } else {
        (a + b) as u32
    }
}

/// The RAM byte at 16.11 address `address`.
pub open spec fn ram_at(ram: Seq<u8>, address: u32) -> u8 {
    ram[((address >> 11u32) & 0xFFFF) as int]
}

/// A sign-magnitude sample: bit 7 set is the positive half.
pub open spec fn sample_of(byte: u8) -> int {
    if byte & 0x80 != 0 {
        (byte & 0x7F) as int
    } else {
        -((byte & 0x7F) as int)
    }
}

impl Channel {
    pub open spec fn cleared() -> Channel {
        Channel {
            envelope: 0,
            pan: 0,
            delta: 0,
            loop_start: 0,
            start: 0,
            address: 0,
            playing: false,
        }
    }

    /// The channel one frame on and the byte it sounds, if any. A loop
    /// marker sends it to its loop address once; a marker there too halts it.
    pub open spec fn read(self, ram: Seq<u8>) -> (Channel, Option<u8>) {
        if !self.playing {
            (self, None)
        } else {
            let byte = ram_at(ram, self.address);
            if byte == 0xFF {
                let a = (self.loop_start as u32 * 2048) as u32;
                let again = ram_at(ram, a);
                if again == 0xFF {
                    (Channel { address: a, playing: false, ..self }, None)
                } else {
                    (Channel { address: wrapped(a, self.delta as u32), ..self }, Some(again))
                }
            } else {
                (Channel { address: wrapped(self.address, self.delta as u32), ..self }, Some(byte))
            }
        }
    }

    /// What a sounded byte contributes to the side whose pan nibble is `pan`.
    pub open spec fn side(self, byte: u8, pan: u8) -> int {
        (((sample_of(byte) * self.envelope * 3) * pan) as i32 >> 5u32) as int
    }

    /// The channel's `(left, right)` contribution this frame.
    pub open spec fn out(self, ram: Seq<u8>) -> (int, int) {
        match self.read(ram).1 {
            Some(byte) => (self.side(byte, self.pan & 0x0F), self.side(byte, self.pan >> 4u8)),
            None => (0, 0),
        }
    }

    fn render(&mut self, ram: &Vec<u8>) -> (o: (i32, i32))
        requires
            ram@.len() == RAM_SIZE,
        ensures
            *final(self) == old(self).read(ram@).0,
            o.0 == old(self).out(ram@).0,
            o.1 == old(self).out(ram@).1,
            -45_542 <= o.0 <= 45_541,
            -45_542 <= o.1 <= 45_541,
    {
        if !self.playing {
            return (0, 0);
        }
        let a0 = self.address;
        assert((a0 >> 11u32) & 0xFFFF < 0x10000) by {
            lemma_u32(a0 >> 11u32, 0xFFFF);
        }
        let mut byte = ram[((self.address >> 11) & 0xFFFF) as usize];
        if byte == 0xFF {
            self.address = self.loop_start as u32 * 2048;
            let a1 = self.address;
            assert((a1 >> 11u32) & 0xFFFF < 0x10000) by {
                lemma_u32(a1 >> 11u32, 0xFFFF);
            }
            byte = ram[((self.address >> 11) & 0xFFFF) as usize];
            if byte == 0xFF {
                self.playing = false;
                return (0, 0);
            }
        }
        self.address = self.address.wrapping_add(self.delta as u32);
        let magnitude = (byte & 0x7F) as i32;
        assert(byte & 0x7F <= 127) by {
            lemma_u8(byte, 0x7F);
        }
        let sample = if byte & 0x80 != 0 { magnitude } else { -magnitude };
        let env = self.envelope as i32;
        assert(-97_155 <= sample * env * 3 <= 97_155) by (nonlinear_arith)
            requires
                -127 <= sample <= 127,
                0 <= env <= 255,
        ;
        let scaled = sample * env * 3;
        let pl = (self.pan & 0x0F) as i32;
        let pr = (self.pan >> 4) as i32;
        let p = self.pan;
        assert(p & 0x0F <= 15 && p >> 4u8 <= 15) by {
            lemma_u8(p, 0x0F);
        }
        assert(-1_457_325 <= scaled * pl <= 1_457_325) by (nonlinear_arith)
            requires
                -97_155 <= scaled <= 97_155,
                0 <= pl <= 15,
        ;
        assert(-1_457_325 <= scaled * pr <= 1_457_325) by (nonlinear_arith)
            requires
                -97_155 <= scaled <= 97_155,
                0 <= pr <= 15,
        ;
        let xl = scaled * pl;
        let xr = scaled * pr;
        assert(-45_542 <= xl >> 5u32 <= 45_541 && -45_542 <= xr >> 5u32 <= 45_541) by {
            lemma_i32_shr(xl);
            lemma_i32_shr(xr);
        }
        (xl >> 5, xr >> 5)
    }

    /// The key register's bit for this channel: a clear bit sounds, and a
    /// channel going from off to on restarts at its start address.
    pub open spec fn keyed(self, on: bool) -> Channel {
        Channel {
            address: if on && !self.playing {
                (self.start as u32 * 0x80000) as u32
            } else {
                self.address
            },
            playing: on,
            ..self
        }
    }
}

/// A memory image cut or zero-filled to the chip's 64 KiB.
pub open spec fn fitted(ram: Seq<u8>) -> Seq<u8> {
    if ram.len() < RAM_SIZE {
        ram + Seq::new((RAM_SIZE - ram.len()) as nat, |i: int| 0u8)
    } else {
        ram.take(RAM_SIZE as int)
    }
}

/// The RAM after `data`'s first `n` bytes are written from `base` on,
/// wrapping within the 64 KiB.
pub open spec fn ram_written(ram: Seq<u8>, base: int, data: Seq<u8>, n: int) -> Seq<u8>
    decreases n,
{
    if n <= 0 {
        ram
    } else {
        ram_written(ram, base, data, n - 1).update((base + n - 1) % 0x10000, data[n - 1])
    }
}

/// The RF5C68 / RF5C164.
#[derive(Debug)]
pub struct Rf5c68 {
    pub rate: u32,
    pub channels: [Channel; 8],
    pub ram: Vec<u8>,
    /// The 4 KiB window's base within the RAM, from the bank register.
    pub bank: usize,
    /// Which channel the per-channel registers address.
    pub selected: usize,
    /// The master enable, from the control register's bit 7.
    pub sounding: bool,
}

impl Rf5c68 {
    /// Everything cleared at `rate`, holding `ram`.
    pub open spec fn cleared(rate: u32, ram: Vec<u8>) -> Rf5c68 {
        Rf5c68 {
            rate,
            channels: spec_array_fill_for_copy_type(Channel::cleared()),
            ram,
            bank: 0,
            selected: 0,
            sounding: false,
        }
    }

    fn clear(rate: u32, ram: Vec<u8>) -> (chip: Rf5c68)
        ensures
            chip == Rf5c68::cleared(rate, ram),
    {
        let ch = Channel {
            envelope: 0,
            pan: 0,
            delta: 0,
            loop_start: 0,
            start: 0,
            address: 0,
            playing: false,
        };
        Rf5c68 { rate, channels: [ch; 8], ram, bank: 0, selected: 0, sounding: false }
    }

    /// A chip with no clock yet, and 64 KiB of zeroed RAM; `reset` gives it
    /// a clock.
    pub fn new() -> (chip: Rf5c68)
        ensures
            chip == Rf5c68::cleared(32_552, chip.ram),
            chip.ram@ == Seq::new(0x10000, |i: int| 0u8),
    {
        let ram = vec![0u8; RAM_SIZE];
        assert(ram@ =~= Seq::new(0x10000, |i: int| 0u8));
        Self::clear(32_552, ram)
    }

    pub open spec fn inv(self) -> bool {
        &&& self.ram@.len() == RAM_SIZE
        &&& self.selected < 8
        &&& self.bank <= 0xF000
        &&& self.bank % 4096 == 0
    }

    /// The first `n` channels' summed `(left, right)`.
    pub open spec fn mixed(self, n: int) -> (int, int)
        decreases n,
    {
        if n <= 0 {
            (0, 0)
        } else {
            let (l, r) = self.mixed(n - 1);
            let (a, b) = self.channels[n - 1].out(self.ram@);
            (l + a, r + b)
        }
    }

    /// One frame on: with the master enable off nothing moves.
    pub open spec fn advanced(self) -> Rf5c68 {
        if !self.sounding {
            self
        } else {
            let c = |i: int| self.channels[i].read(self.ram@).0;
            Rf5c68 { channels: [c(0), c(1), c(2), c(3), c(4), c(5), c(6), c(7)], ..self }
        }
    }

    fn tick(&mut self) -> (o: (i32, i32))
        requires
            old(self).inv(),
        ensures
            final(self).inv(),
            *final(self) == old(self).advanced(),
            o.0 == (if old(self).sounding { old(self).mixed(8).0 } else { 0 }),
            o.1 == (if old(self).sounding { old(self).mixed(8).1 } else { 0 }),
    {
        if !self.sounding {
            return (0, 0);
        }
        let ghost start = *self;
        let mut left: i32 = 0;
        let mut right: i32 = 0;
        let mut i: usize = 0;
        while i < 8
            invariant
                i <= 8,
                start.inv(),
                self.ram == start.ram,
                self.rate == start.rate,
                self.bank == start.bank,
                self.selected == start.selected,
                self.sounding == start.sounding,
                forall|j: int|
                    0 <= j < i ==> #[trigger] self.channels[j] == start.channels[j].read(
                        start.ram@,
                    ).0,
                forall|j: int| i <= j < 8 ==> #[trigger] self.channels[j] == start.channels[j],
                (left as int, right as int) == start.mixed(i as int),
                -45_542 * i <= left <= 45_541 * i,
                -45_542 * i <= right <= 45_541 * i,
            decreases 8 - i,
        {
            let mut ch = self.channels[i];
            let (l, r) = ch.render(&self.ram);
            self.channels[i] = ch;
            left = left + l;
            right = right + r;
            i = i + 1;
        }
        assert(self.channels =~= start.advanced().channels);
        (left, right)
    }

    /// Register `reg` of the selected channel, or the control and key
    /// registers, after byte `d`.
    pub open spec fn register_set(self, reg: u16, d: u8) -> Rf5c68 {
        let ch = self.channels[self.selected as int];
        let set = |c: Channel| Rf5c68 {
            channels: spec_array_update(self.channels, self.selected as int, c),
            ..self
        };
        if reg == 0 {
            set(Channel { envelope: d, ..ch })
        } else if reg == 1 {
            set(Channel { pan: d, ..ch })
        } else if reg == 2 {
            set(Channel { delta: ((ch.delta & 0xFF00) | (d as u16)) as u16, ..ch })
        } else if reg == 3 {
            set(Channel { delta: ((ch.delta & 0x00FF) | ((d as u16) << 8u16)) as u16, ..ch })
        } else if reg == 4 {
            set(Channel { loop_start: ((ch.loop_start & 0xFF00) | (d as u16)) as u16, ..ch })
        } else if reg == 5 {
            set(Channel { loop_start: ((ch.loop_start & 0x00FF) | ((d as u16) << 8u16)) as u16, ..ch })
        } else if reg == 6 {
            set(Channel { start: d, ..ch })
        } else if reg == 7 {
            Rf5c68 {
                sounding: d & 0x80 != 0,
                selected: if d & 0x40 != 0 { (d & 0x07) as usize } else { self.selected },
                bank: if d & 0x40 != 0 { self.bank } else { ((d & 0x0F) as usize * 4096) as usize },
                ..self
            }
        } else if reg == 8 {
            let k = |i: int| self.channels[i].keyed(d & (1u8 << (i as u8)) == 0);
            Rf5c68 { channels: [k(0), k(1), k(2), k(3), k(4), k(5), k(6), k(7)], ..self }
        } else {
            self
        }
    }

    fn write_key(&mut self, d: u8)
        requires
            old(self).inv(),
        ensures
            final(self).inv(),
            *final(self) == old(self).register_set(8, d),
    {
        let ghost start = *self;
        let mut i: usize = 0;
        while i < 8
            invariant
                i <= 8,
                self.ram == start.ram,
                self.rate == start.rate,
                self.bank == start.bank,
                self.selected == start.selected,
                self.sounding == start.sounding,
                forall|j: int|
                    0 <= j < i ==> #[trigger] self.channels[j] == start.channels[j].keyed(
                        d & (1u8 << (j as u8)) == 0,
                    ),
                forall|j: int| i <= j < 8 ==> #[trigger] self.channels[j] == start.channels[j],
            decreases 8 - i,
        {
            let mut ch = self.channels[i];
            let on = d & (1u8 << (i as u8)) == 0;
            if on && !ch.playing {
                ch.address = ch.start as u32 * 0x80000;
            }
            ch.playing = on;
            self.channels[i] = ch;
            i = i + 1;
        }
        assert(self.channels =~= start.register_set(8, d).channels);
    }
}

impl Default for Rf5c68 {
    fn default() -> (chip: Rf5c68)
        ensures
            chip == Rf5c68::cleared(32_552, chip.ram),
            chip.ram@ == Seq::new(0x10000, |i: int| 0u8),
    {
        Self::new()
    }
}

impl ChipState for Rf5c68 {
    open spec fn inv(&self) -> bool {
        Rf5c68::inv(*self)
    }

    open spec fn stepped(&self) -> Rf5c68 {
        self.advanced()
    }

    open spec fn frame(&self) -> (i32, i32) {
        if self.sounding {
            (self.mixed(8).0 as i32, self.mixed(8).1 as i32)
        } else {
            (0, 0)
        }
    }

    fn next_frame(&mut self) -> (f: (i32, i32)) {
        self.tick()
    }
}

impl ChipCore for Rf5c68 {
    /// The RAM arrives before the stream starts and survives the reset (a
    /// memory of another size is cut or zero-filled to the chip's 64 KiB).
    fn reset(&mut self, clock: u32, variant: bool)
        ensures
            *final(self) == Rf5c68::cleared(
                if clock / CLOCK_DIVIDER > 1 { clock / CLOCK_DIVIDER } else { 1 },
                final(self).ram,
            ),
            final(self).ram@ == fitted(old(self).ram@),
    {
        let mut ram: Vec<u8> = Vec::new();
        std::mem::swap(&mut ram, &mut self.ram);
        ram.resize(RAM_SIZE, 0);
        let rate = clock / CLOCK_DIVIDER;
        *self = Self::clear(if rate > 1 { rate } else { 1 }, ram);
    }

    fn native_rate(&self) -> (rate: u32)
        ensures
            rate == self.rate,
    {
        self.rate
    }

    /// Port 0 is the register file; port 1 is a direct memory poke through
    /// the current bank's window.
    fn write(&mut self, port: u8, addr: u16, data: u16)
        ensures
            port == 1 ==> *final(self) == (Rf5c68 {
                ram: final(self).ram,
                ..*old(self)
            }) && final(self).ram@ == old(self).ram@.update(
                ((old(self).bank as int + (addr & 0x0FFF)) % 0x10000),
                (data & 0xFF) as u8,
            ),
            port != 1 ==> *final(self) == old(self).register_set(addr & 0x0F, (data & 0xFF) as u8),
    {
        let d = (data & 0xFF) as u8;
        if port == 1 {
            assert(addr & 0x0FFF <= 0x0FFF) by {
                lemma_u16(addr, 0x0FFF);
            }
            let offset = (addr & 0x0FFF) as usize;
            let at = (self.bank + offset) % 0x10000;
            self.ram.set(at, d);
            return;
        }
        let reg = addr & 0x0F;
        if reg == 8 {
            self.write_key(d);
            return;
        }
        if reg == 7 {
            self.sounding = d & 0x80 != 0;
            if d & 0x40 != 0 {
                assert(d & 0x07 < 8) by {
                    lemma_u8(d, 0x07);
                }
                self.selected = (d & 0x07) as usize;
            } else {
                assert(d & 0x0F <= 15) by {
                    lemma_u8(d, 0x0F);
                }
                self.bank = (d & 0x0F) as usize * 4096;
            }
            return;
        }
        let mut ch = self.channels[self.selected];
        if reg == 0 {
            ch.envelope = d;
        } else if reg == 1 {
            ch.pan = d;
        } else if reg == 2 {
            ch.delta = (ch.delta & 0xFF00) | (d as u16);
        } else if reg == 3 {
            ch.delta = (ch.delta & 0x00FF) | ((d as u16) << 8);
        } else if reg == 4 {
            ch.loop_start = (ch.loop_start & 0xFF00) | (d as u16);
        } else if reg == 5 {
            ch.loop_start = (ch.loop_start & 0x00FF) | ((d as u16) << 8);
        } else if reg == 6 {
            ch.start = d;
        } else {
            return;
        }
        self.channels[self.selected] = ch;
    }

    /// RAM blocks go through the current bank's window like the pokes, and
    /// wrap within the 64 KiB.
    fn write_ram(&mut self, offset: u32, data: &[u8])
        ensures
            *final(self) == (Rf5c68 { ram: final(self).ram, ..*old(self) }),
            final(self).ram@ == ram_written(
                old(self).ram@,
                old(self).bank as int + (offset & 0x0FFF),
                data@,
                data@.len() as int,
            ),
    {
        assert(offset & 0x0FFF <= 0x0FFF) by {
            lemma_u32(offset, 0x0FFF);
        }
        let base = self.bank + (offset & 0x0FFF) as usize;
        let mut at = base;
        let mut i: usize = 0;
        while i < data.len()
            invariant
                i <= data@.len(),
                base == old(self).bank + (offset & 0x0FFF),
                base < 0x10000,
                at == (base + i) % 0x10000,
                self.ram@ == ram_written(old(self).ram@, base as int, data@, i as int),
                self.ram@.len() == RAM_SIZE,
                self.rate == old(self).rate,
                self.channels == old(self).channels,
                self.bank == old(self).bank,
                self.selected == old(self).selected,
                self.sounding == old(self).sounding,
            decreases data@.len() - i,
        {
            self.ram.set(at, data[i]);
            at = (at + 1) % 0x10000;
            i = i + 1;
        }
    }
}

} // verus!
