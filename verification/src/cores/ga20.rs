//! The Irem GA20: four channels of 8-bit PCM on the M-92 and M-107 boards.
//!
//! Samples are **unsigned** 8-bit with the byte `0x00` as the end marker
//! (there are no loops: the driver replays), and the rate register is a
//! divider, `clock/4 / (256 - rate)`.

use vstd::prelude::*;
use crate::bits::{lemma_i32_shr, lemma_u16};

use crate::chip::{image_loaded, load_image, ChipCore, ChipState};
use vstd::array::{spec_array_fill_for_copy_type, spec_array_update};

verus! {

/// One frame per 64 clocks.
pub const CLOCK_DIVIDER: u32 = 64;

/// One channel.
#[derive(Debug, Clone, Copy)]
pub struct Channel {
    /// Byte addresses, written in 16-byte units.
    pub start: u32,
    pub end: u32,
    /// A divider against `clock / 4`.
    pub rate: u8,
    pub volume: u8,
    /// Position in 16.16 bytes.
    pub position: u32,
    pub playing: bool,
}

/// `a + b` wrapped to 32 bits.
pub open spec fn wrapped(a: u32, b: u32) -> u32 {
    if a + b > u32::MAX {
        (a + b - 0x1_0000_0000) as u32
    } else {
        (a + b) as u32
    }
}

impl Channel {
    pub open spec fn cleared() -> Channel {
        Channel { start: 0, end: 0, rate: 0, volume: 0, position: 0, playing: false }
    }

    /// The 16.16 step per frame: sixteen chip ticks, each moving
    /// `1 / (256 - rate)` bytes.
    pub open spec fn spec_step(self) -> u32 {
        (1_048_576int / (256 - self.rate)) as u32
    }

    pub fn step(&self) -> (s: u32)
        ensures
            s == self.spec_step(),
    {
        (16 * 65536) / (256 - self.rate as u32)
    }

    /// The channel one frame on and the value it sounds, if any: the end
    /// register, the end of the ROM and a zero byte all stop it.
    pub open spec fn read(self, rom: Seq<u8>) -> (Channel, Option<int>) {
        let at = self.position >> 16u32;
        if !self.playing {
            (self, None)
        } else if at >= self.end || at >= rom.len() {
            (Channel { playing: false, ..self }, None)
        } else if rom[at as int] == 0 {
            (Channel { playing: false, ..self }, None)
        } else {
            (Channel { position: wrapped(self.position, self.spec_step()), ..self }, Some(rom[at as int] - 0x80))
        }
    }

    pub open spec fn out(self, rom: Seq<u8>) -> int {
        match self.read(rom).1 {
            Some(v) => ((v * self.volume) as i32 >> 4i32) as int,
            None => 0,
        }
    }

    fn play(&mut self, rom: &Vec<u8>) -> (o: i32)
        ensures
            *final(self) == old(self).read(rom@).0,
            o == old(self).out(rom@),
            -2025 <= o <= 2024,
    {
        if !self.playing {
            return 0;
        }
        let at = self.position >> 16;
        if at >= self.end || at as usize >= rom.len() {
            self.playing = false;
            return 0;
        }
        let byte = rom[at as usize];
        if byte == 0 {
            self.playing = false;
            return 0;
        }
        let value = byte as i32 - 0x80;
        let v = self.volume as i32;
        assert(-127 * 255 <= value * v <= 127 * 255) by (nonlinear_arith)
            requires
                -127 <= value <= 127,
                0 <= v <= 255,
        ;
        let x = value * v;
        proof {
            lemma_i32_shr(x);
        }
        self.position = self.position.wrapping_add(self.step());
        x >> 4
    }
}

impl Default for Channel {
    fn default() -> (c: Channel)
        ensures
            c == Channel::cleared(),
    {
        Channel { start: 0, end: 0, rate: 0, volume: 0, position: 0, playing: false }
    }
}

/// The GA20.
#[derive(Debug)]
pub struct Ga20 {
    pub rate: u32,
    pub channels: [Channel; 4],
    pub rom: Vec<u8>,
}

impl Ga20 {
    pub open spec fn cleared(rate: u32, rom: Vec<u8>) -> Ga20 {
        Ga20 { rate, channels: spec_array_fill_for_copy_type(Channel::cleared()), rom }
    }

    fn clear(rate: u32, rom: Vec<u8>) -> (chip: Ga20)
        ensures
            chip == Ga20::cleared(rate, rom),
    {
        let c = Channel::default();
        Ga20 { rate, channels: [c; 4], rom }
    }

    /// A chip with no clock yet and no ROM.
    pub fn new() -> (chip: Ga20)
        ensures
            chip == Ga20::cleared(55_930, chip.rom),
            chip.rom@.len() == 0,
    {
        Self::clear(55_930, Vec::new())
    }

    pub open spec fn mixed(self, n: int) -> int
        decreases n,
    {
        if n <= 0 {
            0
        } else {
            self.mixed(n - 1) + self.channels[n - 1].out(self.rom@)
        }
    }

    pub open spec fn advanced(self) -> Ga20 {
        let r = |i: int| self.channels[i].read(self.rom@).0;
        Ga20 { channels: [r(0), r(1), r(2), r(3)], ..self }
    }

    fn tick(&mut self) -> (o: i32)
        ensures
            *final(self) == old(self).advanced(),
            o == old(self).mixed(4),
    {
        let ghost start = *self;
        let mut sum: i32 = 0;
        let mut i: usize = 0;
        while i < 4
            invariant
                i <= 4,
                *self == (Ga20 { channels: self.channels, ..start }),
                forall|j: int| 0 <= j < i ==> #[trigger] self.channels[j] == start.channels[j].read(start.rom@).0,
                forall|j: int| i <= j < 4 ==> #[trigger] self.channels[j] == start.channels[j],
                sum == start.mixed(i as int),
                -2025 * i <= sum <= 2024 * i,
            decreases 4 - i,
        {
            let mut c = self.channels[i];
            let v = c.play(&self.rom);
            self.channels[i] = c;
            sum = sum + v;
            i = i + 1;
        }
        assert(self.channels =~= start.advanced().channels);
        sum
    }

    /// The chip after byte `d` lands in register `addr`: eight registers a
    /// channel -- start and end in 16-byte units, the rate divider, volume,
    /// and the control register whose bit 1 keys.
    pub open spec fn register_set(self, addr: u16, d: u8) -> Ga20 {
        let i = ((addr >> 3u16) & 0x03) as int;
        let c = self.channels[i];
        let r = addr & 0x07;
        let n = if r == 0 {
            Channel { start: ((c.start & 0xFF000) | ((d as u32) << 4u32)) as u32, ..c }
        } else if r == 1 {
            Channel { start: ((c.start & 0x00FF0) | ((d as u32) << 12u32)) as u32, ..c }
        } else if r == 2 {
            Channel { end: ((c.end & 0xFF000) | ((d as u32) << 4u32)) as u32, ..c }
        } else if r == 3 {
            Channel { end: ((c.end & 0x00FF0) | ((d as u32) << 12u32)) as u32, ..c }
        } else if r == 4 {
            Channel { rate: d, ..c }
        } else if r == 5 {
            Channel { volume: d, ..c }
        } else if r == 6 {
            if d & 0x02 != 0 {
                Channel { position: c.start << 16u32, playing: true, ..c }
            } else {
                Channel { playing: false, ..c }
            }
        } else {
            c
        };
        Ga20 { channels: spec_array_update(self.channels, i, n), ..self }
    }
}

impl Default for Ga20 {
    fn default() -> (chip: Ga20)
        ensures
            chip == Ga20::cleared(55_930, chip.rom),
            chip.rom@.len() == 0,
    {
        Self::new()
    }
}

impl ChipState for Ga20 {
    open spec fn inv(&self) -> bool {
        true
    }

    open spec fn stepped(&self) -> Ga20 {
        self.advanced()
    }

    /// Mono into both sides: the boards mix to one speaker path.
    open spec fn frame(&self) -> (i32, i32) {
        (self.mixed(4) as i32, self.mixed(4) as i32)
    }

    fn next_frame(&mut self) -> (f: (i32, i32)) {
        let sum = self.tick();
        (sum, sum)
    }
}

impl ChipCore for Ga20 {
    /// The ROM survives.
    fn reset(&mut self, clock: u32, variant: bool)
        ensures
            *final(self) == Ga20::cleared(
                if clock / CLOCK_DIVIDER > 1 { clock / CLOCK_DIVIDER } else { 1 },
                old(self).rom,
            ),
    {
        let mut rom: Vec<u8> = Vec::new();
        std::mem::swap(&mut rom, &mut self.rom);
        let rate = clock / CLOCK_DIVIDER;
        *self = Self::clear(if rate > 1 { rate } else { 1 }, rom);
    }

    fn native_rate(&self) -> (rate: u32)
        ensures
            rate == self.rate,
    {
        self.rate
    }

    fn write(&mut self, port: u8, addr: u16, data: u16)
        ensures
            *final(self) == old(self).register_set(addr, (data & 0xFF) as u8),
    {
        let d = (data & 0xFF) as u8;
        assert((addr >> 3u16) & 0x03 < 4) by {
            lemma_u16(addr >> 3u16, 0x03);
        }
        let i = ((addr >> 3) & 0x03) as usize;
        let mut c = self.channels[i];
        let r = addr & 0x07;
        if r == 0 {
            c.start = (c.start & 0xFF000) | ((d as u32) << 4);
        } else if r == 1 {
            c.start = (c.start & 0x00FF0) | ((d as u32) << 12);
        } else if r == 2 {
            c.end = (c.end & 0xFF000) | ((d as u32) << 4);
        } else if r == 3 {
            c.end = (c.end & 0x00FF0) | ((d as u32) << 12);
        } else if r == 4 {
            c.rate = d;
        } else if r == 5 {
            c.volume = d;
        } else if r == 6 {
            if d & 0x02 != 0 {
                c.position = c.start << 16;
                c.playing = true;
            } else {
                c.playing = false;
            }
        }
        self.channels[i] = c;
        assert(self.channels =~= old(self).register_set(addr, d).channels);
    }

    /// The sample ROM.
    fn load_rom(&mut self, block_type: u8, total_size: u32, start: u32, data: &[u8])
        ensures
            final(self).rom@ == image_loaded(old(self).rom@, total_size as nat, start as nat, data@),
            *final(self) == (Ga20 { rom: final(self).rom, ..*old(self) }),
    {
        load_image(&mut self.rom, total_size, start, data);
    }
}

} // verus!
