//! The Ensoniq ES5503 DOC: the Apple IIgs's 32 oscillators reading wave RAM.
//!
//! Oscillators read 8-bit **unsigned** samples from a shared RAM the VGM
//! uploads through RAM blocks, and **a zero byte halts the oscillator**:
//! silence is encoded in the wave data itself. The scan rate divides among
//! the enabled oscillators, so enabling more of them lowers everyone's pitch.
//!
//! Swap mode plays as loop (the paired-oscillator handoff is not modelled),
//! and the resolution field scales the accumulator shift.

use vstd::prelude::*;
use crate::bits::{lemma_i32_shr, lemma_u16, lemma_u32, lemma_u8};

use crate::chip::{image_loaded, load_image, ChipCore, ChipState};
use vstd::array::{spec_array_fill_for_copy_type, spec_array_update};

verus! {

/// One oscillator.
#[derive(Debug, Clone, Copy)]
pub struct Oscillator {
    /// Sixteen bits of accumulator step.
    pub frequency: u16,
    pub volume: u8,
    /// The wave table page: address bits 8-15.
    pub page: u8,
    pub halted: bool,
    pub one_shot: bool,
    /// Table size select: `256 << size` bytes.
    pub size: u8,
    pub resolution: u8,
    /// The 24-bit accumulator.
    pub accumulator: u32,
}

impl Oscillator {
    pub open spec fn halted_one() -> Oscillator {
        Oscillator {
            frequency: 0,
            volume: 0,
            page: 0,
            halted: true,
            one_shot: false,
            size: 0,
            resolution: 0,
            accumulator: 0,
        }
    }

    pub open spec fn inv(self) -> bool {
        &&& self.size <= 7
        &&& self.resolution <= 7
        &&& self.accumulator <= 0xFF_FFFF
    }

    /// The table size in address bits.
    pub open spec fn size_bits(self) -> u32 {
        (8 + self.size) as u32
    }

    /// How far the accumulator is shifted down to index the table.
    pub open spec fn shift(self) -> u32 {
        let s = 24 - self.size_bits();
        (if s > self.resolution { s - self.resolution } else { 0 }) as u32
    }

    /// The oscillator one frame on and the value it sounds, if any. A zero
    /// byte halts it; a one-shot halts once it runs off its table.
    pub open spec fn read(self, ram: Seq<u8>) -> (Oscillator, Option<int>) {
        if self.halted {
            (self, None)
        } else {
            let index = (self.accumulator >> self.shift()) & (((1u32 << self.size_bits()) - 1) as u32);
            let address = self.page * 256 + index;
            let byte: u8 = if address < ram.len() { ram[address] } else { 0 };
            if byte == 0 {
                (Oscillator { halted: true, ..self }, None)
            } else {
                let next = ((self.accumulator + self.frequency) as u32) & 0xFF_FFFF;
                let ended = self.one_shot && (next >> self.shift()) >= (1u32 << self.size_bits());
                (Oscillator { accumulator: next, halted: ended, ..self }, Some(byte - 0x80))
            }
        }
    }

    pub open spec fn out(self, ram: Seq<u8>) -> int {
        match self.read(ram).1 {
            Some(v) => ((v * self.volume) as i32 >> 4i32) as int,
            None => 0,
        }
    }

    fn play(&mut self, ram: &Vec<u8>) -> (o: i32)
        requires
            old(self).inv(),
        ensures
            final(self).inv(),
            *final(self) == old(self).read(ram@).0,
            o == old(self).out(ram@),
            -2025 <= o <= 2024,
    {
        if self.halted {
            return 0;
        }
        let size_bits = 8 + self.size as u32;
        let s = 24 - size_bits;
        let shift = if s > self.resolution as u32 { s - self.resolution as u32 } else { 0 };
        let acc = self.accumulator;
        assert(1u32 << size_bits >= 1 && (acc >> shift) & (((1u32 << size_bits) - 1) as u32)
            <= 0x7FFF) by (bit_vector)
            requires
                8 <= size_bits <= 15,
        ;
        let index = (self.accumulator >> shift) & ((1u32 << size_bits) - 1);
        let address = (self.page as usize) * 256 + index as usize;
        let byte: u8 = if address < ram.len() { ram[address] } else { 0 };
        if byte == 0 {
            self.halted = true;
            return 0;
        }
        let value = byte as i32 - 0x80;
        let v = self.volume as i32;
        assert(-127 * 255 <= value * v <= 127 * 255) by (nonlinear_arith)
            requires
                -127 <= value <= 127,
                0 <= v <= 255,
        ;
        let x = value * v;
        proof {
            lemma_i32_shr(x);
        }
        let total = self.accumulator + self.frequency as u32;
        let next = total & 0xFF_FFFF;
        assert(next <= 0xFF_FFFF) by {
            lemma_u32(total, 0xFF_FFFF);
        }
        if self.one_shot && (next >> shift) >= (1u32 << size_bits) {
            self.halted = true;
        }
        self.accumulator = next;
        x >> 4
    }
}

/// The ES5503.
#[derive(Debug)]
pub struct Es5503 {
    pub rate: u32,
    pub clock: u32,
    pub oscillators: [Oscillator; 32],
    /// How many oscillators the enable register turns on.
    pub enabled: u8,
    pub ram: Vec<u8>,
}

/// The documented scan rate: `clock / 8 / (enabled + 2)`, at least one.
pub open spec fn scan_rate(clock: u32, enabled: u8) -> u32 {
    let r = clock / 8 / (enabled + 2) as u32;
    if r > 1 {
        r
    } else {
        1
    }
}

impl Es5503 {
    /// Every oscillator halted at `clock`, with all 32 enabled.
    pub open spec fn cleared(clock: u32, rate: u32, ram: Vec<u8>) -> Es5503 {
        Es5503 {
            rate,
            clock,
            oscillators: spec_array_fill_for_copy_type(Oscillator::halted_one()),
            enabled: 32,
            ram,
        }
    }

    fn clear(clock: u32, rate: u32, ram: Vec<u8>) -> (chip: Es5503)
        ensures
            chip == Es5503::cleared(clock, rate, ram),
    {
        let o = Oscillator {
            frequency: 0,
            volume: 0,
            page: 0,
            halted: true,
            one_shot: false,
            size: 0,
            resolution: 0,
            accumulator: 0,
        };
        Es5503 { rate, clock, oscillators: [o; 32], enabled: 32, ram }
    }

    /// A chip with no clock yet and 128 KiB of zeroed wave RAM.
    pub fn new() -> (chip: Es5503)
        ensures
            chip == Es5503::cleared(7_159_090, 26_320, chip.ram),
            chip.ram@ == Seq::new(0x20000, |i: int| 0u8),
    {
        let ram = vec![0u8; 0x20000];
        assert(ram@ =~= Seq::new(0x20000, |i: int| 0u8));
        Self::clear(7_159_090, 26_320, ram)
    }

    pub open spec fn inv(self) -> bool {
        &&& forall|i: int| 0 <= i < 32 ==> #[trigger] self.oscillators[i].inv()
        &&& self.enabled <= 32
    }

    pub open spec fn mixed(self, n: int) -> int
        decreases n,
    {
        if n <= 0 {
            0
        } else {
            self.mixed(n - 1) + self.oscillators[n - 1].out(self.ram@)
        }
    }

    pub open spec fn advanced(self) -> Es5503 {
        let r = |i: int| self.oscillators[i].read(self.ram@).0;
        Es5503 {
            oscillators: [
                r(0), r(1), r(2), r(3), r(4), r(5), r(6), r(7), r(8), r(9), r(10), r(11), r(12),
                r(13), r(14), r(15), r(16), r(17), r(18), r(19), r(20), r(21), r(22), r(23), r(24),
                r(25), r(26), r(27), r(28), r(29), r(30), r(31),
            ],
            ..self
        }
    }

    fn tick(&mut self) -> (o: i32)
        requires
            old(self).inv(),
        ensures
            final(self).inv(),
            *final(self) == old(self).advanced(),
            o == old(self).mixed(32),
    {
        let ghost start = *self;
        let mut sum: i32 = 0;
        let mut i: usize = 0;
        while i < 32
            invariant
                i <= 32,
                start.inv(),
                *self == (Es5503 { oscillators: self.oscillators, ..start }),
                forall|j: int|
                    0 <= j < i ==> #[trigger] self.oscillators[j] == start.oscillators[j].read(
                        start.ram@,
                    ).0 && self.oscillators[j].inv(),
                forall|j: int| i <= j < 32 ==> #[trigger] self.oscillators[j] == start.oscillators[j],
                sum == start.mixed(i as int),
                -2025 * i <= sum <= 2024 * i,
            decreases 32 - i,
        {
            assert(start.oscillators[i as int].inv());
            let mut o = self.oscillators[i];
            let v = o.play(&self.ram);
            self.oscillators[i] = o;
            sum = sum + v;
            i = i + 1;
        }
        assert(self.oscillators =~= start.advanced().oscillators);
        sum
    }

    /// The chip after byte `d` lands in register `reg`; the oscillator is
    /// `reg & 0x1F`. Un-halting an oscillator restarts its accumulator.
    pub open spec fn register_set(self, reg: int, d: u8) -> Es5503 {
        let i = reg % 32;
        let o = self.oscillators[i];
        let set = |n: Oscillator| Es5503 { oscillators: spec_array_update(self.oscillators, i, n), ..self };
        if 0x00 <= reg <= 0x1F {
            set(Oscillator { frequency: ((o.frequency & 0xFF00) | (d as u16)) as u16, ..o })
        } else if 0x20 <= reg <= 0x3F {
            set(Oscillator { frequency: ((o.frequency & 0x00FF) | ((d as u16) << 8u16)) as u16, ..o })
        } else if 0x40 <= reg <= 0x5F {
            set(Oscillator { volume: d, ..o })
        } else if 0x80 <= reg <= 0x9F {
            set(Oscillator { page: d, ..o })
        } else if 0xA0 <= reg <= 0xBF {
            let halted = d & 0x01 != 0;
            set(Oscillator {
                halted,
                one_shot: d & 0x02 != 0,
                accumulator: if o.halted && !halted { 0 } else { o.accumulator },
                ..o
            })
        } else if 0xC0 <= reg <= 0xDF {
            set(Oscillator { size: (d >> 3u8) & 0x07, resolution: d & 0x07, ..o })
        } else if reg == 0xE1 || reg == 0x1E1 {
            let n = (d >> 1u8) + 1;
            let enabled = (if n < 32 { n } else { 32 }) as u8;
            Es5503 { enabled, rate: scan_rate(self.clock, enabled), ..self }
        } else {
            self
        }
    }
}

impl Default for Es5503 {
    fn default() -> (chip: Es5503)
        ensures
            chip == Es5503::cleared(7_159_090, 26_320, chip.ram),
            chip.ram@ == Seq::new(0x20000, |i: int| 0u8),
    {
        Self::new()
    }
}

impl ChipState for Es5503 {
    open spec fn inv(&self) -> bool {
        Es5503::inv(*self)
    }

    open spec fn stepped(&self) -> Es5503 {
        self.advanced()
    }

    /// Mono: the IIgs mixes the DOC to one path.
    open spec fn frame(&self) -> (i32, i32) {
        (self.mixed(32) as i32, self.mixed(32) as i32)
    }

    fn next_frame(&mut self) -> (f: (i32, i32)) {
        let sum = self.tick();
        (sum, sum)
    }
}

impl ChipCore for Es5503 {
    /// The wave RAM survives; every oscillator halts, all 32 enabled.
    fn reset(&mut self, clock: u32, variant: bool)
        ensures
            *final(self) == Es5503::cleared(clock, scan_rate(clock, 32), old(self).ram),
    {
        let mut ram: Vec<u8> = Vec::new();
        std::mem::swap(&mut ram, &mut self.ram);
        let r = clock / 8 / 34;
        *self = Self::clear(clock, if r > 1 { r } else { 1 }, ram);
    }

    fn native_rate(&self) -> (rate: u32)
        ensures
            rate == self.rate,
    {
        self.rate
    }

    /// The register file, `port << 8 | addr`.
    fn write(&mut self, port: u8, addr: u16, data: u16)
        ensures
            *final(self) == old(self).register_set(port * 256 + (addr & 0xFF), (data & 0xFF) as u8),
    {
        let lo = addr & 0xFF;
        assert(lo <= 0xFF) by {
            lemma_u16(addr, 0xFF);
        }
        let reg: u16 = (port as u16) * 256 + lo;
        let d = (data & 0xFF) as u8;
        let i = (reg % 32) as usize;
        let mut o = self.oscillators[i];
        assert(old(self).oscillators[i as int].inv());
        assert((d >> 3u8) & 0x07 <= 7 && d & 0x07 <= 7 && d >> 1u8 <= 127) by {
            lemma_u8(d, 0x07);
            lemma_u8(d >> 3u8, 0x07);
        }
        if reg <= 0x1F {
            o.frequency = (o.frequency & 0xFF00) | (d as u16);
        } else if 0x20 <= reg && reg <= 0x3F {
            o.frequency = (o.frequency & 0x00FF) | ((d as u16) << 8);
        } else if 0x40 <= reg && reg <= 0x5F {
            o.volume = d;
        } else if 0x80 <= reg && reg <= 0x9F {
            o.page = d;
        } else if 0xA0 <= reg && reg <= 0xBF {
            let was_halted = o.halted;
            o.halted = d & 0x01 != 0;
            o.one_shot = d & 0x02 != 0;
            if was_halted && !o.halted {
                o.accumulator = 0;
            }
        } else if 0xC0 <= reg && reg <= 0xDF {
            o.size = (d >> 3) & 0x07;
            o.resolution = d & 0x07;
        } else if reg == 0xE1 || reg == 0x1E1 {
            let n = (d >> 1) + 1;
            self.enabled = if n < 32 { n } else { 32 };
            let r = self.clock / 8 / (self.enabled as u32 + 2);
            self.rate = if r > 1 { r } else { 1 };
            return;
        } else {
            return;
        }
        self.oscillators[i] = o;
        assert(self.oscillators =~= old(self).register_set(reg as int, d).oscillators);
        assert forall|j: int| 0 <= j < 32 implies #[trigger] self.oscillators[j].inv() by {
            assert(old(self).oscillators[j].inv());
        }
    }

    /// Wave RAM arrives as RAM-write blocks; bytes past its end are dropped.
    fn write_ram(&mut self, offset: u32, data: &[u8])
        ensures
            final(self).ram@ == image_loaded(old(self).ram@, 0, offset as nat, data@),
            *final(self) == (Es5503 { ram: final(self).ram, ..*old(self) }),
    {
        load_image(&mut self.ram, 0, offset, data);
    }
}

} // verus!
