//! The Bandai WonderSwan's sound unit: four wavetable channels with a voice
//! mode, a sweep, and a noise mode.
//!
//! The wave memory is RAM the driver uploads: four 16-byte tables of 32
//! packed 4-bit samples, reached through memory writes on port 1. Registers
//! arrive on port 0 as `(register - 0x80)`. Channel 2 can become an 8-bit
//! voice DAC and channel 4 a noise generator; the hardware sweep on channel
//! 3 is modelled, the HyperVoice headphone channel is not.

use vstd::prelude::*;
use crate::bits::{lemma_u16, lemma_u8};

use crate::chip::{ChipCore, ChipState};
use vstd::array::{spec_array_fill_for_copy_type, spec_array_update};

verus! {

/// One frame per 128 clocks: 24 kHz at the 3.072 MHz master.
pub const CLOCK_DIVIDER: u32 = 128;

/// One channel.
#[derive(Debug, Clone, Copy)]
pub struct Channel {
    /// Eleven bits: the period is `2048 - pitch` ticks per wave step.
    pub pitch: u16,
    /// Volume nibbles: high left, low right.
    pub volume: u8,
    pub enabled: bool,
    /// Wave phase, 16.16 over the 32 samples.
    pub phase: u32,
}

/// `a + b` wrapped to 32 bits.
pub open spec fn wrapped(a: u32, b: u32) -> u32 {
    if a + b > u32::MAX {
        (a + b - 0x1_0000_0000) as u32
    } else {
        (a + b) as u32
    }
}

/// `a + b` wrapped to 16 bits.
pub open spec fn wrapped16(a: u16, b: u16) -> u16 {
    if a + b > u16::MAX {
        (a + b - 0x1_0000) as u16
    } else {
        (a + b) as u16
    }
}

impl Channel {
    pub open spec fn cleared() -> Channel {
        Channel { pitch: 0, volume: 0, enabled: false, phase: 0 }
    }

    /// The wave phase's step per frame.
    pub open spec fn step(self) -> u32 {
        ((CLOCK_DIVIDER * 65536) / (2048 - self.pitch)) as u32
    }
}

/// The sound unit.
#[derive(Debug)]
pub struct WonderSwan {
    pub rate: u32,
    pub channels: [Channel; 4],
    /// The four 16-byte wavetables, as uploaded.
    pub wave_ram: [u8; 64],
    /// Where the wave RAM sits (register 0x8F, in 64-byte units).
    pub wave_base: u8,
    /// Channel 2's voice mode and its 8-bit sample.
    pub voice_mode: bool,
    pub voice_sample: u8,
    /// Channel 4's noise mode and its shift register.
    pub noise_mode: bool,
    pub noise: u16,
    /// The sweep on channel 3.
    pub sweep_mode: bool,
    pub sweep_step: i8,
    pub sweep_time: u8,
    pub sweep_count: u32,
}

impl WonderSwan {
    pub open spec fn cleared(rate: u32) -> WonderSwan {
        WonderSwan {
            rate,
            channels: spec_array_fill_for_copy_type(Channel::cleared()),
            wave_ram: spec_array_fill_for_copy_type(0u8),
            wave_base: 0,
            voice_mode: false,
            voice_sample: 0x80,
            noise_mode: false,
            noise: 1,
            sweep_mode: false,
            sweep_step: 0,
            sweep_time: 0,
            sweep_count: 0,
        }
    }

    fn clear(rate: u32) -> (chip: WonderSwan)
        ensures
            chip == WonderSwan::cleared(rate),
    {
        let ch = Channel { pitch: 0, volume: 0, enabled: false, phase: 0 };
        WonderSwan {
            rate,
            channels: [ch; 4],
            wave_ram: [0u8; 64],
            wave_base: 0,
            voice_mode: false,
            voice_sample: 0x80,
            noise_mode: false,
            noise: 1,
            sweep_mode: false,
            sweep_step: 0,
            sweep_time: 0,
            sweep_count: 0,
        }
    }

    /// A chip with no clock yet; `reset` gives it one.
    pub fn new() -> (chip: WonderSwan)
        ensures
            chip == WonderSwan::cleared(24_000),
    {
        Self::clear(24_000)
    }

    pub open spec fn inv(self) -> bool {
        &&& forall|i: int| 0 <= i < 4 ==> #[trigger] self.channels[i].pitch <= 0x7FF
        &&& self.sweep_count <= 16_320
    }

    /// The sweep's slow clock: every `sweep_time * 64` frames channel 3's
    /// pitch moves by the signed step, held to eleven bits.
    pub open spec fn swept(self) -> WonderSwan {
        if self.sweep_mode && self.sweep_time > 0 {
            if self.sweep_count + 1 >= self.sweep_time * 64 {
                let p = wrapped16(self.channels[2].pitch, self.sweep_step as u16);
                let ch = Channel { pitch: if p < 0x7FF { p } else { 0x7FF }, ..self.channels[2] };
                WonderSwan {
                    sweep_count: 0,
                    channels: spec_array_update(self.channels, 2, ch),
                    ..self
                }
            } else {
                WonderSwan { sweep_count: (self.sweep_count + 1) as u32, ..self }
            }
        } else {
            self
        }
    }

    /// The generators one frame on: the sweep, then one noise step.
    pub open spec fn prepared(self) -> WonderSwan {
        let s = self.swept();
        let feedback = (s.noise ^ (s.noise >> 1u16)) & 1;
        WonderSwan { noise: (s.noise >> 1u16) | (feedback << 14u16), ..s }
    }

    /// Channel `i` one frame on, and the sample it sounds if enabled: the
    /// voice DAC, the noise bit, or its wavetable's next nibble, centred.
    pub open spec fn played(self, i: int) -> (Channel, int) {
        let ch = self.channels[i];
        if !ch.enabled {
            (ch, 0)
        } else if i == 1 && self.voice_mode {
            (ch, self.voice_sample - 0x80)
        } else if i == 3 && self.noise_mode {
            (ch, if self.noise & 1 != 0 { 7 } else { -8 })
        } else {
            let phase = wrapped(ch.phase, ch.step());
            let position = ((phase >> 16u32) % 32) as int;
            let byte = self.wave_ram[i * 16 + position / 2];
            let nibble = if position % 2 == 0 { byte & 0x0F } else { byte >> 4u8 };
            (Channel { phase, ..ch }, nibble - 8)
        }
    }

    /// Channel `i`'s `(left, right)` this frame.
    pub open spec fn voice(self, i: int) -> (int, int) {
        let (ch, sample) = self.played(i);
        (sample * (ch.volume >> 4u8) * 32, sample * (ch.volume & 0x0F) * 32)
    }

    pub open spec fn voices(self, n: int) -> (int, int)
        decreases n,
    {
        if n <= 0 {
            (0, 0)
        } else {
            let (l, r) = self.voices(n - 1);
            let (a, b) = self.voice(n - 1);
            (l + a, r + b)
        }
    }

    pub open spec fn advanced(self) -> WonderSwan {
        let s = self.prepared();
        let c = |i: int| s.played(i).0;
        WonderSwan { channels: [c(0), c(1), c(2), c(3)], ..s }
    }

    fn sweep(&mut self)
        requires
            old(self).inv(),
        ensures
            final(self).inv(),
            *final(self) == old(self).swept(),
    {
        if self.sweep_mode && self.sweep_time > 0 {
            self.sweep_count += 1;
            if self.sweep_count >= self.sweep_time as u32 * 64 {
                self.sweep_count = 0;
                let mut ch = self.channels[2];
                let p = ch.pitch.wrapping_add(self.sweep_step as u16);
                ch.pitch = if p < 0x7FF { p } else { 0x7FF };
                self.channels[2] = ch;
            }
        }
        assert forall|i: int| 0 <= i < 4 implies #[trigger] self.channels[i].pitch <= 0x7FF by {
            assert(old(self).channels[i].pitch <= 0x7FF);
        }
    }

    fn play(&mut self, i: usize) -> (o: (i32, i32))
        requires
            old(self).inv(),
            i < 4,
        ensures
            final(self).inv(),
            *final(self) == (WonderSwan {
                channels: spec_array_update(old(self).channels, i as int, old(self).played(i as int).0),
                ..*old(self)
            }),
            o.0 == old(self).voice(i as int).0,
            o.1 == old(self).voice(i as int).1,
            -61_440 <= o.0 <= 61_440,
            -61_440 <= o.1 <= 61_440,
    {
        let mut ch = self.channels[i];
        if !ch.enabled {
            assert(self.channels =~= spec_array_update(old(self).channels, i as int, ch));
            return (0, 0);
        }
        let sample: i32 = if i == 1 && self.voice_mode {
            self.voice_sample as i32 - 0x80
        } else if i == 3 && self.noise_mode {
            if self.noise & 1 != 0 { 7 } else { -8 }
        } else {
            assert(old(self).channels[i as int].pitch <= 0x7FF);
            let step = (CLOCK_DIVIDER * 65536) / (2048 - ch.pitch as u32);
            ch.phase = ch.phase.wrapping_add(step);
            let position = ((ch.phase >> 16) % 32) as usize;
            let byte = self.wave_ram[i * 16 + position / 2];
            let nibble = if position % 2 == 0 { byte & 0x0F } else { byte >> 4 };
            assert(byte & 0x0F <= 15 && byte >> 4u8 <= 15) by {
                lemma_u8(byte, 0x0F);
            }
            nibble as i32 - 8
        };
        self.channels[i] = ch;
        let v = ch.volume;
        assert(v >> 4u8 <= 15 && v & 0x0F <= 15) by {
            lemma_u8(v, 0x0F);
        }
        let vl = (ch.volume >> 4) as i32;
        let vr = (ch.volume & 0x0F) as i32;
        assert(-61_440 <= sample * vl * 32 <= 61_440) by (nonlinear_arith)
            requires
                -128 <= sample <= 127,
                0 <= vl <= 15,
        ;
        assert(-61_440 <= sample * vr * 32 <= 61_440) by (nonlinear_arith)
            requires
                -128 <= sample <= 127,
                0 <= vr <= 15,
        ;
        assert(self.channels =~= spec_array_update(old(self).channels, i as int, old(self).played(i as int).0));
        assert forall|j: int| 0 <= j < 4 implies #[trigger] self.channels[j].pitch <= 0x7FF by {
            assert(old(self).channels[j].pitch <= 0x7FF);
        }
        (sample * vl * 32, sample * vr * 32)
    }

    fn tick(&mut self) -> (o: (i32, i32))
        requires
            old(self).inv(),
        ensures
            final(self).inv(),
            *final(self) == old(self).advanced(),
            o.0 == old(self).prepared().voices(4).0,
            o.1 == old(self).prepared().voices(4).1,
    {
        let ghost start = *self;
        self.sweep();
        let feedback = (self.noise ^ (self.noise >> 1u16)) & 1;
        self.noise = (self.noise >> 1u16) | (feedback << 14u16);
        let ghost prepared = *self;
        assert(prepared == start.prepared());
        let mut left: i32 = 0;
        let mut right: i32 = 0;
        let mut i: usize = 0;
        while i < 4
            invariant
                i <= 4,
                self.inv(),
                prepared.inv(),
                self.rate == prepared.rate,
                self.wave_ram == prepared.wave_ram,
                self.wave_base == prepared.wave_base,
                self.voice_mode == prepared.voice_mode,
                self.voice_sample == prepared.voice_sample,
                self.noise_mode == prepared.noise_mode,
                self.noise == prepared.noise,
                self.sweep_mode == prepared.sweep_mode,
                self.sweep_step == prepared.sweep_step,
                self.sweep_time == prepared.sweep_time,
                self.sweep_count == prepared.sweep_count,
                forall|j: int| 0 <= j < i ==> #[trigger] self.channels[j] == prepared.played(j).0,
                forall|j: int| i <= j < 4 ==> #[trigger] self.channels[j] == prepared.channels[j],
                (left as int, right as int) == prepared.voices(i as int),
                -61_440 * i <= left <= 61_440 * i,
                -61_440 * i <= right <= 61_440 * i,
            decreases 4 - i,
        {
            assert(self.played(i as int) == prepared.played(i as int));
            let (l, r) = self.play(i);
            left = left + l;
            right = right + r;
            i = i + 1;
        }
        assert(self.channels =~= start.advanced().channels);
        (left, right)
    }

    /// The chip after byte `d` lands in register `reg` (port 0), or at memory
    /// address `addr` (port 1), which reaches the wave RAM inside the window
    /// the base register frames.
    pub open spec fn register_set(self, port: u8, addr: u16, d: u8) -> WonderSwan {
        if port == 1 {
            let base = self.wave_base * 64;
            if base <= addr < base + 64 {
                WonderSwan { wave_ram: spec_array_update(self.wave_ram, addr - base, d), ..self }
            } else {
                self
            }
        } else {
            let reg = addr & 0xFF;
            let c = ((reg >> 1u16) & 3) as int;
            let ch = self.channels[c];
            if reg <= 7 && reg % 2 == 0 {
                let p = Channel { pitch: ((ch.pitch & 0x0700) | (d as u16)) as u16, ..ch };
                WonderSwan { channels: spec_array_update(self.channels, c, p), ..self }
            } else if reg <= 7 {
                let p = Channel { pitch: ((ch.pitch & 0x00FF) | (((d & 0x07) as u16) << 8u16)) as u16, ..ch };
                WonderSwan { channels: spec_array_update(self.channels, c, p), ..self }
            } else if 0x08 <= reg <= 0x0B {
                let v = Channel { volume: d, ..self.channels[reg - 8] };
                WonderSwan { channels: spec_array_update(self.channels, reg - 8, v), ..self }
            } else if reg == 0x0C {
                WonderSwan { sweep_step: d as i8, ..self }
            } else if reg == 0x0D {
                WonderSwan { sweep_time: d, ..self }
            } else if reg == 0x0E {
                WonderSwan { noise: if d & 0x10 != 0 { 1 } else { self.noise }, ..self }
            } else if reg == 0x0F {
                WonderSwan { wave_base: d, ..self }
            } else if reg == 0x10 {
                let e = |i: int| Channel { enabled: d & (1u8 << (i as u8)) != 0, ..self.channels[i] };
                WonderSwan {
                    channels: [e(0), e(1), e(2), e(3)],
                    voice_mode: d & 0x20 != 0,
                    sweep_mode: d & 0x40 != 0,
                    noise_mode: d & 0x80 != 0,
                    ..self
                }
            } else if reg == 0x11 {
                WonderSwan { voice_sample: d, ..self }
            } else {
                self
            }
        }
    }
}

impl Default for WonderSwan {
    fn default() -> (chip: WonderSwan)
        ensures
            chip == WonderSwan::cleared(24_000),
    {
        Self::new()
    }
}

impl ChipState for WonderSwan {
    open spec fn inv(&self) -> bool {
        WonderSwan::inv(*self)
    }

    open spec fn stepped(&self) -> WonderSwan {
        self.advanced()
    }

    open spec fn frame(&self) -> (i32, i32) {
        (self.prepared().voices(4).0 as i32, self.prepared().voices(4).1 as i32)
    }

    fn next_frame(&mut self) -> (f: (i32, i32)) {
        self.tick()
    }
}

impl ChipCore for WonderSwan {
    fn reset(&mut self, clock: u32, variant: bool)
        ensures
            *final(self) == WonderSwan::cleared(
                if clock / CLOCK_DIVIDER > 1 { clock / CLOCK_DIVIDER } else { 1 },
            ),
    {
        let rate = clock / CLOCK_DIVIDER;
        *self = Self::clear(if rate > 1 { rate } else { 1 });
    }

    fn native_rate(&self) -> (rate: u32)
        ensures
            rate == self.rate,
    {
        self.rate
    }

    /// Port 0 carries the register file (offset from `0x80`); port 1 the
    /// wave-RAM memory writes. Registers 0x12-0x13 (output control) are not
    /// modelled.
    fn write(&mut self, port: u8, addr: u16, data: u16)
        ensures
            *final(self) == old(self).register_set(port, addr, (data & 0xFF) as u8),
    {
        let d = (data & 0xFF) as u8;
        if port == 1 {
            let base = self.wave_base as u16 * 64;
            if base <= addr && addr < base + 64 {
                self.wave_ram[(addr - base) as usize] = d;
            }
            return;
        }
        let reg = addr & 0xFF;
        assert(reg <= 0xFF && (reg >> 1u16) & 3 < 4) by {
            lemma_u16(addr, 0xFF);
            lemma_u16(reg >> 1u16, 3);
        }
        if reg <= 7 {
            let c = ((reg >> 1) & 3) as usize;
            let mut ch = self.channels[c];
            assert(old(self).channels[c as int].pitch <= 0x7FF);
            let p = ch.pitch;
            assert((p & 0x0700) | (d as u16) <= 0x7FF && (p & 0x00FF) | (((d & 0x07) as u16) << 8u16)
                <= 0x7FF) by {
                lemma_u8(d, 0x07);
                lemma_u16((d & 0x07) as u16, 0);
                lemma_u16(p, 0x0700);
                lemma_u16(p & 0x0700, d as u16);
                lemma_u16(p, 0x00FF);
                lemma_u16(p & 0x00FF, ((d & 0x07) as u16) << 8u16);
            }
            if reg % 2 == 0 {
                ch.pitch = (ch.pitch & 0x0700) | (d as u16);
            } else {
                ch.pitch = (ch.pitch & 0x00FF) | (((d & 0x07) as u16) << 8);
            }
            self.channels[c] = ch;
        } else if 0x08 <= reg && reg <= 0x0B {
            let mut ch = self.channels[(reg - 8) as usize];
            ch.volume = d;
            self.channels[(reg - 8) as usize] = ch;
        } else if reg == 0x0C {
            self.sweep_step = d as i8;
        } else if reg == 0x0D {
            self.sweep_time = d;
        } else if reg == 0x0E {
            if d & 0x10 != 0 {
                self.noise = 1;
            }
        } else if reg == 0x0F {
            self.wave_base = d;
        } else if reg == 0x10 {
            let mut i: usize = 0;
            let ghost start = *self;
            while i < 4
                invariant
                    i <= 4,
                    *self == (WonderSwan { channels: self.channels, ..start }),
                    forall|j: int|
                        0 <= j < i ==> #[trigger] self.channels[j] == (Channel {
                            enabled: d & (1u8 << (j as u8)) != 0,
                            ..start.channels[j]
                        }),
                    forall|j: int| i <= j < 4 ==> #[trigger] self.channels[j] == start.channels[j],
                decreases 4 - i,
            {
                let mut ch = self.channels[i];
                ch.enabled = d & (1u8 << (i as u8)) != 0;
                self.channels[i] = ch;
                i = i + 1;
            }
            self.voice_mode = d & 0x20 != 0;
            self.sweep_mode = d & 0x40 != 0;
            self.noise_mode = d & 0x80 != 0;
            assert(self.channels =~= old(self).register_set(port, addr, d).channels);
        } else if reg == 0x11 {
            self.voice_sample = d;
        }
        assert forall|j: int| 0 <= j < 4 implies #[trigger] self.channels[j].pitch <= 0x7FF by {
            assert(old(self).channels[j].pitch <= 0x7FF);
        }
    }
}

} // verus!
