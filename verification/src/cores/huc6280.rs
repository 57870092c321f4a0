//! The HuC6280's PSG: the PC Engine / TurboGrafx-16's six wavetable channels.
//!
//! Every channel plays a 32-entry table of 5-bit samples, so the same hardware
//! produces a square, a sine or a sampled drum depending only on what was
//! written into it.
//!
//! - **The registers are banked behind a channel-select.** Writing register 0
//!   chooses which of the six channels every later write lands on.
//! - **Stereo is per channel**: four bits of attenuation each side, added to
//!   a global four-bit pair and the channel's five-bit volume.
//! - **Channels 5 and 6 can be noise instead.**
//!
//! Not modelled: the LFO on channels 1-2 and the timer registers.

use vstd::prelude::*;
use crate::bits::{lemma_i32_shr, lemma_u16, lemma_u8};

use crate::chip::{ChipCore, ChipState};
use vstd::arithmetic::div_mod::{lemma_add_mod_noop, lemma_fundamental_div_mod_converse};
use vstd::array::{spec_array_fill_for_copy_type, spec_array_update};

verus! {

/// Master clocks averaged into one output sample.
pub const CYCLES_PER_SAMPLE: u32 = 64;

/// Samples in one channel's wavetable.
pub const WAVE_LEN: usize = 32;

/// Peak amplitude of one channel at full volume, per side.
pub const PEAK: i32 = 4_000;

/// Attenuation in 1.5 dB steps, as a 16-bit fixed-point fraction of unity.
/// The volume fields are attenuations and add in steps, so one curve indexed
/// by the summed steps serves all of them.
pub const ATTENUATION: [i32; 48] = [
    65536, 55142, 46396, 39037, 32846, 27636, 23253, 19565, 16462, 13851, 11654, 9806, 8250, 6942,
    5841, 4915, 4135, 3479, 2927, 2463, 2072, 1744, 1467, 1234, 1039, 874, 735, 619, 521, 438, 369,
    310, 261, 220, 185, 155, 131, 110, 93, 78, 66, 55, 46, 39, 33, 28, 23, 20,
];

pub open spec fn gain_of(steps: int) -> i32 {
    ATTENUATION@[steps]
}

/// Every gain lies between silence and unity.
pub proof fn lemma_gains_bounded()
    ensures
        forall|n: int| 0 <= n < 48 ==> 0 <= #[trigger] gain_of(n) <= 65536,
{
}

/// A sample after `steps` steps of attenuation: silence past the end of the
/// curve rather than a wrap.
pub open spec fn attenuated(sample: i32, steps: int) -> i32 {
    if 0 <= steps < 48 {
        ((sample * gain_of(steps)) as i32) >> 16u32
    } else {
        0
    }
}

/// The noise register after `k` shifts: right by one, bit 0 XOR bit 1
/// entering at bit 16.
pub open spec fn lfsr(shift: u32, k: nat) -> u32
    decreases k,
{
    if k == 0 {
        shift
    } else {
        let s = lfsr(shift, (k - 1) as nat);
        (s >> 1) | (((s ^ (s >> 1)) & 1) << 16)
    }
}

/// One of the six channels.
#[derive(Debug, Clone, Copy)]
pub struct Channel {
    /// Twelve bits. The wave advances one step every `frequency` clocks.
    pub frequency: u16,
    pub counter: u32,
    pub position: u8,
    /// Where the next table write lands.
    pub write_index: u8,
    pub wave: [u8; 32],
    /// Five bits of attenuation.
    pub volume: u8,
    pub on: bool,
    /// Direct D/A: table writes go straight to the output.
    pub dda: bool,
    pub dda_sample: u8,
    /// Four bits of attenuation each, left then right.
    pub balance: [u8; 2],
    /// Channels 5 and 6 only.
    pub noise_on: bool,
    pub noise_frequency: u8,
    pub noise_counter: u32,
    pub noise_shift: u32,
}

impl Channel {
    /// A channel at power-on: everything clear, the noise register non-zero.
    pub open spec fn cleared() -> Channel {
        Channel {
            frequency: 0,
            counter: 0,
            position: 0,
            write_index: 0,
            wave: spec_array_fill_for_copy_type(0u8),
            volume: 0,
            on: false,
            dda: false,
            dda_sample: 0,
            balance: spec_array_fill_for_copy_type(0u8),
            noise_on: false,
            noise_frequency: 0,
            noise_counter: 0,
            noise_shift: 0x0001_FFFF,
        }
    }

    fn new() -> (c: Channel)
        ensures
            c == Channel::cleared(),
            c.inv(),
    {
        Channel {
            frequency: 0,
            counter: 0,
            position: 0,
            write_index: 0,
            wave: [0u8; 32],
            volume: 0,
            on: false,
            dda: false,
            dda_sample: 0,
            balance: [0u8; 2],
            noise_on: false,
            noise_frequency: 0,
            noise_counter: 0,
            noise_shift: 0x0001_FFFF,
        }
    }

    pub open spec fn inv(self) -> bool {
        &&& self.frequency <= 0xFFF
        &&& self.counter < 0x1000
        &&& self.noise_counter < 0x800
        &&& self.position < 32
        &&& self.write_index < 32
        &&& self.volume <= 31
        &&& self.dda_sample <= 31
        &&& forall|i: int| 0 <= i < 32 ==> #[trigger] self.wave[i] <= 31
        &&& forall|i: int| 0 <= i < 2 ==> #[trigger] self.balance[i] <= 15
    }

    /// Clocks per wave step: zero behaves as 4096, the full twelve-bit span.
    pub open spec fn period_of(self) -> u32 {
        if self.frequency == 0 {
            0x1000
        } else {
            self.frequency as u32
        }
    }

    /// The master-clock period of one wave step.
    pub fn period(&self) -> (p: u32)
        requires
            self.frequency <= 0xFFF,
        ensures
            p == self.period_of(),
            1 <= p <= 0x1000,
    {
        if self.frequency == 0 {
            0x1000
        } else {
            self.frequency as u32
        }
    }

    /// The noise period, `(32 - n) × 64` for a five-bit register `n`.
    pub open spec fn noise_period_of(self) -> u32 {
        (((31 - (self.noise_frequency & 0x1F)) + 1) * 64) as u32
    }

    fn noise_period(&self) -> (p: u32)
        ensures
            p == self.noise_period_of(),
            64 <= p <= 0x800,
    {
        let f = self.noise_frequency;
        let n = f & 0x1F;
        assert(f & 0x1F <= 31) by {
            lemma_u8(f, 0x1F);
        }
        ((31 - n) as u32 + 1) * 64
    }

    /// The channel `cycles` master clocks later. An off channel holds; a
    /// noise channel shifts its register once per noise period; a DDA
    /// channel holds its sample; otherwise the table pointer steps once per
    /// period, wrapping at 32.
    pub open spec fn advanced_by(self, cycles: u32) -> Channel {
        if !self.on {
            self
        } else if self.noise_on {
            let c = self.noise_counter + cycles;
            let p = self.noise_period_of() as int;
            Channel {
                noise_counter: (c % p) as u32,
                noise_shift: lfsr(self.noise_shift, (c / p) as nat),
                ..self
            }
        } else if self.dda {
            self
        } else {
            let c = self.counter + cycles;
            let p = self.period_of() as int;
            Channel {
                counter: (c % p) as u32,
                position: ((self.position + c / p) % 32) as u8,
                ..self
            }
        }
    }

    fn advance(&mut self, cycles: u32)
        requires
            old(self).inv(),
            cycles <= 64,
        ensures
            final(self).inv(),
            *final(self) == old(self).advanced_by(cycles),
    {
        if !self.on {
            return;
        }
        if self.noise_on {
            let period = self.noise_period();
            let ghost c = self.noise_counter + cycles;
            let ghost s0 = self.noise_shift;
            let mut counter = self.noise_counter + cycles;
            let mut shift = self.noise_shift;
            let ghost mut k: nat = 0;
            assert(k * period == 0) by (nonlinear_arith)
                requires
                    k == 0,
            ;
            while counter >= period
                invariant
                    64 <= period <= 0x800,
                    counter + k * period == c,
                    shift == lfsr(s0, k),
                decreases counter,
            {
                counter = counter - period;
                let feedback = (shift ^ (shift >> 1)) & 1;
                shift = (shift >> 1) | (feedback << 16);
                proof {
                    assert((k + 1) * period == k * period + period) by (nonlinear_arith);
                    k = k + 1;
                }
            }
            proof {
                lemma_fundamental_div_mod_converse(c, period as int, k as int, counter as int);
            }
            self.noise_counter = counter;
            self.noise_shift = shift;
            return;
        }
        if self.dda {
            return;
        }
        let period = self.period();
        let ghost c = self.counter + cycles;
        let ghost p0 = self.position;
        assert(p0 % 32 == p0) by (nonlinear_arith)
            requires
                p0 < 32,
        ;
        let mut counter = self.counter + cycles;
        let mut position = self.position;
        let ghost mut k: nat = 0;
        assert(k * period == 0) by (nonlinear_arith)
            requires
                k == 0,
        ;
        while counter >= period
            invariant
                1 <= period <= 0x1000,
                counter + k * period == c,
                position == (p0 + k) % 32,
                position < 32,
            decreases counter,
        {
            counter = counter - period;
            proof {
                lemma_add_mod_noop(p0 + k, 1, 32);
                assert(1int % 32 == 1);
                assert((position + 1) % 32 == (p0 + k + 1) % 32);
            }
            position = (position + 1) % 32;
            proof {
                assert((k + 1) * period == k * period + period) by (nonlinear_arith);
                k = k + 1;
            }
        }
        proof {
            lemma_fundamental_div_mod_converse(c, period as int, k as int, counter as int);
        }
        self.counter = counter;
        self.position = position;
    }

    /// The channel's raw 5-bit sample, centred on zero: full swing for noise,
    /// the held sample in DDA, else the table entry under the pointer.
    pub open spec fn sample_value(self) -> i32 {
        if !self.on {
            0
        } else {
            let raw: int = if self.noise_on {
                if self.noise_shift & 1 == 0 {
                    0
                } else {
                    31
                }
            } else if self.dda {
                self.dda_sample as int
            } else {
                self.wave[self.position as int] as int
            };
            (raw - 16) as i32
        }
    }

    fn sample(&self) -> (s: i32)
        requires
            self.inv(),
        ensures
            s == self.sample_value(),
            -16 <= s <= 15,
    {
        if !self.on {
            return 0;
        }
        let raw: u32 = if self.noise_on {
            if self.noise_shift & 1 == 0 {
                0
            } else {
                31
            }
        } else if self.dda {
            self.dda_sample as u32
        } else {
            self.wave[self.position as usize] as u32
        };
        raw as i32 - 16
    }

    /// What a write of `value` to banked register `r` does to this channel.
    /// `noise_capable` is whether the channel is one of the last two.
    pub open spec fn register_written(self, r: u16, value: u8, noise_capable: bool) -> Channel {
        if r == 0x02 {
            Channel { frequency: ((self.frequency & 0x0F00) | (value as u16)) as u16, ..self }
        } else if r == 0x03 {
            Channel {
                frequency: ((self.frequency & 0x00FF) | (((value & 0x0F) as u16) << 8)) as u16,
                ..self
            }
        } else if r == 0x04 {
            let on = value & 0x80 != 0;
            let dda = value & 0x40 != 0;
            let restarted = on && !self.on;
            Channel {
                on: on,
                dda: dda,
                volume: value & 0x1F,
                position: if restarted { 0 } else { self.position },
                counter: if restarted { 0 } else { self.counter },
                write_index: if !dda { 0 } else { self.write_index },
                ..self
            }
        } else if r == 0x05 {
            Channel { balance: [(value >> 4) & 0x0F, value & 0x0F], ..self }
        } else if r == 0x06 {
            if self.dda {
                Channel { dda_sample: value & 0x1F, ..self }
            } else {
                Channel {
                    wave: spec_array_update(self.wave, self.write_index as int, value & 0x1F),
                    write_index: ((self.write_index + 1) % 32) as u8,
                    ..self
                }
            }
        } else if r == 0x07 && noise_capable {
            Channel { noise_on: value & 0x80 != 0, noise_frequency: value & 0x1F, ..self }
        } else {
            self
        }
    }

    fn write_register(&mut self, r: u16, value: u8, noise_capable: bool)
        requires
            old(self).inv(),
        ensures
            final(self).inv(),
            *final(self) == old(self).register_written(r, value, noise_capable),
    {
        proof {
            lemma_u8(value, 0x1F);
            lemma_u8(value, 0x0F);
            lemma_u8(value >> 4u8, 0x0F);
        }
        let f = self.frequency;
        assert((f & 0x0F00) | (value as u16) <= 0xFFF) by {
            lemma_u16(f, 0x0F00);
            lemma_u16(f & 0x0F00, value as u16);
        }
        assert((f & 0x00FF) | (((value & 0x0F) as u16) << 8) <= 0xFFF) by {
            lemma_u16(f, 0x00FF);
            lemma_u16((value & 0x0F) as u16, 0);
            lemma_u16(f & 0x00FF, ((value & 0x0F) as u16) << 8u16);
        }
        if r == 0x02 {
            self.frequency = (self.frequency & 0x0F00) | (value as u16);
        } else if r == 0x03 {
            self.frequency = (self.frequency & 0x00FF) | (((value & 0x0F) as u16) << 8);
        } else if r == 0x04 {
            let was_on = self.on;
            self.on = value & 0x80 != 0;
            self.dda = value & 0x40 != 0;
            self.volume = value & 0x1F;
            if self.on && !was_on {
                self.position = 0;
                self.counter = 0;
            }
            if !self.dda {
                self.write_index = 0;
            }
        } else if r == 0x05 {
            self.balance = [(value >> 4) & 0x0F, value & 0x0F];
        } else if r == 0x06 {
            if self.dda {
                self.dda_sample = value & 0x1F;
            } else {
                self.wave[self.write_index as usize] = value & 0x1F;
                self.write_index = (self.write_index + 1) % 32;
            }
        } else if r == 0x07 && noise_capable {
            self.noise_on = value & 0x80 != 0;
            self.noise_frequency = value & 0x1F;
        }
    }
}

/// What channel `ch` adds to side `side`: its sample attenuated by its
/// volume, its balance for the side and the global balance for the side.
pub open spec fn contribution(ch: Channel, global: [u8; 2], side: int) -> i32 {
    let sample = ch.sample_value();
    if sample == 0 && !ch.on {
        0
    } else {
        attenuated(sample, ch.volume + ch.balance[side] + global[side])
    }
}

/// The sum of the first `n` channels' contributions to side `side`.
pub open spec fn side_sum(chs: Seq<Channel>, global: [u8; 2], side: int, n: nat) -> int
    decreases n,
{
    if n == 0 {
        0
    } else {
        side_sum(chs, global, side, (n - 1) as nat) + contribution(chs[n - 1], global, side)
    }
}

/// The HuC6280's PSG.
#[derive(Debug)]
#[verifier::ext_equal]
pub struct HuC6280 {
    pub rate: u32,
    pub channels: [Channel; 6],
    /// Which channel the banked registers address.
    pub selected: usize,
    /// Global attenuation, left then right, four bits each.
    pub global_balance: [u8; 2],
}

impl HuC6280 {
    pub open spec fn powered(rate: u32) -> HuC6280 {
        let c = Channel::cleared();
        HuC6280 {
            rate: rate,
            channels: [c, c, c, c, c, c],
            selected: 0,
            global_balance: spec_array_fill_for_copy_type(0u8),
        }
    }

    fn power_on(rate: u32) -> (chip: HuC6280)
        ensures
            chip == HuC6280::powered(rate),
            chip.inv(),
    {
        let c = Channel::new();
        let chip = HuC6280 {
            rate: rate,
            channels: [c, c, c, c, c, c],
            selected: 0,
            global_balance: [0u8; 2],
        };
        assert(chip.channels =~= HuC6280::powered(rate).channels);
        chip
    }

    /// A chip with no clock yet; `reset` gives it one.
    pub fn new() -> (chip: HuC6280)
        ensures
            chip == HuC6280::powered(44_100),
            chip.inv(),
    {
        Self::power_on(44_100)
    }

    pub open spec fn inv(self) -> bool {
        &&& forall|i: int| 0 <= i < 6 ==> #[trigger] self.channels[i].inv()
        &&& self.selected < 6
        &&& forall|i: int| 0 <= i < 2 ==> #[trigger] self.global_balance[i] <= 15
    }

    /// Applies one attenuation step count to a sample.
    pub fn attenuate(sample: i32, steps: usize) -> (s: i32)
        requires
            -16 <= sample <= 16,
        ensures
            s == attenuated(sample, steps as int),
            -16 <= s <= 16,
    {
        if steps >= 48 {
            return 0;
        }
        let gain = ATTENUATION[steps];
        proof {
            lemma_gains_bounded();
            assert(0 <= gain <= 65536);
        }
        assert(-16 * 65536 <= sample * gain <= 16 * 65536) by (nonlinear_arith)
            requires
                -16 <= sample <= 16,
                0 <= gain <= 65536,
        ;
        let product = sample * gain;
        proof {
            lemma_i32_shr(product);
        }
        product >> 16
    }

    /// The chip after a write of `data` to register `addr & 0x0F`.
    pub open spec fn written(self, addr: u16, data: u16) -> HuC6280 {
        let value = (data & 0xFF) as u8;
        let r = addr & 0x0F;
        if r == 0 {
            let v = value & 0x07;
            HuC6280 { selected: if v < 5 { v as usize } else { 5 }, ..self }
        } else if r == 1 {
            HuC6280 { global_balance: [(value >> 4) & 0x0F, value & 0x0F], ..self }
        } else {
            let s = self.selected as int;
            HuC6280 {
                channels: spec_array_update(
                    self.channels,
                    s,
                    self.channels[s].register_written(r, value, s >= 4),
                ),
                ..self
            }
        }
    }

    /// The chip one frame later: every channel advances by one output
    /// sample's worth of master clocks.
    pub open spec fn ticked(self) -> HuC6280 {
        let a = |i: int| self.channels[i].advanced_by(CYCLES_PER_SAMPLE);
        HuC6280 { channels: [a(0), a(1), a(2), a(3), a(4), a(5)], ..self }
    }

    /// The side totals of the current state, scaled to the per-channel peak.
    pub open spec fn mixed(self) -> (i32, i32) {
        (
            (side_sum(self.channels@, self.global_balance, 0, 6) * 250) as i32,
            (side_sum(self.channels@, self.global_balance, 1, 6) * 250) as i32,
        )
    }
}

impl ChipState for HuC6280 {
    open spec fn inv(&self) -> bool {
        HuC6280::inv(*self)
    }

    open spec fn stepped(&self) -> HuC6280 {
        self.ticked()
    }

    open spec fn frame(&self) -> (i32, i32) {
        self.ticked().mixed()
    }

    fn next_frame(&mut self) -> (f: (i32, i32)) {
        let ghost before = *self;
        let ghost after = before.ticked();
        let mut left: i32 = 0;
        let mut right: i32 = 0;
        let mut i: usize = 0;
        while i < 6
            invariant
                before.inv(),
                after == before.ticked(),
                i <= 6,
                self.rate == before.rate,
                self.selected == before.selected,
                self.global_balance == before.global_balance,
                forall|j: int| 0 <= j < i ==> self.channels[j] == after.channels[j],
                forall|j: int| i <= j < 6 ==> self.channels[j] == before.channels[j],
                forall|j: int| 0 <= j < 6 ==> #[trigger] self.channels[j].inv(),
                left == side_sum(after.channels@, before.global_balance, 0, i as nat),
                right == side_sum(after.channels@, before.global_balance, 1, i as nat),
                -16 * i <= left <= 16 * i,
                -16 * i <= right <= 16 * i,
            decreases 6 - i,
        {
            let mut ch = self.channels[i];
            ch.advance(CYCLES_PER_SAMPLE);
            self.channels[i] = ch;
            let sample = ch.sample();
            if !(sample == 0 && !ch.on) {
                assert(ch.balance[0] <= 15 && ch.balance[1] <= 15);
                let l = Self::attenuate(
                    sample,
                    ch.volume as usize + ch.balance[0] as usize + self.global_balance[0] as usize,
                );
                let r = Self::attenuate(
                    sample,
                    ch.volume as usize + ch.balance[1] as usize + self.global_balance[1] as usize,
                );
                left = left + l;
                right = right + r;
            }
            i = i + 1;
        }
        assert(self.channels =~= after.channels);
        (left * 250, right * 250)
    }
}

impl ChipCore for HuC6280 {
    fn reset(&mut self, clock: u32, variant: bool)
        ensures
            *final(self) == HuC6280::powered(
                if clock / CYCLES_PER_SAMPLE > 1 { clock / CYCLES_PER_SAMPLE } else { 1 },
            ),
    {
        let rate = clock / CYCLES_PER_SAMPLE;
        *self = Self::power_on(if rate > 1 { rate } else { 1 });
    }

    fn native_rate(&self) -> (rate: u32)
        ensures
            rate == self.rate,
    {
        self.rate
    }

    /// Registers `0x00`-`0x09`; everything from `0x02` on lands on the
    /// channel register `0x00` last selected.
    fn write(&mut self, port: u8, addr: u16, data: u16)
        ensures
            *final(self) == old(self).written(addr, data),
    {
        let value = (data & 0xFF) as u8;
        let r = addr & 0x0F;
        if r == 0 {
            let v = value & 0x07;
            self.selected = if v < 5 { v as usize } else { 5 };
        } else if r == 1 {
            assert((value >> 4) & 0x0F <= 15 && value & 0x0F <= 15) by {
                lemma_u8(value, 0x0F);
                lemma_u8(value >> 4u8, 0x0F);
            }
            self.global_balance = [(value >> 4) & 0x0F, value & 0x0F];
        } else {
            let s = self.selected;
            let mut ch = self.channels[s];
            ch.write_register(r, value, s >= 4);
            self.channels[s] = ch;
        }
    }
}

} // verus!
