//! The NES / Famicom APU: two pulses, a triangle, a noise channel and a DMC.
//!
//! # How it is clocked
//!
//! Everything runs off the CPU clock (1.789773 MHz on NTSC). The pulse and
//! noise timers tick on *APU* cycles, which are every second CPU cycle; the
//! triangle ticks every CPU cycle, which is why it sounds an octave higher
//! than its period suggests. A frame sequencer divides the CPU clock into
//! quarter- and half-frames that clock the envelopes, the sweeps and the
//! length counters.
//!
//! One output sample is the average of [`CYCLES_PER_SAMPLE`] cycles: the
//! average is the decimation filter.
//!
//! # The mixer is not linear
//!
//! The two DACs sum through a resistor network, so twice the level is not
//! twice the volume. The documented approximation is two lookup tables, one
//! indexed by the summed pulse volumes and one by `3*triangle + 2*noise +
//! dmc`, kept in integers so the output cannot differ across targets.
//!
//! Not modelled: the FDS add-on, and the open-bus behaviour of reads.

use vstd::prelude::*;
use crate::bits::{lemma_u16, lemma_u8};

use crate::chip::{div_trunc, image_loaded, load_image, ChipCore, ChipState};
use vstd::array::spec_array_update;

verus! {

/// CPU cycles averaged into one output sample.
pub const CYCLES_PER_SAMPLE: u32 = 32;

/// Peak amplitude of the whole chip, mono. The mixer tables are scaled to it.
pub const PEAK: i32 = 24_000;

/// Length-counter reload values, indexed by the top five bits of a `$4003`
/// style write.
pub const LENGTH_TABLE: [u8; 32] = [
    10, 254, 20, 2, 40, 4, 80, 6, 160, 8, 60, 10, 14, 12, 26, 14, 12, 16, 24, 18, 48, 20, 96, 22,
    192, 24, 72, 26, 16, 28, 32, 30,
];

/// Noise timer periods in APU cycles, NTSC.
pub const NOISE_PERIODS: [u16; 16] = [
    4, 8, 16, 32, 64, 96, 128, 160, 202, 254, 380, 508, 762, 1016, 2034, 4068,
];

/// DMC sample-rate periods in CPU cycles, NTSC.
pub const DMC_PERIODS: [u16; 16] = [
    428, 380, 340, 320, 286, 254, 226, 214, 190, 160, 142, 128, 106, 84, 72, 54,
];

/// The four pulse duty cycles, as the eight-step sequences they are.
pub const DUTY: [[u8; 8]; 4] = [
    [0, 1, 0, 0, 0, 0, 0, 0],
    [0, 1, 1, 0, 0, 0, 0, 0],
    [0, 1, 1, 1, 1, 0, 0, 0],
    [1, 0, 0, 1, 1, 1, 1, 1],
];

/// The triangle's 32-step sequence: down from 15 and back up.
pub const TRIANGLE_STEPS: [i32; 32] = [
    15, 14, 13, 12, 11, 10, 9, 8, 7, 6, 5, 4, 3, 2, 1, 0, 0, 1, 2, 3, 4, 5, 6, 7, 8, 9, 10, 11, 12,
    13, 14, 15,
];

/// Frame-sequencer step boundaries in CPU cycles, NTSC, four-step mode.
pub const FRAME_STEPS_4: [u32; 4] = [7457, 14_913, 22_371, 29_829];

/// Five-step mode. Its fourth step clocks nothing.
pub const FRAME_STEPS_5: [u32; 5] = [7457, 14_913, 22_371, 29_829, 37_281];

pub open spec fn length_entry(index: int) -> u8 {
    LENGTH_TABLE[index]
}

pub open spec fn triangle_level(step: int) -> i32 {
    TRIANGLE_STEPS[step]
}

pub open spec fn duty_bit(duty: int, step: int) -> u8 {
    DUTY[duty][step]
}

pub proof fn lemma_tables_bounded()
    ensures
        forall|s: int| 0 <= s < 32 ==> 0 <= #[trigger] triangle_level(s) <= 15,
        forall|i: int| 0 <= i < 16 ==> #[trigger] NOISE_PERIODS@[i] <= 4068,
        forall|i: int| 0 <= i < 16 ==> #[trigger] DMC_PERIODS@[i] <= 428,
{
    assert(TRIANGLE_STEPS@ =~= seq![
        15i32, 14, 13, 12, 11, 10, 9, 8, 7, 6, 5, 4, 3, 2, 1, 0, 0, 1, 2, 3, 4, 5, 6, 7, 8, 9, 10,
        11, 12, 13, 14, 15,
    ]);
    assert(NOISE_PERIODS@ =~= seq![
        4u16, 8, 16, 32, 64, 96, 128, 160, 202, 254, 380, 508, 762, 1016, 2034, 4068,
    ]);
    assert(DMC_PERIODS@ =~= seq![
        428u16, 380, 340, 320, 286, 254, 226, 214, 190, 160, 142, 128, 106, 84, 72, 54,
    ]);
}

/// A four-bit envelope generator, shared by the pulses and the noise.
#[derive(Debug, Clone, Copy)]
pub struct Envelope {
    /// The period, and the constant volume when `constant` is set.
    pub volume: u8,
    pub constant: bool,
    /// Also the length counter's halt flag.
    pub loops: bool,
    pub start: bool,
    pub divider: u8,
    pub decay: u8,
}

impl Envelope {
    pub open spec fn cleared() -> Envelope {
        Envelope { volume: 0, constant: false, loops: false, start: false, divider: 0, decay: 0 }
    }

    pub open spec fn inv(self) -> bool {
        &&& self.volume <= 15
        &&& self.divider <= 15
        &&& self.decay <= 15
    }

    /// One quarter-frame tick: a pending start reloads the decay at 15;
    /// otherwise the divider counts down and each expiry takes the decay one
    /// step down, or back to 15 when it loops.
    pub open spec fn clocked(self) -> Envelope {
        if self.start {
            Envelope { start: false, decay: 15, divider: self.volume, ..self }
        } else if self.divider == 0 {
            Envelope {
                divider: self.volume,
                decay: if self.decay > 0 {
                    (self.decay - 1) as u8
                } else if self.loops {
                    15
                } else {
                    0
                },
                ..self
            }
        } else {
            Envelope { divider: (self.divider - 1) as u8, ..self }
        }
    }

    fn clock(&mut self)
        requires
            old(self).inv(),
        ensures
            final(self).inv(),
            *final(self) == old(self).clocked(),
    {
        if self.start {
            self.start = false;
            self.decay = 15;
            self.divider = self.volume;
        } else if self.divider == 0 {
            self.divider = self.volume;
            if self.decay > 0 {
                self.decay -= 1;
            } else if self.loops {
                self.decay = 15;
            }
        } else {
            self.divider -= 1;
        }
    }

    pub open spec fn level(self) -> i32 {
        if self.constant {
            self.volume as i32
        } else {
            self.decay as i32
        }
    }

    fn output(&self) -> (l: i32)
        requires
            self.inv(),
        ensures
            l == self.level(),
            0 <= l <= 15,
    {
        if self.constant {
            self.volume as i32
        } else {
            self.decay as i32
        }
    }
}

/// An envelope `n` quarter-frame ticks later.
pub open spec fn envelope_after(e: Envelope, n: nat) -> Envelope
    decreases n,
{
    if n == 0 {
        e
    } else {
        envelope_after(e, (n - 1) as nat).clocked()
    }
}

/// What one tick does to a decaying envelope: a start reloads the decay at
/// 15; otherwise the decay counts down by one each time the divider runs
/// out and holds while the divider counts; at 0 it stays at 0 unless the
/// loop flag is set, which alone brings it back to 15.
pub proof fn lemma_envelope_decay_step(e: Envelope)
    requires
        e.inv(),
    ensures
        e.start ==> e.clocked().decay == 15 && !e.clocked().start,
        !e.start && e.divider > 0 ==> e.clocked().decay == e.decay && e.clocked().divider
            == e.divider - 1,
        !e.start && e.divider == 0 && e.decay > 0 ==> e.clocked().decay == e.decay - 1,
        !e.start && e.divider == 0 && e.decay == 0 && e.loops ==> e.clocked().decay == 15,
        !e.start && !e.loops ==> e.clocked().decay <= e.decay,
        !e.start && !e.loops && e.decay == 0 ==> e.clocked().decay == 0,
        e.clocked().inv(),
{
}

/// Without the loop flag a silenced envelope stays silent: once its decay
/// has reached 0 with no start pending, every later tick leaves it at 0.
pub proof fn lemma_envelope_stays_silent(e: Envelope, n: nat)
    requires
        e.inv(),
        !e.start,
        !e.loops,
        e.decay == 0,
    ensures
        envelope_after(e, n).decay == 0,
        !envelope_after(e, n).start,
        !envelope_after(e, n).loops,
        envelope_after(e, n).inv(),
    decreases n,
{
    if n > 0 {
        lemma_envelope_stays_silent(e, (n - 1) as nat);
        lemma_envelope_decay_step(envelope_after(e, (n - 1) as nat));
    }
}

/// A length counter: what silences a channel when its note ends.
#[derive(Debug, Clone, Copy)]
pub struct Length {
    pub counter: u8,
    pub enabled: bool,
}

impl Length {
    pub open spec fn cleared() -> Length {
        Length { counter: 0, enabled: false }
    }

    /// One half-frame tick; `halt` is the channel's own halt flag.
    pub open spec fn clocked(self, halt: bool) -> Length {
        if !halt && self.counter > 0 {
            Length { counter: (self.counter - 1) as u8, ..self }
        } else {
            self
        }
    }

    fn clock(&mut self, halt: bool)
        ensures
            *final(self) == old(self).clocked(halt),
    {
        if !halt && self.counter > 0 {
            self.counter -= 1;
        }
    }

    /// Disabling a channel through `$4015` clears its counter outright.
    pub open spec fn with_enabled(self, enabled: bool) -> Length {
        Length { enabled, counter: if enabled { self.counter } else { 0 } }
    }

    fn set_enabled(&mut self, enabled: bool)
        ensures
            *final(self) == old(self).with_enabled(enabled),
    {
        self.enabled = enabled;
        if !enabled {
            self.counter = 0;
        }
    }

    /// A note's length, from the table, when the channel is enabled.
    pub open spec fn loaded(self, index: u8) -> Length {
        if self.enabled {
            Length { counter: length_entry((index & 0x1F) as int), ..self }
        } else {
            self
        }
    }

    fn load(&mut self, index: u8)
        ensures
            *final(self) == old(self).loaded(index),
    {
        if self.enabled {
            assert(index & 0x1F < 32) by {
                lemma_u8(index, 0x1F);
            }
            self.counter = LENGTH_TABLE[(index & 0x1F) as usize];
        }
    }

    pub open spec fn active(self) -> bool {
        self.counter > 0
    }
}

/// One of the two pulse channels.
#[derive(Debug, Clone, Copy)]
pub struct Pulse {
    pub envelope: Envelope,
    pub length: Length,
    pub duty: u8,
    /// Eleven bits, and one more than the divider it drives.
    pub timer: u16,
    pub counter: u16,
    pub step: u8,
    pub sweep_enabled: bool,
    pub sweep_period: u8,
    pub sweep_negate: bool,
    pub sweep_shift: u8,
    pub sweep_reload: bool,
    pub sweep_divider: u8,
    /// Pulse 1 negates with an extra -1; pulse 2 does not.
    pub ones_complement: bool,
}

impl Pulse {
    pub open spec fn cleared() -> Pulse {
        Pulse {
            envelope: Envelope::cleared(),
            length: Length::cleared(),
            duty: 0,
            timer: 0,
            counter: 0,
            step: 0,
            sweep_enabled: false,
            sweep_period: 0,
            sweep_negate: false,
            sweep_shift: 0,
            sweep_reload: false,
            sweep_divider: 0,
            ones_complement: false,
        }
    }

    pub open spec fn inv(self) -> bool {
        &&& self.envelope.inv()
        &&& self.duty <= 3
        &&& self.timer <= 0x7FF
        &&& self.counter <= 0x7FF
        &&& self.step <= 7
        &&& self.sweep_period <= 7
        &&& self.sweep_shift <= 7
        &&& self.sweep_divider <= 7
    }

    /// One APU cycle of the sequencer.
    pub open spec fn clocked(self) -> Pulse {
        if self.counter == 0 {
            Pulse { counter: self.timer, step: ((self.step + 1) as u8) & 7, ..self }
        } else {
            Pulse { counter: (self.counter - 1) as u16, ..self }
        }
    }

    pub fn clock(&mut self)
        requires
            old(self).inv(),
        ensures
            final(self).inv(),
            *final(self) == old(self).clocked(),
    {
        if self.counter == 0 {
            self.counter = self.timer;
            let s = self.step;
            assert(((s + 1) as u8) & 7 <= 7) by {
                lemma_u8((s + 1) as u8, 7);
            }
            self.step = (self.step + 1) & 7;
        } else {
            self.counter -= 1;
        }
    }

    /// The period the sweep unit aims at: the timer plus or minus itself
    /// shifted right, pulse 1 subtracting one more; never below zero.
    pub open spec fn target(self) -> int {
        let change = (self.timer >> self.sweep_shift) as int;
        if self.sweep_negate {
            let c = if self.ones_complement { change + 1 } else { change };
            if self.timer >= c { self.timer - c } else { 0 }
        } else {
            self.timer + change
        }
    }

    fn target_period(&self) -> (t: u16)
        requires
            self.inv(),
        ensures
            t == self.target(),
    {
        let timer = self.timer;
        let shift = self.sweep_shift;
        assert(timer >> shift <= timer) by {
            lemma_u16(timer, shift as u16);
        }
        let change = self.timer >> self.sweep_shift;
        if self.sweep_negate {
            let change = if self.ones_complement { change + 1 } else { change };
            self.timer.saturating_sub(change)
        } else {
            self.timer + change
        }
    }

    /// A period below 8, or a sweep target past eleven bits, silences the
    /// channel while its sequencer keeps running.
    pub open spec fn is_muted(self) -> bool {
        self.timer < 8 || self.target() > 0x7FF
    }

    fn muted(&self) -> (m: bool)
        requires
            self.inv(),
        ensures
            m == self.is_muted(),
    {
        self.timer < 8 || self.target_period() > 0x7FF
    }

    /// One half-frame tick of the sweep unit.
    pub open spec fn sweep_clocked(self) -> Pulse {
        let swept = if self.sweep_divider == 0 && self.sweep_enabled && self.sweep_shift > 0
            && !self.is_muted() {
            Pulse { timer: self.target() as u16, ..self }
        } else {
            self
        };
        if swept.sweep_divider == 0 || swept.sweep_reload {
            Pulse { sweep_divider: swept.sweep_period, sweep_reload: false, ..swept }
        } else {
            Pulse { sweep_divider: (swept.sweep_divider - 1) as u8, ..swept }
        }
    }

    fn clock_sweep(&mut self)
        requires
            old(self).inv(),
        ensures
            final(self).inv(),
            *final(self) == old(self).sweep_clocked(),
    {
        if self.sweep_divider == 0 && self.sweep_enabled && self.sweep_shift > 0 && !self.muted() {
            self.timer = self.target_period();
        }
        if self.sweep_divider == 0 || self.sweep_reload {
            self.sweep_divider = self.sweep_period;
            self.sweep_reload = false;
        } else {
            self.sweep_divider -= 1;
        }
    }

    /// One half-frame: the length counter (halted by the envelope's loop
    /// flag), then the sweep.
    pub open spec fn half_clocked(self) -> Pulse {
        Pulse { length: self.length.clocked(self.envelope.loops), ..self }.sweep_clocked()
    }

    fn clock_half(&mut self)
        requires
            old(self).inv(),
        ensures
            final(self).inv(),
            *final(self) == old(self).half_clocked(),
    {
        let halt = self.envelope.loops;
        self.length.clock(halt);
        self.clock_sweep();
    }

    pub open spec fn level(self) -> i32 {
        if self.is_muted() || !self.length.active() || duty_bit(
            self.duty as int,
            self.step as int,
        ) == 0 {
            0
        } else {
            self.envelope.level()
        }
    }

    fn output(&self) -> (l: i32)
        requires
            self.inv(),
        ensures
            l == self.level(),
            0 <= l <= 15,
    {
        if self.muted() || self.length.counter == 0 || DUTY[self.duty as usize][self.step as usize]
            == 0 {
            0
        } else {
            self.envelope.output()
        }
    }
}

impl Pulse {
    /// The pulse after value `v` lands in its register `kind` (`$4000` to
    /// `$4003` and their pulse-2 twins, taken `& 3`). The last restarts the
    /// envelope and the sequence, which is what makes a retrigger audible.
    pub open spec fn register_set(self, kind: u8, v: u8) -> Pulse {
        if kind == 0 {
            Pulse {
                duty: v >> 6u8,
                envelope: Envelope {
                    loops: v & 0x20 != 0,
                    constant: v & 0x10 != 0,
                    volume: v & 0x0F,
                    ..self.envelope
                },
                ..self
            }
        } else if kind == 1 {
            Pulse {
                sweep_enabled: v & 0x80 != 0,
                sweep_period: (v >> 4u8) & 7,
                sweep_negate: v & 0x08 != 0,
                sweep_shift: v & 7,
                sweep_reload: true,
                ..self
            }
        } else if kind == 2 {
            Pulse { timer: ((self.timer & 0x700) | (v as u16)) as u16, ..self }
        } else {
            Pulse {
                timer: ((self.timer & 0x0FF) | (((v & 7) as u16) << 8u16)) as u16,
                length: self.length.loaded(v >> 3u8),
                envelope: Envelope { start: true, ..self.envelope },
                step: 0,
                ..self
            }
        }
    }

    fn write_register(&mut self, kind: u8, v: u8)
        requires
            old(self).inv(),
            kind <= 3,
        ensures
            final(self).inv(),
            *final(self) == old(self).register_set(kind, v),
    {
        let t = self.timer;
        assert(v >> 6u8 <= 3 && (v >> 4u8) & 7 <= 7 && v & 7 <= 7 && v & 0x0F <= 15) by {
            lemma_u8(v, 7);
            lemma_u8(v, 0x0F);
            lemma_u8(v >> 4u8, 7);
        }
        assert((t & 0x700) | (v as u16) <= 0x7FF) by {
            lemma_u16(t, 0x700);
            lemma_u16(t & 0x700, v as u16);
        }
        assert((t & 0x0FF) | (((v & 7) as u16) << 8u16) <= 0x7FF) by {
            lemma_u16(t, 0x0FF);
            lemma_u8(v, 7);
            lemma_u16((v & 7) as u16, 0);
            lemma_u16(t & 0x0FF, ((v & 7) as u16) << 8u16);
        }
        if kind == 0 {
            self.duty = v >> 6;
            self.envelope.loops = v & 0x20 != 0;
            self.envelope.constant = v & 0x10 != 0;
            self.envelope.volume = v & 0x0F;
        } else if kind == 1 {
            self.sweep_enabled = v & 0x80 != 0;
            self.sweep_period = (v >> 4) & 7;
            self.sweep_negate = v & 0x08 != 0;
            self.sweep_shift = v & 7;
            self.sweep_reload = true;
        } else if kind == 2 {
            self.timer = (self.timer & 0x700) | (v as u16);
        } else {
            self.timer = (self.timer & 0x0FF) | (((v & 7) as u16) << 8);
            self.length.load(v >> 3);
            self.envelope.start = true;
            self.step = 0;
        }
    }
}

/// The triangle channel, which has no volume control: only on or off.
#[derive(Debug, Clone, Copy)]
pub struct Triangle {
    pub length: Length,
    pub timer: u16,
    pub counter: u16,
    pub step: u8,
    pub linear_reload_value: u8,
    pub linear_counter: u8,
    pub linear_reload: bool,
    /// The control flag, which doubles as the length counter's halt.
    pub control: bool,
}

impl Triangle {
    pub open spec fn cleared() -> Triangle {
        Triangle {
            length: Length::cleared(),
            timer: 0,
            counter: 0,
            step: 0,
            linear_reload_value: 0,
            linear_counter: 0,
            linear_reload: false,
            control: false,
        }
    }

    pub open spec fn inv(self) -> bool {
        &&& self.timer <= 0x7FF
        &&& self.counter <= 0x7FF
        &&& self.step <= 31
        &&& self.linear_reload_value <= 0x7F
        &&& self.linear_counter <= 0x7F
    }

    /// One CPU cycle: the sequence steps only while both counters run.
    pub open spec fn clocked(self) -> Triangle {
        if self.counter == 0 {
            Triangle {
                counter: self.timer,
                step: if self.linear_counter > 0 && self.length.active() {
                    ((self.step + 1) as u8) & 31
                } else {
                    self.step
                },
                ..self
            }
        } else {
            Triangle { counter: (self.counter - 1) as u16, ..self }
        }
    }

    fn clock(&mut self)
        requires
            old(self).inv(),
        ensures
            final(self).inv(),
            *final(self) == old(self).clocked(),
    {
        if self.counter == 0 {
            self.counter = self.timer;
            if self.linear_counter > 0 && self.length.counter > 0 {
                let s = self.step;
                assert(((s + 1) as u8) & 31 <= 31) by {
                    lemma_u8((s + 1) as u8, 31);
                }
                self.step = (self.step + 1) & 31;
            }
        } else {
            self.counter -= 1;
        }
    }

    /// One quarter-frame tick of the linear counter.
    pub open spec fn linear_clocked(self) -> Triangle {
        let counter = if self.linear_reload {
            self.linear_reload_value
        } else if self.linear_counter > 0 {
            (self.linear_counter - 1) as u8
        } else {
            self.linear_counter
        };
        Triangle {
            linear_counter: counter,
            linear_reload: if !self.control { false } else { self.linear_reload },
            ..self
        }
    }

    fn clock_linear(&mut self)
        requires
            old(self).inv(),
        ensures
            final(self).inv(),
            *final(self) == old(self).linear_clocked(),
    {
        if self.linear_reload {
            self.linear_counter = self.linear_reload_value;
        } else if self.linear_counter > 0 {
            self.linear_counter -= 1;
        }
        if !self.control {
            self.linear_reload = false;
        }
    }

    /// Ultrasonic periods are muted rather than emitted.
    pub open spec fn level(self) -> i32 {
        if self.timer < 2 || !self.length.active() || self.linear_counter == 0 {
            0
        } else {
            triangle_level(self.step as int)
        }
    }

    fn output(&self) -> (l: i32)
        requires
            self.inv(),
        ensures
            l == self.level(),
            0 <= l <= 15,
    {
        proof {
            lemma_tables_bounded();
        }
        if self.timer < 2 || self.length.counter == 0 || self.linear_counter == 0 {
            0
        } else {
            TRIANGLE_STEPS[self.step as usize]
        }
    }
}

/// The noise channel: a fifteen-bit shift register and an envelope.
#[derive(Debug, Clone, Copy)]
pub struct Noise {
    pub envelope: Envelope,
    pub length: Length,
    /// Feedback from bit 6 instead of bit 1: a short, tonal buzz.
    pub short_mode: bool,
    pub period: u16,
    pub counter: u16,
    pub shift: u16,
}

/// The shift register one step on: feedback from bit 0 against bit 1 (bit 6
/// in short mode) enters at bit 14.
pub open spec fn noise_shifted(shift: u16, short: bool) -> u16 {
    let tap: u16 = if short { 6 } else { 1 };
    let feedback = (shift & 1) ^ ((shift >> tap) & 1);
    (shift >> 1u16) | (feedback << 14u16)
}

impl Noise {
    /// The power-on state. A zero register would never produce feedback.
    pub open spec fn cleared() -> Noise {
        Noise {
            envelope: Envelope::cleared(),
            length: Length::cleared(),
            short_mode: false,
            period: 4,
            counter: 4,
            shift: 1,
        }
    }

    pub open spec fn inv(self) -> bool {
        &&& self.envelope.inv()
        &&& self.period <= 4068
        &&& self.counter <= 4068
    }

    /// One APU cycle.
    pub open spec fn clocked(self) -> Noise {
        if self.counter == 0 {
            Noise { counter: self.period, shift: noise_shifted(self.shift, self.short_mode), ..self }
        } else {
            Noise { counter: (self.counter - 1) as u16, ..self }
        }
    }

    pub fn clock(&mut self)
        requires
            old(self).inv(),
        ensures
            final(self).inv(),
            *final(self) == old(self).clocked(),
    {
        if self.counter == 0 {
            self.counter = self.period;
            let tap: u16 = if self.short_mode { 6 } else { 1 };
            let feedback = (self.shift & 1) ^ ((self.shift >> tap) & 1);
            self.shift = (self.shift >> 1) | (feedback << 14);
        } else {
            self.counter -= 1;
        }
    }

    pub open spec fn level(self) -> i32 {
        if self.shift & 1 == 1 || !self.length.active() {
            0
        } else {
            self.envelope.level()
        }
    }

    fn output(&self) -> (l: i32)
        requires
            self.inv(),
        ensures
            l == self.level(),
            0 <= l <= 15,
    {
        if self.shift & 1 == 1 || self.length.counter == 0 {
            0
        } else {
            self.envelope.output()
        }
    }
}

impl Default for Noise {
    fn default() -> (n: Noise)
        ensures
            n == Noise::cleared(),
    {
        Noise {
            envelope: Envelope { volume: 0, constant: false, loops: false, start: false, divider: 0, decay: 0 },
            length: Length { counter: 0, enabled: false },
            short_mode: false,
            period: NOISE_PERIODS[0],
            counter: NOISE_PERIODS[0],
            shift: 1,
        }
    }
}


/// The delta-modulation channel: seven-bit PCM played by stepping a level.
///
/// On hardware it reads its samples from CPU memory. A VGM has no CPU, so the
/// bytes arrive as a RAM-write block and `memory` stands in for the window
/// at `$C000`.
#[derive(Debug)]
pub struct Dmc {
    pub enabled: bool,
    pub loops: bool,
    pub period: u16,
    pub counter: u16,
    /// The seven-bit output level: audible even with no sample playing.
    pub level: u8,
    pub sample_address: u16,
    pub sample_length: u16,
    pub current_address: u16,
    pub bytes_remaining: u16,
    pub shift: u8,
    pub bits_remaining: u8,
    pub buffer: Option<u8>,
    pub silence: bool,
    /// Sample bytes, as delivered by RAM-write blocks.
    pub memory: Vec<u8>,
}

/// The byte the DMC reads at CPU address `address`: the memory window starts
/// at `$C000`, and an address past what was delivered reads as zero.
pub open spec fn dmc_byte(memory: Seq<u8>, address: u16) -> u8 {
    let index = if address >= 0xC000 { address - 0xC000 } else { address + 0x4000 };
    if index < memory.len() {
        memory[index]
    } else {
        0
    }
}

impl Dmc {
    pub open spec fn cleared(memory: Vec<u8>) -> Dmc {
        Dmc {
            enabled: false,
            loops: false,
            period: 0,
            counter: 0,
            level: 0,
            sample_address: 0,
            sample_length: 0,
            current_address: 0,
            bytes_remaining: 0,
            shift: 0,
            bits_remaining: 0,
            buffer: None,
            silence: false,
            memory,
        }
    }

    pub open spec fn inv(self) -> bool {
        &&& self.period <= 428
        &&& self.counter <= 428
        &&& self.level <= 127
        &&& self.bits_remaining <= 8
    }

    pub open spec fn restarted(self) -> Dmc {
        Dmc { current_address: self.sample_address, bytes_remaining: self.sample_length, ..self }
    }

    fn restart(&mut self)
        ensures
            *final(self) == old(self).restarted(),
    {
        self.current_address = self.sample_address;
        self.bytes_remaining = self.sample_length;
    }

    /// The sample buffer refilled, when it is empty and bytes remain: the
    /// address wraps from `$FFFF` to `$8000`, and a looping sample restarts
    /// when its last byte is read.
    pub open spec fn fetched(self) -> Dmc {
        if self.bytes_remaining == 0 || self.buffer is Some {
            self
        } else {
            let next = Dmc {
                buffer: Some(dmc_byte(self.memory@, self.current_address)),
                current_address: if self.current_address == 0xFFFF {
                    0x8000
                } else {
                    (self.current_address + 1) as u16
                },
                bytes_remaining: (self.bytes_remaining - 1) as u16,
                ..self
            };
            if next.bytes_remaining == 0 && next.loops {
                next.restarted()
            } else {
                next
            }
        }
    }

    fn fetch(&mut self)
        requires
            old(self).inv(),
        ensures
            final(self).inv(),
            *final(self) == old(self).fetched(),
    {
        if self.bytes_remaining == 0 || self.buffer.is_some() {
            return;
        }
        let index: usize = if self.current_address >= 0xC000 {
            (self.current_address - 0xC000) as usize
        } else {
            (self.current_address + 0x4000) as usize
        };
        let byte = if index < self.memory.len() { self.memory[index] } else { 0 };
        self.buffer = Some(byte);
        self.current_address = if self.current_address == 0xFFFF {
            0x8000
        } else {
            self.current_address + 1
        };
        self.bytes_remaining -= 1;
        if self.bytes_remaining == 0 && self.loops {
            self.restart();
        }
    }

    /// One CPU cycle. On each expiry of the rate divider the output level
    /// moves two steps by the next bit (held within seven bits, and not at
    /// all while silent), and after eight bits the next byte, if one was
    /// fetched, becomes the shift register.
    pub open spec fn clocked(self) -> Dmc {
        if self.counter > 0 {
            Dmc { counter: (self.counter - 1) as u16, ..self }
        } else {
            let level = if self.silence {
                self.level
            } else if self.shift & 1 == 1 {
                if self.level <= 125 { (self.level + 2) as u8 } else { self.level }
            } else if self.level >= 2 {
                (self.level - 2) as u8
            } else {
                self.level
            };
            let bits = if self.bits_remaining > 0 {
                (self.bits_remaining - 1) as u8
            } else {
                0u8
            };
            let shifted = Dmc {
                counter: self.period,
                level,
                shift: self.shift >> 1u8,
                bits_remaining: bits,
                ..self
            };
            let reloaded = if bits == 0 {
                match self.buffer {
                    Some(byte) => Dmc {
                        bits_remaining: 8,
                        buffer: None,
                        silence: false,
                        shift: byte,
                        ..shifted
                    },
                    None => Dmc { bits_remaining: 8, silence: true, ..shifted },
                }
            } else {
                shifted
            };
            reloaded.fetched()
        }
    }

    fn clock(&mut self)
        requires
            old(self).inv(),
        ensures
            final(self).inv(),
            *final(self) == old(self).clocked(),
    {
        if self.counter > 0 {
            self.counter -= 1;
            return;
        }
        self.counter = self.period;
        if !self.silence {
            if self.shift & 1 == 1 {
                if self.level <= 125 {
                    self.level += 2;
                }
            } else if self.level >= 2 {
                self.level -= 2;
            }
        }
        self.shift >>= 1;
        if self.bits_remaining > 0 {
            self.bits_remaining -= 1;
        }
        if self.bits_remaining == 0 {
            self.bits_remaining = 8;
            let taken = self.buffer;
            self.buffer = None;
            match taken {
                Some(byte) => {
                    self.silence = false;
                    self.shift = byte;
                },
                None => self.silence = true,
            }
        }
        self.fetch();
    }
}

/// What a frame-sequencer step clocks.
#[derive(Debug, Clone, Copy, PartialEq, Eq)]
pub enum FrameTick {
    Nothing,
    /// Envelopes and the triangle's linear counter.
    Quarter,
    /// Those, plus the length counters and the sweeps.
    Half,
}

/// The frame sequencer: the divider that clocks envelopes and lengths.
#[derive(Debug, Clone, Copy)]
pub struct FrameCounter {
    pub cycles: u32,
    pub step: usize,
    pub five_step: bool,
}

/// The number of steps in a sequence of the given mode.
pub open spec fn frame_steps(five_step: bool) -> int {
    if five_step {
        5
    } else {
        4
    }
}

/// The cycle at which step `step` of the given mode falls due.
pub open spec fn frame_boundary(five_step: bool, step: int) -> u32 {
    if five_step {
        FRAME_STEPS_5[step]
    } else {
        FRAME_STEPS_4[step]
    }
}

impl FrameCounter {
    pub open spec fn cleared() -> FrameCounter {
        FrameCounter { cycles: 0, step: 0, five_step: false }
    }

    pub open spec fn inv(self) -> bool {
        &&& self.step < frame_steps(self.five_step)
        &&& self.cycles < frame_boundary(self.five_step, self.step as int)
    }

    /// One CPU cycle, and what it clocks. Steps fall due at the boundaries;
    /// after the last the sequence starts over. Step 2 and the last clock a
    /// half-frame, the others a quarter, except that five-step mode's fourth
    /// clocks nothing.
    pub open spec fn ticked(self) -> (FrameCounter, FrameTick) {
        let cycles = (self.cycles + 1) as u32;
        if cycles < frame_boundary(self.five_step, self.step as int) {
            (FrameCounter { cycles, ..self }, FrameTick::Nothing)
        } else {
            let step = self.step + 1;
            let last = step == frame_steps(self.five_step);
            let next = if last {
                FrameCounter { cycles: 0, step: 0, ..self }
            } else {
                FrameCounter { cycles, step: step as usize, ..self }
            };
            let tick = if self.five_step && step == 4 {
                FrameTick::Nothing
            } else if step == 2 || last {
                FrameTick::Half
            } else {
                FrameTick::Quarter
            };
            (next, tick)
        }
    }

    fn clock(&mut self) -> (tick: FrameTick)
        requires
            old(self).inv(),
        ensures
            final(self).inv(),
            (*final(self), tick) == old(self).ticked(),
    {
        assert(FRAME_STEPS_4@ =~= seq![7457u32, 14_913, 22_371, 29_829]);
        assert(FRAME_STEPS_5@ =~= seq![7457u32, 14_913, 22_371, 29_829, 37_281]);
        self.cycles += 1;
        let boundary = if self.five_step {
            FRAME_STEPS_5[self.step]
        } else {
            FRAME_STEPS_4[self.step]
        };
        if self.cycles < boundary {
            return FrameTick::Nothing;
        }
        self.step += 1;
        let count: usize = if self.five_step { 5 } else { 4 };
        let last = self.step == count;
        if last {
            self.step = 0;
            self.cycles = 0;
        }
        if self.five_step && self.step == 4 {
            FrameTick::Nothing
        } else if self.step == 2 || last {
            FrameTick::Half
        } else {
            FrameTick::Quarter
        }
    }
}


/// `PULSE_TABLE[n]` is what the summed pulse volumes `n` are worth: the
/// documented `95.52 / (8128 / n + 100)`, scaled by [`PEAK`].
pub const PULSE_TABLE: [i32; 31] = [
    0, 279, 551, 816, 1075, 1329, 1576, 1818, 2054, 2285, 2511, 2733, 2949, 3161, 3368, 3572, 3771,
    3965, 4156, 4344, 4527, 4707, 4883, 5056, 5226, 5393, 5556, 5716, 5874, 6028, 6180,
];

/// `TND_TABLE[n]` is what `3*triangle + 2*noise + dmc == n` is worth: the
/// documented `163.67 / (24329 / n + 100)`, same scaling.
pub const TND_TABLE: [i32; 203] = [
    0, 161, 320, 478, 635, 791, 945, 1099, 1251, 1401, 1551, 1699, 1846, 1992, 2137, 2281, 2424,
    2565, 2706, 2845, 2984, 3121, 3257, 3393, 3527, 3660, 3793, 3924, 4054, 4184, 4312, 4439, 4566,
    4692, 4816, 4940, 5063, 5185, 5307, 5427, 5546, 5665, 5783, 5900, 6016, 6131, 6246, 6360, 6473,
    6585, 6697, 6807, 6917, 7027, 7135, 7243, 7350, 7456, 7562, 7667, 7771, 7874, 7977, 8080, 8181,
    8282, 8382, 8482, 8581, 8679, 8777, 8874, 8970, 9066, 9161, 9256, 9350, 9443, 9536, 9629, 9720,
    9811, 9902, 9992, 10082, 10170, 10259, 10347, 10434, 10521, 10607, 10693, 10778, 10863, 10947,
    11031, 11114, 11197, 11279, 11361, 11442, 11523, 11604, 11684, 11763, 11842, 11921, 11999,
    12076, 12154, 12230, 12307, 12383, 12458, 12533, 12608, 12682, 12756, 12829, 12902, 12975,
    13047, 13119, 13190, 13262, 13332, 13402, 13472, 13542, 13611, 13680, 13748, 13816, 13884,
    13951, 14018, 14085, 14151, 14217, 14282, 14348, 14413, 14477, 14541, 14605, 14669, 14732,
    14795, 14857, 14920, 14982, 15043, 15105, 15166, 15226, 15287, 15347, 15407, 15466, 15525,
    15584, 15643, 15701, 15759, 15817, 15874, 15932, 15988, 16045, 16101, 16158, 16213, 16269,
    16324, 16379, 16434, 16488, 16543, 16597, 16650, 16704, 16757, 16810, 16863, 16915, 16967,
    17019, 17071, 17123, 17174, 17225, 17276, 17326, 17377, 17427, 17476, 17526, 17576, 17625,
    17674, 17722, 17771, 17819,
];

/// The mixer tables are non-negative and rise to their last entries.
pub proof fn lemma_mixer_tables_bounded()
    ensures
        forall|i: int| 0 <= i < 31 ==> 0 <= #[trigger] PULSE_TABLE@[i] <= 6180,
        forall|i: int| 0 <= i < 203 ==> 0 <= #[trigger] TND_TABLE@[i] <= 17819,
{
    assert forall|i: int| 0 <= i < 31 implies 0 <= #[trigger] PULSE_TABLE@[i] <= 6180 by {
        assert(PULSE_TABLE@[i] == PULSE_TABLE[i]);
    }
    assert forall|i: int| 0 <= i < 203 implies 0 <= #[trigger] TND_TABLE@[i] <= 17819 by {
        assert(TND_TABLE@[i] == TND_TABLE[i]);
    }
}


/// Fixed-point fraction bits for the DC blocker.
pub const DC_SHIFT: u32 = 16;

/// The blocker's pole, `0.9975` in [`DC_SHIFT`] fixed point. The APU's output
/// is unipolar; hardware has a coupling capacitor, and this is it.
pub const DC_POLE: i64 = 65_372;

/// A bound the blocker's output never leaves: the pole's decay outweighs the
/// largest step the input can take.
pub const DC_BOUND: i64 = 10_000_000;

/// The DC blocker's output for `input`, after `prev_in` and `prev_out`: the
/// pole's product divided (rounding toward zero, not shifted) back down.
pub open spec fn dc_output(prev_in: int, prev_out: int, input: int) -> int {
    input - prev_in + div_trunc(prev_out * DC_POLE, 65536)
}

/// `x` held to the range of an `i32`.
pub open spec fn clamped(x: int) -> i32 {
    if x < i32::MIN {
        i32::MIN
    } else if x > i32::MAX {
        i32::MAX
    } else {
        x as i32
    }
}

/// The NES / Famicom APU.
#[derive(Debug)]
pub struct NesApu {
    pub rate: u32,
    /// Toggles every CPU cycle; the pulses and noise tick on the true half.
    pub apu_phase: bool,
    pub pulses: [Pulse; 2],
    pub triangle: Triangle,
    pub noise: Noise,
    pub dmc: Dmc,
    pub frame: FrameCounter,
    /// DC-blocker state.
    pub dc_prev_in: i64,
    pub dc_prev_out: i64,
}

impl NesApu {
    /// Every register cleared at `rate`, holding `memory` as sample bytes.
    pub open spec fn cleared(rate: u32, memory: Vec<u8>) -> NesApu {
        NesApu {
            rate,
            apu_phase: false,
            pulses: [Pulse::cleared(), Pulse::cleared()],
            triangle: Triangle::cleared(),
            noise: Noise::cleared(),
            dmc: Dmc::cleared(memory),
            frame: FrameCounter::cleared(),
            dc_prev_in: 0,
            dc_prev_out: 0,
        }
    }

    fn clear(rate: u32, memory: Vec<u8>) -> (chip: NesApu)
        ensures
            chip == NesApu::cleared(rate, memory),
    {
        let pulse = Pulse {
            envelope: Envelope { volume: 0, constant: false, loops: false, start: false, divider: 0, decay: 0 },
            length: Length { counter: 0, enabled: false },
            duty: 0,
            timer: 0,
            counter: 0,
            step: 0,
            sweep_enabled: false,
            sweep_period: 0,
            sweep_negate: false,
            sweep_shift: 0,
            sweep_reload: false,
            sweep_divider: 0,
            ones_complement: false,
        };
        NesApu {
            rate,
            apu_phase: false,
            pulses: [pulse, pulse],
            triangle: Triangle {
                length: Length { counter: 0, enabled: false },
                timer: 0,
                counter: 0,
                step: 0,
                linear_reload_value: 0,
                linear_counter: 0,
                linear_reload: false,
                control: false,
            },
            noise: Noise::default(),
            dmc: Dmc {
                enabled: false,
                loops: false,
                period: 0,
                counter: 0,
                level: 0,
                sample_address: 0,
                sample_length: 0,
                current_address: 0,
                bytes_remaining: 0,
                shift: 0,
                bits_remaining: 0,
                buffer: None,
                silence: false,
                memory,
            },
            frame: FrameCounter { cycles: 0, step: 0, five_step: false },
            dc_prev_in: 0,
            dc_prev_out: 0,
        }
    }

    /// A chip with no clock yet; `reset` gives it one.
    pub fn new() -> (chip: NesApu)
        ensures
            chip == NesApu::cleared(44_100, chip.dmc.memory),
            chip.dmc.memory@.len() == 0,
    {
        Self::clear(44_100, Vec::new())
    }

    pub open spec fn inv(self) -> bool {
        &&& self.pulses[0].inv()
        &&& self.pulses[1].inv()
        &&& self.triangle.inv()
        &&& self.noise.inv()
        &&& self.dmc.inv()
        &&& self.frame.inv()
        &&& 0 <= self.dc_prev_in <= 23_999
        &&& -DC_BOUND <= self.dc_prev_out <= DC_BOUND
    }

    /// The quarter-frame: every envelope and the triangle's linear counter.
    pub open spec fn quarter_clocked(self) -> NesApu {
        let p0 = Pulse { envelope: self.pulses[0].envelope.clocked(), ..self.pulses[0] };
        let p1 = Pulse { envelope: self.pulses[1].envelope.clocked(), ..self.pulses[1] };
        NesApu {
            pulses: spec_array_update(spec_array_update(self.pulses, 0, p0), 1, p1),
            noise: Noise { envelope: self.noise.envelope.clocked(), ..self.noise },
            triangle: self.triangle.linear_clocked(),
            ..self
        }
    }

    fn clock_quarter(&mut self)
        requires
            old(self).inv(),
        ensures
            final(self).inv(),
            *final(self) == old(self).quarter_clocked(),
    {
        let mut p = self.pulses[0];
        p.envelope.clock();
        self.pulses[0] = p;
        let mut p = self.pulses[1];
        p.envelope.clock();
        self.pulses[1] = p;
        self.noise.envelope.clock();
        self.triangle.clock_linear();
    }

    /// The half-frame: the length counters and the sweeps.
    pub open spec fn half_clocked(self) -> NesApu {
        NesApu {
            pulses: spec_array_update(
                spec_array_update(self.pulses, 0, self.pulses[0].half_clocked()),
                1,
                self.pulses[1].half_clocked(),
            ),
            noise: Noise { length: self.noise.length.clocked(self.noise.envelope.loops), ..self.noise },
            triangle: Triangle {
                length: self.triangle.length.clocked(self.triangle.control),
                ..self.triangle
            },
            ..self
        }
    }

    fn clock_half(&mut self)
        requires
            old(self).inv(),
        ensures
            final(self).inv(),
            *final(self) == old(self).half_clocked(),
    {
        let mut p = self.pulses[0];
        p.clock_half();
        self.pulses[0] = p;
        let mut p = self.pulses[1];
        p.clock_half();
        self.pulses[1] = p;
        let halt = self.noise.envelope.loops;
        self.noise.length.clock(halt);
        let control = self.triangle.control;
        self.triangle.length.clock(control);
    }

    /// One CPU cycle of everything: the triangle and the DMC, then on every
    /// other cycle the pulses and the noise, then whatever the frame
    /// sequencer clocks.
    pub open spec fn cpu_cycled(self) -> NesApu {
        let phase = !self.apu_phase;
        let (frame, tick) = self.frame.ticked();
        let s = NesApu {
            triangle: self.triangle.clocked(),
            dmc: self.dmc.clocked(),
            apu_phase: phase,
            pulses: if phase {
                spec_array_update(
                    spec_array_update(self.pulses, 0, self.pulses[0].clocked()),
                    1,
                    self.pulses[1].clocked(),
                )
            } else {
                self.pulses
            },
            noise: if phase {
                self.noise.clocked()
            } else {
                self.noise
            },
            frame,
            ..self
        };
        match tick {
            FrameTick::Nothing => s,
            FrameTick::Quarter => s.quarter_clocked(),
            FrameTick::Half => s.quarter_clocked().half_clocked(),
        }
    }

    /// One CPU cycle of everything.
    pub fn clock_cpu(&mut self)
        requires
            old(self).inv(),
        ensures
            final(self).inv(),
            *final(self) == old(self).cpu_cycled(),
    {
        self.triangle.clock();
        self.dmc.clock();
        self.apu_phase = !self.apu_phase;
        if self.apu_phase {
            let mut p = self.pulses[0];
            p.clock();
            self.pulses[0] = p;
            let mut p = self.pulses[1];
            p.clock();
            self.pulses[1] = p;
            self.noise.clock();
        }
        let tick = self.frame.clock();
        match tick {
            FrameTick::Nothing => {},
            FrameTick::Quarter => self.clock_quarter(),
            FrameTick::Half => {
                self.clock_quarter();
                self.clock_half();
            },
        }
    }

    /// The mixed output of one cycle, through the two DAC tables.
    pub open spec fn mixed(self) -> int {
        let pulse = self.pulses[0].level() + self.pulses[1].level();
        let tnd = 3 * self.triangle.level() + 2 * self.noise.level() + self.dmc.level;
        PULSE_TABLE@[if pulse < 30 { pulse } else { 30 }] + TND_TABLE@[if tnd < 202 {
            tnd
        } else {
            202
        }]
    }

    fn mix(&self) -> (m: i32)
        requires
            self.inv(),
        ensures
            m == self.mixed(),
            0 <= m <= 23_999,
    {
        proof {
            lemma_mixer_tables_bounded();
        }
        let pulse = (self.pulses[0].output() + self.pulses[1].output()) as usize;
        let tnd = (3 * self.triangle.output() + 2 * self.noise.output() + self.dmc.level as i32) as usize;
        let p = if pulse < 30 { pulse } else { 30 };
        let t = if tnd < 202 { tnd } else { 202 };
        PULSE_TABLE[p] + TND_TABLE[t]
    }

    /// `n` CPU cycles on, with the sum of the mixer's output after each.
    pub open spec fn run(self, n: nat) -> (NesApu, int)
        decreases n,
    {
        if n == 0 {
            (self, 0)
        } else {
            let (s, sum) = self.run((n - 1) as nat);
            let t = s.cpu_cycled();
            (t, sum + t.mixed())
        }
    }

    /// The averaged cycles of one sample.
    pub open spec fn averaged(self) -> int {
        self.run(CYCLES_PER_SAMPLE as nat).1 / CYCLES_PER_SAMPLE as int
    }

    /// The blocker's output for the sample this state renders.
    pub open spec fn blocked(self) -> int {
        dc_output(self.dc_prev_in as int, self.dc_prev_out as int, self.averaged())
    }

    fn block_dc(&mut self, sample: i32) -> (out: i32)
        requires
            old(self).inv(),
            0 <= sample <= 23_999,
        ensures
            final(self).inv(),
            *final(self) == (NesApu {
                dc_prev_in: sample as i64,
                dc_prev_out: dc_output(
                    old(self).dc_prev_in as int,
                    old(self).dc_prev_out as int,
                    sample as int,
                ) as i64,
                ..*old(self)
            }),
            out == clamped(
                dc_output(old(self).dc_prev_in as int, old(self).dc_prev_out as int, sample as int),
            ),
    {
        let input = sample as i64;
        let prev = self.dc_prev_out;
        assert(-DC_BOUND * DC_POLE <= prev * DC_POLE <= DC_BOUND * DC_POLE) by (nonlinear_arith)
            requires
                -DC_BOUND <= prev <= DC_BOUND,
        ;
        let scaled = (prev * DC_POLE) / 65536;
        assert(-9_974_976 <= scaled <= 9_974_976) by (nonlinear_arith)
            requires
                -DC_BOUND <= prev <= DC_BOUND,
                scaled == div_trunc(prev * DC_POLE, 65536),
        ;
        let output = input - self.dc_prev_in + scaled;
        self.dc_prev_in = input;
        self.dc_prev_out = output;
        if output < i32::MIN as i64 {
            i32::MIN
        } else if output > i32::MAX as i64 {
            i32::MAX
        } else {
            output as i32
        }
    }

    fn sample(&mut self) -> (out: i32)
        requires
            old(self).inv(),
        ensures
            final(self).inv(),
            *final(self) == (NesApu {
                dc_prev_in: old(self).averaged() as i64,
                dc_prev_out: old(self).blocked() as i64,
                ..old(self).run(CYCLES_PER_SAMPLE as nat).0
            }),
            out == clamped(old(self).blocked()),
    {
        let ghost start = *self;
        let mut sum: i32 = 0;
        let mut i: u32 = 0;
        while i < CYCLES_PER_SAMPLE
            invariant
                i <= CYCLES_PER_SAMPLE,
                self.inv(),
                0 <= sum <= 23_999 * i,
                (*self, sum as int) == start.run(i as nat),
                self.dc_prev_in == start.dc_prev_in,
                self.dc_prev_out == start.dc_prev_out,
            decreases CYCLES_PER_SAMPLE - i,
        {
            self.clock_cpu();
            let m = self.mix();
            sum = sum + m;
            i = i + 1;
        }
        let average = sum / CYCLES_PER_SAMPLE as i32;
        assert(average == start.averaged());
        self.block_dc(average)
    }
}

impl Default for NesApu {
    fn default() -> (chip: NesApu)
        ensures
            chip == NesApu::cleared(0, chip.dmc.memory),
            chip.dmc.memory@.len() == 0,
    {
        Self::clear(0, Vec::new())
    }
}


impl NesApu {
    /// The length counters' enable bits from a `$4015` write.
    pub open spec fn lengths_enabled(self, v: u8) -> NesApu {
        let p0 = Pulse { length: self.pulses[0].length.with_enabled(v & 0x01 != 0), ..self.pulses[0] };
        let p1 = Pulse { length: self.pulses[1].length.with_enabled(v & 0x02 != 0), ..self.pulses[1] };
        NesApu {
            pulses: spec_array_update(spec_array_update(self.pulses, 0, p0), 1, p1),
            triangle: Triangle { length: self.triangle.length.with_enabled(v & 0x04 != 0), ..self.triangle },
            noise: Noise { length: self.noise.length.with_enabled(v & 0x08 != 0), ..self.noise },
            ..self
        }
    }

    /// The DMC after its enable bit: enabling starts its sample if none is
    /// playing; disabling drops what is left.
    pub open spec fn dmc_switched(d: Dmc, enabled: bool) -> Dmc {
        let d = Dmc { enabled, ..d };
        if enabled {
            if d.bytes_remaining == 0 {
                d.restarted().fetched()
            } else {
                d
            }
        } else {
            Dmc { bytes_remaining: 0, ..d }
        }
    }

    /// `$4015`: each channel's enable bit.
    pub open spec fn status_set(self, v: u8) -> NesApu {
        let s = self.lengths_enabled(v);
        NesApu { dmc: NesApu::dmc_switched(s.dmc, v & 0x10 != 0), ..s }
    }

    fn enable_lengths(&mut self, v: u8)
        requires
            old(self).inv(),
        ensures
            final(self).inv(),
            *final(self) == old(self).lengths_enabled(v),
    {
        let mut p = self.pulses[0];
        p.length.set_enabled(v & 0x01 != 0);
        self.pulses[0] = p;
        let mut p = self.pulses[1];
        p.length.set_enabled(v & 0x02 != 0);
        self.pulses[1] = p;
        self.triangle.length.set_enabled(v & 0x04 != 0);
        self.noise.length.set_enabled(v & 0x08 != 0);
    }

    fn switch_dmc(dmc: &mut Dmc, enabled: bool)
        requires
            old(dmc).inv(),
        ensures
            final(dmc).inv(),
            *final(dmc) == NesApu::dmc_switched(*old(dmc), enabled),
    {
        dmc.enabled = enabled;
        if enabled {
            if dmc.bytes_remaining == 0 {
                dmc.restart();
                dmc.fetch();
            }
        } else {
            dmc.bytes_remaining = 0;
        }
    }

    fn write_status(&mut self, v: u8)
        requires
            old(self).inv(),
        ensures
            final(self).inv(),
            *final(self) == old(self).status_set(v),
    {
        self.enable_lengths(v);
        Self::switch_dmc(&mut self.dmc, v & 0x10 != 0);
    }

    /// `$4017`: the sequencer's mode, restarting it. Setting five-step mode
    /// clocks a quarter and a half frame at once.
    pub open spec fn frame_mode_set(self, v: u8) -> NesApu {
        let five = v & 0x80 != 0;
        let s = NesApu { frame: FrameCounter { five_step: five, cycles: 0, step: 0 }, ..self };
        if five {
            s.quarter_clocked().half_clocked()
        } else {
            s
        }
    }

    fn write_frame_mode(&mut self, v: u8)
        requires
            old(self).inv(),
        ensures
            final(self).inv(),
            *final(self) == old(self).frame_mode_set(v),
    {
        assert(FRAME_STEPS_4@ =~= seq![7457u32, 14_913, 22_371, 29_829]);
        assert(FRAME_STEPS_5@ =~= seq![7457u32, 14_913, 22_371, 29_829, 37_281]);
        self.frame.five_step = v & 0x80 != 0;
        self.frame.cycles = 0;
        self.frame.step = 0;
        if self.frame.five_step {
            self.clock_quarter();
            self.clock_half();
        }
    }

    /// The chip after value `v` lands in register `$4000 + r`. `$4009`,
    /// `$400D`, `$4014`, `$4016` and anything above are not APU registers.
    pub open spec fn register_set(self, r: u8, v: u8) -> NesApu {
        if r <= 0x07 {
            let i = if r >= 4 { 1int } else { 0int };
            let p = Pulse { ones_complement: r < 4, ..self.pulses[i] }.register_set(r & 3, v);
            NesApu { pulses: spec_array_update(self.pulses, i, p), ..self }
        } else if r == 0x08 {
            NesApu {
                triangle: Triangle {
                    control: v & 0x80 != 0,
                    linear_reload_value: v & 0x7F,
                    ..self.triangle
                },
                ..self
            }
        } else if r == 0x0A {
            NesApu {
                triangle: Triangle {
                    timer: ((self.triangle.timer & 0x700) | (v as u16)) as u16,
                    ..self.triangle
                },
                ..self
            }
        } else if r == 0x0B {
            NesApu {
                triangle: Triangle {
                    timer: ((self.triangle.timer & 0x0FF) | (((v & 7) as u16) << 8u16)) as u16,
                    length: self.triangle.length.loaded(v >> 3u8),
                    linear_reload: true,
                    ..self.triangle
                },
                ..self
            }
        } else if r == 0x0C {
            NesApu {
                noise: Noise {
                    envelope: Envelope {
                        loops: v & 0x20 != 0,
                        constant: v & 0x10 != 0,
                        volume: v & 0x0F,
                        ..self.noise.envelope
                    },
                    ..self.noise
                },
                ..self
            }
        } else if r == 0x0E {
            NesApu {
                noise: Noise {
                    short_mode: v & 0x80 != 0,
                    period: NOISE_PERIODS@[(v & 0x0F) as int],
                    ..self.noise
                },
                ..self
            }
        } else if r == 0x0F {
            NesApu {
                noise: Noise {
                    length: self.noise.length.loaded(v >> 3u8),
                    envelope: Envelope { start: true, ..self.noise.envelope },
                    ..self.noise
                },
                ..self
            }
        } else if r == 0x10 {
            NesApu {
                dmc: Dmc {
                    loops: v & 0x40 != 0,
                    period: DMC_PERIODS@[(v & 0x0F) as int],
                    ..self.dmc
                },
                ..self
            }
        } else if r == 0x11 {
            NesApu { dmc: Dmc { level: v & 0x7F, ..self.dmc }, ..self }
        } else if r == 0x12 {
            NesApu { dmc: Dmc { sample_address: (0xC000 + (v as u16) * 64) as u16, ..self.dmc }, ..self }
        } else if r == 0x13 {
            NesApu { dmc: Dmc { sample_length: ((v as u16) * 16 + 1) as u16, ..self.dmc }, ..self }
        } else if r == 0x15 {
            self.status_set(v)
        } else if r == 0x17 {
            self.frame_mode_set(v)
        } else {
            self
        }
    }

    fn write_pulse(&mut self, r: u8, v: u8)
        requires
            old(self).inv(),
            r <= 0x07,
        ensures
            final(self).inv(),
            *final(self) == old(self).register_set(r, v),
    {
        let i: usize = if r >= 4 { 1 } else { 0 };
        let mut p = self.pulses[i];
        p.ones_complement = r < 4;
        assert(r & 3 <= 3) by {
            lemma_u8(r, 3);
        }
        p.write_register(r & 3, v);
        self.pulses[i] = p;
    }

    fn write_register(&mut self, r: u8, v: u8)
        requires
            old(self).inv(),
        ensures
            final(self).inv(),
            *final(self) == old(self).register_set(r, v),
    {
        proof {
            lemma_tables_bounded();
        }
        let t = self.triangle.timer;
        assert((t & 0x700) | (v as u16) <= 0x7FF) by {
            lemma_u16(t, 0x700);
            lemma_u16(t & 0x700, v as u16);
        }
        assert((t & 0x0FF) | (((v & 7) as u16) << 8u16) <= 0x7FF) by {
            lemma_u16(t, 0x0FF);
            lemma_u8(v, 7);
            lemma_u16((v & 7) as u16, 0);
            lemma_u16(t & 0x0FF, ((v & 7) as u16) << 8u16);
        }
        assert(v & 0x0F < 16 && v & 0x7F <= 0x7F && v & 0x0F <= 15) by {
            lemma_u8(v, 0x0F);
            lemma_u8(v, 0x7F);
        }
        assert((v as u16) << 6u16 == (v as u16) * 64 && (v as u16) << 4u16 == (v as u16) * 16) by {
            lemma_u16(v as u16, 0);
        }
        if r <= 0x07 {
            self.write_pulse(r, v);
        } else if r == 0x08 {
            self.triangle.control = v & 0x80 != 0;
            self.triangle.linear_reload_value = v & 0x7F;
        } else if r == 0x0A {
            self.triangle.timer = (self.triangle.timer & 0x700) | (v as u16);
        } else if r == 0x0B {
            self.triangle.timer = (self.triangle.timer & 0x0FF) | (((v & 7) as u16) << 8);
            self.triangle.length.load(v >> 3);
            self.triangle.linear_reload = true;
        } else if r == 0x0C {
            self.noise.envelope.loops = v & 0x20 != 0;
            self.noise.envelope.constant = v & 0x10 != 0;
            self.noise.envelope.volume = v & 0x0F;
        } else if r == 0x0E {
            self.noise.short_mode = v & 0x80 != 0;
            self.noise.period = NOISE_PERIODS[(v & 0x0F) as usize];
        } else if r == 0x0F {
            self.noise.length.load(v >> 3);
            self.noise.envelope.start = true;
        } else if r == 0x10 {
            self.dmc.loops = v & 0x40 != 0;
            self.dmc.period = DMC_PERIODS[(v & 0x0F) as usize];
        } else if r == 0x11 {
            self.dmc.level = v & 0x7F;
        } else if r == 0x12 {
            self.dmc.sample_address = 0xC000 + ((v as u16) << 6);
        } else if r == 0x13 {
            self.dmc.sample_length = ((v as u16) << 4) + 1;
        } else if r == 0x15 {
            self.write_status(v);
        } else if r == 0x17 {
            self.write_frame_mode(v);
        }
    }

    /// Where a reset leaves the chip: cleared at `rate`, keeping the sample
    /// memory, with every channel enabled. Hardware starts them disabled,
    /// but a VGM is a register log that may begin after a driver's
    /// initialisation, and rips that never write `$4015` are not rare.
    pub open spec fn powered(rate: u32, memory: Vec<u8>) -> NesApu {
        NesApu::cleared(rate, memory).register_set(0x15, 0x0F)
    }
}

impl ChipState for NesApu {
    open spec fn inv(&self) -> bool {
        NesApu::inv(*self)
    }

    open spec fn stepped(&self) -> NesApu {
        NesApu {
            dc_prev_in: self.averaged() as i64,
            dc_prev_out: self.blocked() as i64,
            ..self.run(CYCLES_PER_SAMPLE as nat).0
        }
    }

    /// Mono: the chip has one output pin.
    open spec fn frame(&self) -> (i32, i32) {
        (clamped(self.blocked()), clamped(self.blocked()))
    }

    fn next_frame(&mut self) -> (f: (i32, i32)) {
        let sample = self.sample();
        (sample, sample)
    }
}

impl ChipCore for NesApu {
    /// `variant` is the header's FDS flag; the add-on's channel is not
    /// modelled, so an FDS rip plays its five stock channels.
    fn reset(&mut self, clock: u32, variant: bool)
        ensures
            *final(self) == NesApu::powered(
                if clock / CYCLES_PER_SAMPLE > 1 { clock / CYCLES_PER_SAMPLE } else { 1 },
                old(self).dmc.memory,
            ),
    {
        let mut memory: Vec<u8> = Vec::new();
        std::mem::swap(&mut memory, &mut self.dmc.memory);
        let rate = clock / CYCLES_PER_SAMPLE;
        *self = Self::clear(if rate > 1 { rate } else { 1 }, memory);
        self.write_register(0x15, 0x0F);
    }

    fn native_rate(&self) -> (rate: u32)
        ensures
            rate == self.rate,
    {
        self.rate
    }

    /// One flat register file at `$4000`, as the VGM `0xB4` command
    /// addresses it.
    fn write(&mut self, port: u8, addr: u16, data: u16)
        ensures
            *final(self) == old(self).register_set((addr & 0xFF) as u8, (data & 0xFF) as u8),
    {
        self.write_register((addr & 0xFF) as u8, (data & 0xFF) as u8);
    }

    /// DPCM sample bytes, delivered as a RAM-write block: the memory grows
    /// to hold them.
    fn write_ram(&mut self, offset: u32, data: &[u8])
        ensures
            final(self).dmc.memory@ == image_loaded(
                old(self).dmc.memory@,
                if offset + data@.len() <= u32::MAX { (offset + data@.len()) as nat } else { u32::MAX as nat },
                offset as nat,
                data@,
            ),
            *final(self) == (NesApu {
                dmc: Dmc { memory: final(self).dmc.memory, ..old(self).dmc },
                ..*old(self)
            }),
    {
        let room = u32::MAX - offset;
        let total: u32 = if data.len() as u64 <= room as u64 {
            offset + data.len() as u32
        } else {
            u32::MAX
        };
        load_image(&mut self.dmc.memory, total, offset, data);
    }

    /// A DPCM data block, which the VGM format files under ROM.
    fn load_rom(&mut self, block_type: u8, total_size: u32, start: u32, data: &[u8])
        ensures
            final(self).dmc.memory@ == image_loaded(
                old(self).dmc.memory@,
                total_size as nat,
                start as nat,
                data@,
            ),
            *final(self) == (NesApu {
                dmc: Dmc { memory: final(self).dmc.memory, ..old(self).dmc },
                ..*old(self)
            }),
    {
        load_image(&mut self.dmc.memory, total_size, start, data);
    }
}

} // verus!
