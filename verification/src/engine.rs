//! The playback bookkeeping the engine keeps around an OPL chip: the delay
//! clock, channel muting, panning and loop settings, and the position.

use vstd::prelude::*;

verus! {

/// The OPL3 register whose writes carry the percussion (rhythm) bits.
pub const PERCUSSION_REGISTER: u8 = 0xBD;

/// The first and last per-channel key-on/frequency registers, whose writes
/// channel muting gates.
pub const FIRST_CHANNEL_REGISTER: u8 = 0xB0;
pub const LAST_CHANNEL_REGISTER: u8 = 0xB8;

/// Which of the OPL3's two register banks a write addresses.
#[derive(Debug, Clone, Copy, PartialEq, Eq, Structural)]
pub enum Bank {
    /// Registers `0x000..=0x0FF`.
    Low,
    /// Registers `0x100..=0x1FF`.
    High,
}

impl Bank {
    pub open spec fn spec_index(self) -> u8 {
        match self {
            Bank::Low => 0,
            Bank::High => 1,
        }
    }

    /// `0` for the low bank, `1` for the high.
    pub fn index(self) -> (i: u8)
        ensures
            i == self.spec_index(),
    {
        match self {
            Bank::Low => 0,
            Bank::High => 1,
        }
    }

    /// The bank's bit in a nine-bit register address.
    pub fn register_offset(self) -> (o: u16)
        ensures
            o == self.spec_index() as u16 * 0x100,
    {
        match self {
            Bank::Low => 0x000,
            Bank::High => 0x100,
        }
    }
}

/// Delays (milliseconds, or VGM samples) to output frames, carrying the
/// fractional remainder exactly so it cannot drift over a long song:
/// `frames = (delay × rate + carry) / unit`.
#[derive(Debug, Clone)]
pub struct FrameClock {
    pub output_rate: u64,
    /// `1000` when delays are milliseconds, `44100` when they are VGM samples.
    pub delay_unit: u64,
    pub carry: u64,
}

impl FrameClock {
    pub open spec fn inv(self) -> bool {
        &&& self.output_rate <= u32::MAX
        &&& self.delay_unit <= u32::MAX
        &&& self.carry < self.delay_unit || (self.carry == 0 && self.delay_unit == 0)
    }

    /// A clock rendering at `output_rate` Hz over delays of `delay_unit` per
    /// second, with nothing carried.
    pub fn new(output_rate: u32, delay_unit: u32) -> (c: FrameClock)
        ensures
            c.output_rate == output_rate,
            c.delay_unit == delay_unit,
            c.carry == 0,
            c.inv(),
    {
        FrameClock { output_rate: output_rate as u64, delay_unit: delay_unit as u64, carry: 0 }
    }

    /// The number of output frames a delay of `delay` units lasts, folding in
    /// the remainder carried from earlier delays; the new remainder is kept.
    pub fn frames_for(&mut self, delay: u32) -> (frames: u64)
        requires
            old(self).inv(),
            old(self).delay_unit > 0,
        ensures
            final(self).inv(),
            frames == (delay * old(self).output_rate + old(self).carry) / old(self).delay_unit as int,
            final(self).carry == (delay * old(self).output_rate + old(self).carry) % old(
                self,
            ).delay_unit as int,
            final(self).output_rate == old(self).output_rate,
            final(self).delay_unit == old(self).delay_unit,
    {
        assert(delay * self.output_rate <= 0xFFFF_FFFFu64 * 0xFFFF_FFFFu64) by (nonlinear_arith)
            requires
                delay <= 0xFFFF_FFFFu64,
                self.output_rate <= 0xFFFF_FFFFu64,
        ;
        let numerator = (delay as u64) * self.output_rate + self.carry;
        self.carry = numerator % self.delay_unit;
        numerator / self.delay_unit
    }

    /// Discards the carried remainder, as after a seek.
    pub fn reset(&mut self)
        ensures
            final(self).carry == 0,
            final(self).output_rate == old(self).output_rate,
            final(self).delay_unit == old(self).delay_unit,
    {
        self.carry = 0;
    }
}

/// The frames and the final carry of a run of delays, each step as
/// [`FrameClock::frames_for`] computes it from the carry the step before left.
pub open spec fn clock_run(rate: int, unit: int, carry: int, delays: Seq<u32>) -> (int, int)
    decreases delays.len(),
{
    if delays.len() == 0 {
        (0, carry)
    } else {
        let n = delays[0] * rate + carry;
        let rest = clock_run(rate, unit, n % unit, delays.drop_first());
        (n / unit + rest.0, rest.1)
    }
}

/// The total of a run of delays.
pub open spec fn delay_total(delays: Seq<u32>) -> int
    decreases delays.len(),
{
    if delays.len() == 0 {
        0
    } else {
        delays[0] + delay_total(delays.drop_first())
    }
}

/// A frame clock never drifts: the frames a run of delays lasts, one delay
/// at a time, are exactly the frames one delay of their total would last,
/// and what is left carried is that delay's remainder.
pub proof fn lemma_frame_clock_never_drifts(rate: int, unit: int, carry: int, delays: Seq<u32>)
    requires
        unit > 0,
        0 <= carry < unit,
    ensures
        clock_run(rate, unit, carry, delays) == (
            (delay_total(delays) * rate + carry) / unit,
            (delay_total(delays) * rate + carry) % unit,
        ),
    decreases delays.len(),
{
    if delays.len() > 0 {
        let d = delays[0] as int;
        let later = delay_total(delays.drop_first());
        let n = d * rate + carry;
        lemma_frame_clock_never_drifts(rate, unit, n % unit, delays.drop_first());
        assert((d + later) * rate == d * rate + later * rate) by (nonlinear_arith);
        vstd::arithmetic::div_mod::lemma_fundamental_div_mod(n, unit);
        let m = later * rate + n % unit;
        assert(m + (n / unit) * unit == (d + later) * rate + carry) by (nonlinear_arith)
            requires
                n == unit * (n / unit) + n % unit,
                m == later * rate + n % unit,
                n == d * rate + carry,
                (d + later) * rate == d * rate + later * rate,
        ;
        vstd::arithmetic::div_mod::lemma_hoist_over_denominator(m, n / unit, unit as nat);
        vstd::arithmetic::div_mod::lemma_mod_multiples_vanish(n / unit, m, unit);
        assert(unit * (n / unit) + m == m + (n / unit) * unit) by (nonlinear_arith);
        let total = delay_total(delays) * rate + carry;
        assert(delay_total(delays) == d + later);
        assert(total == m + (n / unit) * unit);
        assert(total / unit == m / unit + n / unit);
        assert(total % unit == m % unit);
        assert(clock_run(rate, unit, n % unit, delays.drop_first()) == (m / unit, m % unit));
        assert(clock_run(rate, unit, carry, delays) == (n / unit + m / unit, m % unit));
    } else {
        assert(delay_total(delays) * rate + carry == carry);
        assert(carry / unit == 0 && carry % unit == carry) by (nonlinear_arith)
            requires
                0 <= carry < unit,
        ;
    }
}

/// The frame clock's law for every prefix of a run from a fresh clock: the
/// frames the first `k` delays last, one at a time, are the whole frames of
/// their total.
pub proof fn lemma_frame_clock_prefixes(rate: int, unit: int, delays: Seq<u32>)
    requires
        unit > 0,
    ensures
        forall|k: int|
            0 <= k <= delays.len() ==> #[trigger] clock_run(rate, unit, 0, delays.take(k)).0 == (
            delay_total(delays.take(k)) * rate) / unit,
{
    assert forall|k: int| 0 <= k <= delays.len() implies #[trigger] clock_run(
        rate,
        unit,
        0,
        delays.take(k),
    ).0 == (delay_total(delays.take(k)) * rate) / unit by {
        lemma_frame_clock_never_drifts(rate, unit, 0, delays.take(k));
    }
}

/// What one [`FrameClock::frames_for`] call does, as its contract states it:
/// `before` becomes `after` and `frames` is returned for `delay`.
pub open spec fn frames_for_step(before: FrameClock, delay: u32, frames: u64, after: FrameClock) -> bool {
    &&& after.inv()
    &&& frames == (delay * before.output_rate + before.carry) / before.delay_unit as int
    &&& after.carry == (delay * before.output_rate + before.carry) % before.delay_unit as int
    &&& after.output_rate == before.output_rate
    &&& after.delay_unit == before.delay_unit
}

/// The total of a list of frame counts.
pub open spec fn frames_sum(frames: Seq<u64>) -> int
    decreases frames.len(),
{
    if frames.len() == 0 {
        0
    } else {
        frames_sum(frames.drop_last()) + frames.last()
    }
}

/// The total of a list of delays, summed from the back.
pub open spec fn delays_sum(delays: Seq<u32>) -> int
    decreases delays.len(),
{
    if delays.len() == 0 {
        0
    } else {
        delays_sum(delays.drop_last()) + delays.last()
    }
}

/// After `k` calls from a clock with nothing carried, the frames returned and
/// the carry left account exactly for the delays: frames × unit + carry is
/// delays × rate.
proof fn lemma_calls_account_exactly(
    clocks: Seq<FrameClock>,
    delays: Seq<u32>,
    frames: Seq<u64>,
    k: int,
)
    requires
        clocks.len() == delays.len() + 1,
        frames.len() == delays.len(),
        clocks[0].carry == 0,
        clocks[0].delay_unit > 0,
        forall|i: int|
            0 <= i < delays.len() ==> #[trigger] frames_for_step(
                clocks[i],
                delays[i],
                frames[i],
                clocks[i + 1],
            ),
        0 <= k <= delays.len(),
    ensures
        clocks[k].output_rate == clocks[0].output_rate,
        clocks[k].delay_unit == clocks[0].delay_unit,
        0 <= clocks[k].carry < clocks[0].delay_unit,
        frames_sum(frames.take(k)) * clocks[0].delay_unit + clocks[k].carry == delays_sum(
            delays.take(k),
        ) * clocks[0].output_rate,
    decreases k,
{
    if k > 0 {
        lemma_calls_account_exactly(clocks, delays, frames, k - 1);
        let i = k - 1;
        assert(frames_for_step(clocks[i], delays[i], frames[i], clocks[i + 1]));
        let r = clocks[0].output_rate as int;
        let u = clocks[0].delay_unit as int;
        let n = delays[i] * r + clocks[i].carry;
        vstd::arithmetic::div_mod::lemma_fundamental_div_mod(n, u);
        assert(frames.take(k).drop_last() =~= frames.take(i));
        assert(delays.take(k).drop_last() =~= delays.take(i));
        let fs = frames_sum(frames.take(i));
        let ds = delays_sum(delays.take(i));
        assert((fs + frames[i]) * u + clocks[k].carry == (ds + delays[i]) * r) by (nonlinear_arith)
            requires
                fs * u + clocks[i].carry == ds * r,
                n == u * frames[i] + clocks[k].carry,
                n == delays[i] * r + clocks[i].carry,
        ;
    }
}

/// A frame clock never drifts over any sequence of calls: from a clock with
/// nothing carried (new, or reset since), the frames the first `k` calls of
/// [`FrameClock::frames_for`] return add up to the whole frames of the first
/// `k` delays together, for every `k`.
pub proof fn lemma_frame_clock_calls_never_drift(
    clocks: Seq<FrameClock>,
    delays: Seq<u32>,
    frames: Seq<u64>,
)
    requires
        clocks.len() == delays.len() + 1,
        frames.len() == delays.len(),
        clocks[0].carry == 0,
        clocks[0].delay_unit > 0,
        forall|i: int|
            0 <= i < delays.len() ==> #[trigger] frames_for_step(
                clocks[i],
                delays[i],
                frames[i],
                clocks[i + 1],
            ),
    ensures
        forall|k: int|
            0 <= k <= delays.len() ==> #[trigger] frames_sum(frames.take(k)) == (delays_sum(
                delays.take(k),
            ) * clocks[0].output_rate) / (clocks[0].delay_unit as int),
{
    assert forall|k: int| 0 <= k <= delays.len() implies #[trigger] frames_sum(frames.take(k)) == (
    delays_sum(delays.take(k)) * clocks[0].output_rate) / (clocks[0].delay_unit as int) by {
        lemma_calls_account_exactly(clocks, delays, frames, k);
        let u = clocks[0].delay_unit as int;
        let c = clocks[k].carry as int;
        let x = frames_sum(frames.take(k));
        vstd::arithmetic::div_mod::lemma_hoist_over_denominator(c, x, u as nat);
        assert(c / u == 0) by (nonlinear_arith)
            requires
                0 <= c < u,
        ;
        assert(c + x * u == x * u + c);
    }
}

/// Which channels and percussion voices are audible.
///
/// A muted melodic channel's key-on writes (`0xB0..=0xB8`) are dropped; the
/// percussion register (`0xBD`) is AND-masked per bank; every other register
/// always passes.
#[derive(Debug, Clone, Copy, PartialEq, Eq)]
pub struct Muting {
    /// Bit `bank * 9 + (reg - 0xB0)` set means channel `reg` on that bank is
    /// audible: nine channels, two banks.
    pub channels: u32,
    /// The AND-mask applied to `0xBD` writes, indexed by bank.
    pub percussion: [u8; 2],
}

/// The bit that stands for channel register `channel` on `bank`.
pub open spec fn channel_bit_of(bank: Bank, channel: u8) -> u32 {
    1u32 << ((bank.spec_index() as u32) * 9 + (channel - 0xB0) as u32)
}

/// Whether `reg` is one of the gated channel registers.
pub open spec fn is_channel_register(reg: u8) -> bool {
    FIRST_CHANNEL_REGISTER <= reg <= LAST_CHANNEL_REGISTER
}

impl Muting {
    /// All eighteen channel bits.
    pub const ALL_CHANNELS: u32 = 0x3FFFF;

    /// Everything audible: the default for ordinary playback.
    pub fn all() -> (m: Muting)
        ensures
            m.channels == Muting::ALL_CHANNELS,
            m.percussion@ == seq![0xFFu8, 0xFF],
    {
        let m = Muting { channels: Self::ALL_CHANNELS, percussion: [0xFF, 0xFF] };
        assert(m.percussion@ =~= seq![0xFFu8, 0xFF]);
        m
    }

    /// Nothing melodic audible, and drums silenced with their control bits
    /// kept (`0xE0`): the starting point for isolating a single voice.
    pub fn silent() -> (m: Muting)
        ensures
            m.channels == 0,
            m.percussion@ == seq![0xE0u8, 0xE0],
    {
        let m = Muting { channels: 0, percussion: [0xE0, 0xE0] };
        assert(m.percussion@ =~= seq![0xE0u8, 0xE0]);
        m
    }

    fn channel_bit(bank: Bank, channel: u8) -> (b: u32)
        requires
            is_channel_register(channel),
        ensures
            b == channel_bit_of(bank, channel),
    {
        let index = (bank.index() as u32) * 9 + ((channel - 0xB0) as u32);
        assert(index < 32);
        1u32 << index
    }

    /// Makes channel register `channel` (`0xB0..=0xB8`) on `bank` audible.
    pub fn allow_channel(&mut self, bank: Bank, channel: u8)
        requires
            is_channel_register(channel),
        ensures
            final(self).channels == old(self).channels | channel_bit_of(bank, channel),
            final(self).percussion == old(self).percussion,
    {
        self.channels = self.channels | Self::channel_bit(bank, channel);
    }

    /// Mutes channel register `channel` (`0xB0..=0xB8`) on `bank`.
    pub fn mute_channel(&mut self, bank: Bank, channel: u8)
        requires
            is_channel_register(channel),
        ensures
            final(self).channels == old(self).channels & !channel_bit_of(bank, channel),
            final(self).percussion == old(self).percussion,
    {
        self.channels = self.channels & !Self::channel_bit(bank, channel);
    }

    /// Sets the AND-mask applied to `0xBD` (percussion) writes on `bank`.
    pub fn set_percussion(&mut self, bank: Bank, mask: u8)
        ensures
            final(self).percussion@ == old(self).percussion@.update(bank.spec_index() as int, mask),
            final(self).channels == old(self).channels,
    {
        self.percussion[bank.index() as usize] = mask;
    }

    /// Whether channel register `channel` on `bank` is audible.
    pub open spec fn allows(self, bank: Bank, channel: u8) -> bool {
        self.channels & channel_bit_of(bank, channel) != 0
    }

    /// What muting makes of a write of `value` to `reg` on `bank`.
    pub open spec fn gated(self, bank: Bank, reg: u8, value: u8) -> Option<u8> {
        if reg == PERCUSSION_REGISTER {
            Some(value & self.percussion@[bank.spec_index() as int])
        } else if !is_channel_register(reg) || self.allows(bank, reg) {
            Some(value)
        } else {
            None
        }
    }

    /// The value to write for register `reg` on `bank`, or `None` if muting
    /// drops it: a muted channel register is dropped, `0xBD` is AND-masked
    /// per bank, and every other register passes unchanged.
    pub fn gate(&self, bank: Bank, reg: u8, value: u8) -> (r: Option<u8>)
        ensures
            r == self.gated(bank, reg, value),
    {
        if reg == PERCUSSION_REGISTER {
            Some(value & self.percussion[bank.index() as usize])
        } else if reg < FIRST_CHANNEL_REGISTER || reg > LAST_CHANNEL_REGISTER
            || self.channel_allowed(bank, reg) {
            Some(value)
        } else {
            None
        }
    }

    /// Whether channel register `channel` on `bank` is audible.
    pub fn channel_allowed(&self, bank: Bank, channel: u8) -> (a: bool)
        requires
            is_channel_register(channel),
        ensures
            a == self.allows(bank, channel),
    {
        self.channels & Self::channel_bit(bank, channel) != 0
    }
}

impl Default for Muting {
    fn default() -> (m: Muting)
        ensures
            m.channels == Muting::ALL_CHANNELS,
            m.percussion@ == seq![0xFFu8, 0xFF],
    {
        Self::all()
    }
}

/// How the 18 melodic channels are panned: the song's own stereo image, or a
/// constant-power pan per channel (`0x00` hard left, `0x80` centre, `0xFF`
/// hard right), indexed `bank * 9 + ch`.
#[derive(Debug, Clone, Copy, PartialEq, Eq)]
pub enum Panning {
    /// The song's own speaker-enable bits rule.
    Original,
    /// A static per-channel pan override.
    Custom([u8; 18]),
}

impl Default for Panning {
    fn default() -> (p: Panning)
        ensures
            p == Panning::Original,
    {
        Panning::Original
    }
}

/// How many times a loop region is played before playback carries on.
#[derive(Debug, Clone, Copy, PartialEq, Eq, Structural)]
pub enum LoopCount {
    /// Repeat until playback is stopped.
    Infinite,
    /// Play the region this many times in total, then continue; `0` and `1`
    /// both mean "no repeat".
    Times(u32),
}

impl Default for LoopCount {
    fn default() -> (c: LoopCount)
        ensures
            c == LoopCount::Infinite,
    {
        LoopCount::Infinite
    }
}

impl LoopCount {
    /// How many times playback jumps back, or `None` for "without end".
    pub fn wraps(self) -> (w: Option<u32>)
        ensures
            w == match self {
                LoopCount::Infinite => None,
                LoopCount::Times(t) => Some(if t > 0 { (t - 1) as u32 } else { 0 }),
            },
    {
        match self {
            LoopCount::Infinite => None,
            LoopCount::Times(times) => Some(if times > 0 { times - 1 } else { 0 }),
        }
    }
}

/// A region to loop over, and how often.
#[derive(Debug, Clone, Copy, PartialEq, Eq, Structural)]
pub struct LoopConfig {
    /// The instruction playback jumps back to.
    pub start: usize,
    /// One past the last instruction of the loop.
    pub end: usize,
    pub count: LoopCount,
    /// The frame position of `start`, which the rendered-frame count rewinds
    /// to.
    pub start_frames: u64,
}

/// Where playback currently is.
#[derive(Debug, Clone, Copy, PartialEq, Eq, Structural)]
pub struct Position {
    /// Total frames rendered since the last seek or rewind. Authoritative.
    pub frames_rendered: u64,
    /// Elapsed playback time in milliseconds, derived from `frames_rendered`.
    pub elapsed_ms: u32,
    /// The next instruction the engine will execute.
    pub next_instruction: usize,
    /// How many times playback has jumped back to the loop start since the
    /// last seek.
    pub loop_iteration: u32,
}

/// Milliseconds for `frames` at `rate`, saturated to `u32`.
pub open spec fn ms_of(frames: u64, rate: u32) -> u32 {
    let exact = frames * 1000 / (rate as int);
    if exact <= u32::MAX {
        exact as u32
    } else {
        u32::MAX
    }
}

impl Position {
    /// Elapsed playback milliseconds for `frames` output frames at
    /// `sample_rate` Hz, saturating rather than wrapping on `u32` overflow.
    pub fn ms_from_frames(frames: u64, sample_rate: u32) -> (ms: u32)
        requires
            sample_rate > 0,
            frames * 1000 <= u64::MAX,
        ensures
            ms == ms_of(frames, sample_rate),
    {
        let exact = frames * 1000 / (sample_rate as u64);
        if exact <= u32::MAX as u64 {
            exact as u32
        } else {
            u32::MAX
        }
    }

    /// A position from the authoritative rendered-frame count.
    pub fn from_frames(frames: u64, sample_rate: u32, next_instruction: usize) -> (p: Position)
        requires
            sample_rate > 0,
            frames * 1000 <= u64::MAX,
        ensures
            p == (Position {
                frames_rendered: frames,
                elapsed_ms: ms_of(frames, sample_rate),
                next_instruction: next_instruction,
                loop_iteration: 0,
            }),
    {
        Self::looping(frames, sample_rate, next_instruction, 0)
    }

    /// As [`Position::from_frames`], for a stream that has looped
    /// `loop_iteration` times since the last seek.
    pub fn looping(frames: u64, sample_rate: u32, next_instruction: usize, loop_iteration: u32) -> (p:
        Position)
        requires
            sample_rate > 0,
            frames * 1000 <= u64::MAX,
        ensures
            p == (Position {
                frames_rendered: frames,
                elapsed_ms: ms_of(frames, sample_rate),
                next_instruction: next_instruction,
                loop_iteration: loop_iteration,
            }),
    {
        Position {
            frames_rendered: frames,
            elapsed_ms: Self::ms_from_frames(frames, sample_rate),
            next_instruction,
            loop_iteration,
        }
    }
}

} // verus!
