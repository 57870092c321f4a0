//! The OPL chip behind a trait, so the emulator core stays swappable.
//!
//! The synthesis itself is the `nuked_opl3` crate's: its chip state is opaque
//! here and every call into it goes through one small trusted wrapper below.
//! What this module proves is its own handling around those calls: which
//! buffers reach the generator, and that the generator's one failure (a buffer
//! too short for a frame) can never come back to [`NukedOpl3`].

use nuked_opl3::{Opl3Chip, OplError};
use vstd::prelude::*;

verus! {

#[verifier::external_type_specification]
#[verifier::external_body]
pub struct ExOpl3Chip(Opl3Chip);

#[verifier::external_type_specification]
#[verifier::external_body]
pub struct ExOplError(OplError);

/// The lowest output rate the generator can run at. Below it the chip's
/// resampling ratio, `(rate << 10) / 49_716`, is zero, and generation never
/// returns.
pub const OPL_MIN_RATE: u32 = 49;

/// The highest output rate the generator can run at. Above it the ratio
/// exceeds `0x10000`, and the chip's 32-bit interpolation between two full-scale
/// samples can overflow.
pub const OPL_MAX_RATE: u32 = 3_181_872;

/// Whether `reg` lies in an operator bank (`0x20`-`0x9F`, `0xE0`-`0xFF`, in
/// either register half) at one of the offsets that address no operator: the
/// low five bits `0x06`, `0x07`, `0x0E`, `0x0F` or `0x16` and up.
pub open spec fn is_operator_gap(reg: u16) -> bool {
    let regm = reg % 256;
    let bank = regm / 16;
    let offset = regm % 32;
    &&& (2 <= bank <= 9 || 14 <= bank <= 15)
    &&& (offset == 6 || offset == 7 || offset == 14 || offset == 15 || offset >= 22)
}

/// An operator gap in the high register half (bit 8 of `reg` set).
pub open spec fn is_high_gap(reg: u16) -> bool {
    is_operator_gap(reg) && (reg / 256) % 2 == 1
}

/// The register a write to `reg` is handed to the chip as: a high-half gap
/// goes to the same gap of the low half, which the chip ignores just as it
/// ignores the high one; every other register goes as it is.
pub open spec fn handed_reg(reg: u16) -> u16 {
    if is_high_gap(reg) {
        (reg % 256) as u16
    } else {
        reg
    }
}

/// Computes [`is_operator_gap`].
pub fn operator_gap(reg: u16) -> (g: bool)
    ensures
        g == is_operator_gap(reg),
{
    let regm = reg % 256;
    let bank = regm / 16;
    let offset = regm % 32;
    (2 <= bank && bank <= 9 || 14 <= bank && bank <= 15) && (offset == 6 || offset == 7 || offset
        == 14 || offset == 15 || offset >= 22)
}

/// Computes [`handed_reg`].
pub fn hand_reg(reg: u16) -> (r: u16)
    ensures
        r == handed_reg(reg),
        !is_high_gap(r),
{
    if operator_gap(reg) && (reg / 256) % 2 == 1 {
        reg % 256
    } else {
        reg
    }
}

/// `Opl3Chip::new`: a chip reset for `sample_rate`. The rate is held to
/// `OPL_MIN_RATE..=OPL_MAX_RATE`, the range the chip's generator can run at, so
/// every chip this library holds can generate. Nothing is stated of the chip's
/// state, which is opaque here.
#[verifier::external_body]
fn opl3_new(sample_rate: u32) -> Opl3Chip
    requires
        OPL_MIN_RATE <= sample_rate <= OPL_MAX_RATE,
{
    Opl3Chip::new(sample_rate)
}

/// `Opl3Chip::reset`: puts the chip back in its power-on state for
/// `sample_rate`, held to the generator's range as in `opl3_new`. Nothing is
/// stated of the chip's state, which is opaque here.
#[verifier::external_body]
fn opl3_reset(chip: &mut Opl3Chip, sample_rate: u32)
    requires
        OPL_MIN_RATE <= sample_rate <= OPL_MAX_RATE,
{
    chip.reset(sample_rate)
}

/// `Opl3Chip::write_register`: an immediate register write. Bit 8 of `reg`
/// selects the high bank. The crate ignores a write to an operator gap, but
/// in the high bank it first computes the slot index in an overflowing
/// addition, which panics under overflow checks: high-half gaps are left out.
/// Nothing is stated of the chip's state, which is opaque here.
#[verifier::external_body]
fn opl3_write_register(chip: &mut Opl3Chip, reg: u16, value: u8)
    requires
        !is_high_gap(reg),
{
    chip.write_register(reg, value)
}

/// `Opl3Chip::write_register_buffered`: queues the write, to be applied during
/// generation a few samples after the previous queued one, through the same
/// path as `write_register`; high-half gaps are left out for the same reason.
/// Nothing is stated of the chip's state, which is opaque here.
#[verifier::external_body]
fn opl3_write_register_buffered(chip: &mut Opl3Chip, reg: u16, value: u8)
    requires
        !is_high_gap(reg),
{
    chip.write_register_buffered(reg, value)
}

/// `Opl3Chip::generate_stream`: fails, touching nothing, exactly when the
/// buffer is shorter than one stereo frame; otherwise fills it with
/// `len / 2` interleaved frames. The slice keeps its length either way. The
/// samples themselves depend on the opaque chip state and are not stated. The
/// generator needs the chip to have been made at a rate in
/// `OPL_MIN_RATE..=OPL_MAX_RATE`; `opl3_new` and `opl3_reset`, the only ways
/// this library makes or remakes a chip, require that range.
#[verifier::external_body]
fn opl3_generate_stream(chip: &mut Opl3Chip, buffer: &mut [i16]) -> (r: Result<(), OplError>)
    ensures
        r is Ok <==> old(buffer)@.len() >= 2,
        final(buffer)@.len() == old(buffer)@.len(),
        r is Err ==> final(buffer)@ == old(buffer)@,
{
    chip.generate_stream(buffer)
}

/// An OPL2/OPL3 chip that turns register writes into stereo PCM.
///
/// Implementations must be deterministic and free of floating-point rounding
/// differences across targets.
pub trait OplChip {
    /// Discards all chip state and re-initialises at `sample_rate`.
    fn reset(&mut self, sample_rate: u32)
        requires
            OPL_MIN_RATE <= sample_rate <= OPL_MAX_RATE,
    ;

    /// Writes `value` to `reg`, taking effect immediately. Bit 8 of `reg`
    /// selects the high register bank.
    fn write_reg(&mut self, reg: u16, value: u8);

    /// Writes `value` to `reg` through the chip's write buffer, if it has one.
    ///
    /// Writes with no samples rendered between them would otherwise collapse
    /// to their net state, so fast key retriggers would be lost; the buffered
    /// path spreads queued writes a couple of samples apart during generation.
    /// The default is an immediate write.
    fn write_reg_buffered(&mut self, reg: u16, value: u8) {
        self.write_reg(reg, value);
    }

    /// Fills `buffer` with interleaved stereo samples: `buffer.len() / 2`
    /// frames. The buffer keeps its length.
    fn generate_samples(&mut self, buffer: &mut [i16])
        requires
            old(buffer)@.len() % 2 == 0,
        ensures
            final(buffer)@.len() == old(buffer)@.len(),
    ;
}

/// Nuked-OPL3, the reference-accurate YMF262 emulation, through the pure Rust
/// `nuked_opl3` crate.
pub struct NukedOpl3 {
    chip: Opl3Chip,
}

impl NukedOpl3 {
    /// A fresh chip generating at `sample_rate`.
    pub fn new(sample_rate: u32) -> (c: Self)
        requires
            OPL_MIN_RATE <= sample_rate <= OPL_MAX_RATE,
    {
        NukedOpl3 { chip: opl3_new(sample_rate) }
    }
}

impl OplChip for NukedOpl3 {
    fn reset(&mut self, sample_rate: u32) {
        opl3_reset(&mut self.chip, sample_rate);
    }

    /// The write goes to the chip as [`handed_reg`] says.
    fn write_reg(&mut self, reg: u16, value: u8) {
        opl3_write_register(&mut self.chip, hand_reg(reg), value);
    }

    /// The write is queued as [`handed_reg`] says, so a gap write still takes
    /// its place in the queue's timing.
    fn write_reg_buffered(&mut self, reg: u16, value: u8) {
        opl3_write_register_buffered(&mut self.chip, hand_reg(reg), value);
    }

    /// A buffer too short for one frame is left as it is; any other is handed
    /// whole to the generator, which then cannot fail.
    fn generate_samples(&mut self, buffer: &mut [i16])
        ensures
            old(buffer)@.len() < 2 ==> final(buffer)@ == old(buffer)@,
    {
        if buffer.len() < 2 {
            return;
        }
        let r = opl3_generate_stream(&mut self.chip, buffer);
        match r {
            Ok(()) => {},
            Err(_) => {
                assert(false);
            },
        }
    }
}

} // verus!
