//! Sound-chip emulation cores and the playback bookkeeping around them.
//!
//! Every core is a deterministic state machine: register writes change its
//! state, and each rendered stereo frame is a function of the state alone.
//! The [`chip::ChipCore`] trait states that contract once, so that what holds
//! of one core's rendering (chunking is invisible, the state after `n` frames
//! is `n` steps of the machine) is proved once for all of them.

pub mod banks;
pub mod bits;
pub mod chip;
pub mod chip_mix;
pub mod cores;
pub mod credits;
pub mod engine;
pub mod opl;
pub mod peak;
pub mod registry;

use vstd::prelude::*;

verus! {

/// The OPL3's native sample rate. Rendering here avoids the chip's resampler.
pub const NATIVE_SAMPLE_RATE: u32 = 49_716;

} // verus!
