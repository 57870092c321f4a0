//! Peak-level measurement: the loudest sample of a render, and whether it
//! reached full scale.

use vstd::prelude::*;

verus! {

/// The loudest sample a render produces, and whether it reached full scale.
///
/// `max_level` is `max |sample|`, saturated into `i16`'s positive range: a
/// sample of `-32768` reads as `32767` and sets `clipped`, as a genuine
/// full-scale sample would.
#[derive(Debug, Clone, Copy, PartialEq, Eq, Structural)]
pub struct Peak {
    /// The loudest `|sample|`, in `i16` full-scale units (`0..=32767`).
    pub max_level: i16,
    /// Whether the peak reached full scale (`>= 0x7FFF`).
    pub clipped: bool,
}

/// The magnitude of a sample, `32768` for `i16::MIN`.
pub open spec fn magnitude(s: i16) -> u16 {
    if s < 0 {
        (-(s as int)) as u16
    } else {
        s as u16
    }
}

impl Peak {
    /// Full scale: the largest magnitude `i16` can represent.
    pub const FULL_SCALE: i16 = 0x7FFF;

    /// A peak from a running `max |sample|` held as a `u16`, saturated to full
    /// scale and flagged as clipped at or above it.
    pub fn from_abs(abs: u16) -> (p: Peak)
        ensures
            p.max_level == (if abs < 0x7FFF { abs as i16 } else { 0x7FFFi16 }),
            p.clipped == (abs >= 0x7FFF),
    {
        let level: i16 = if abs < 0x7FFF { abs as i16 } else { 0x7FFF };
        Peak { max_level: level, clipped: abs >= 0x7FFF }
    }
}

/// The larger of `running` and the magnitude of every sample in `samples`.
pub open spec fn peak_over(running: u16, samples: Seq<i16>) -> u16
    decreases samples.len(),
{
    if samples.len() == 0 {
        running
    } else {
        let before = peak_over(running, samples.drop_last());
        let m = magnitude(samples.last());
        if m > before {
            m
        } else {
            before
        }
    }
}

/// Folds a buffer of samples into a running peak magnitude.
pub fn scan_peak(running: u16, samples: &[i16]) -> (p: u16)
    ensures
        p == peak_over(running, samples@),
{
    let mut peak = running;
    let mut i: usize = 0;
    while i < samples.len()
        invariant
            i <= samples@.len(),
            peak == peak_over(running, samples@.take(i as int)),
        decreases samples@.len() - i,
    {
        let s = samples[i];
        let m: u16 = if s < 0 { (-(s as i32)) as u16 } else { s as u16 };
        if m > peak {
            peak = m;
        }
        proof {
            assert(samples@.take(i + 1).drop_last() =~= samples@.take(i as int));
        }
        i = i + 1;
    }
    proof {
        assert(samples@.take(i as int) =~= samples@);
    }
    peak
}

} // verus!
