use dro_synth::peak::{scan_peak, Peak};

#[test]
fn from_abs_saturates_and_flags_clipping() {
    // Below full scale: stored verbatim, not clipped.
    assert_eq!(
        Peak::from_abs(0),
        Peak {
            max_level: 0,
            clipped: false
        }
    );
    assert_eq!(
        Peak::from_abs(16_384),
        Peak {
            max_level: 16_384,
            clipped: false
        }
    );
    // Exactly full scale: kept, and flagged.
    assert_eq!(
        Peak::from_abs(0x7FFF),
        Peak {
            max_level: 0x7FFF,
            clipped: true
        }
    );
    // `i16::MIN`'s magnitude of 0x8000 is representable as a `u16`; it
    // saturates back to full scale and still flags clipping.
    assert_eq!(
        Peak::from_abs(0x8000),
        Peak {
            max_level: 0x7FFF,
            clipped: true
        }
    );
}

#[test]
fn a_scan_keeps_the_loudest_magnitude() {
    assert_eq!(scan_peak(0, &[]), 0);
    assert_eq!(scan_peak(0, &[3, -7, 5]), 7);
    assert_eq!(scan_peak(9, &[3, -7, 5]), 9);
    assert_eq!(scan_peak(0, &[i16::MIN, 1]), 0x8000);
    assert_eq!(Peak::from_abs(scan_peak(0, &[i16::MIN])).max_level, i16::MAX);
}
