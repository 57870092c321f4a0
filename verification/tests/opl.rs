use dro_synth::opl::{NukedOpl3, OplChip};
use dro_synth::NATIVE_SAMPLE_RATE;

#[test]
fn a_fresh_chip_is_silent() {
    let mut chip = NukedOpl3::new(NATIVE_SAMPLE_RATE);
    let mut buffer = [0i16; 256];
    chip.generate_samples(&mut buffer);
    assert!(buffer.iter().all(|&sample| sample == 0));
}

#[test]
fn keying_on_a_note_produces_sound() {
    let mut chip = NukedOpl3::new(NATIVE_SAMPLE_RATE);
    for (reg, value) in [
        (0x20u16, 0x01u8), // modulator: multiplier 1
        (0x40, 0x10),      // modulator: output level
        (0x60, 0xF0),      // modulator: fast attack, slow decay
        (0x80, 0x77),      // modulator: sustain / release
        (0x23, 0x01),      // carrier
        (0x43, 0x00),
        (0x63, 0xF0),
        (0x83, 0x77),
        (0xA0, 0x98), // frequency low
        (0xB0, 0x31), // key on, octave 4
    ] {
        chip.write_reg(reg, value);
    }
    let mut buffer = vec![0i16; 4096 * 2];
    chip.generate_samples(&mut buffer);
    assert!(buffer.iter().any(|&sample| sample != 0), "expected audio");
}

#[test]
fn reset_silences_the_chip() {
    let mut chip = NukedOpl3::new(NATIVE_SAMPLE_RATE);
    chip.write_reg(0x20, 0x01);
    chip.write_reg(0xA0, 0x98);
    chip.write_reg(0xB0, 0x31);
    let mut buffer = vec![0i16; 1024];
    chip.generate_samples(&mut buffer);

    chip.reset(NATIVE_SAMPLE_RATE);
    buffer.fill(0);
    chip.generate_samples(&mut buffer);
    assert!(buffer.iter().all(|&sample| sample == 0));
}

#[test]
fn undersized_buffers_are_ignored_rather_than_panicking() {
    let mut chip = NukedOpl3::new(NATIVE_SAMPLE_RATE);
    chip.generate_samples(&mut []);
}

/// The OPL's operator registers have gaps: `0x26`, `0x27`, `0x2E`, `0x2F` and
/// their counterparts in the 0x40/0x60/0x80/0xE0 banks address no operator.
/// DOSBox logs whatever a game writes, so a capture can contain them.
///
/// The generator must ignore such writes, in both banks, rather than index
/// past its operator table.
#[test]
fn writing_a_gap_register_does_not_panic() {
    let mut chip = NukedOpl3::new(NATIVE_SAMPLE_RATE);
    for register in [
        0x26u16, 0x27, 0x2E, 0x2F, 0x46, 0x47, 0x4E, 0x4F, 0x66, 0x67, 0x6E, 0x6F, 0x86, 0x87,
        0x8E, 0x8F, 0xE6, 0xE7, 0xEE, 0xEF, 0xFF,
    ] {
        chip.write_reg(register, 0xFF);
        chip.write_reg(0x100 | register, 0xFF); // and in the high bank
    }
    let mut buffer = [0i16; 128];
    chip.generate_samples(&mut buffer);
}

/// The reason `write_reg_buffered` exists: a back-to-back key-off / key-on
/// with no samples rendered between them must still retrigger the note.
///
/// Nuked resolves the key edge at generation time, so the immediate path
/// collapses the off/on to its net state ("still on") and the note is not
/// restruck -- the very drop this fixes. The buffered path spreads the two
/// writes a couple of samples apart, so the envelope sees the 0->1 edge and
/// re-attacks, making the segment right after the retrigger far louder.
#[test]
fn buffered_writes_retrigger_a_back_to_back_key_on() {
    // A percussive note (EG-TYP clear): attacks, then decays to silence.
    const SETUP: [(u16, u8); 9] = [
        (0x20, 0x01),
        (0x40, 0x00),
        (0x60, 0xFA), // modulator: fast attack, medium decay
        (0x80, 0x0F),
        (0x23, 0x01),
        (0x43, 0x00),
        (0x63, 0xFA), // carrier: fast attack, medium decay
        (0x83, 0x0F),
        (0xA0, 0x98),
    ];

    fn energy(samples: &[i16]) -> u64 {
        samples.iter().map(|&s| u64::from(s.unsigned_abs())).sum()
    }

    // Returns the energy of the segment rendered just after a back-to-back
    // key-off (`0x11`) + key-on (`0x31`) retrigger of a decayed note.
    fn retrigger_energy(buffered: bool) -> u64 {
        let mut chip = NukedOpl3::new(NATIVE_SAMPLE_RATE);
        for (reg, value) in SETUP {
            chip.write_reg(reg, value);
        }
        chip.write_reg(0xB0, 0x31); // key on
        chip.generate_samples(&mut vec![0i16; 16_000 * 2]); // let it decay to near silence
        if buffered {
            chip.write_reg_buffered(0xB0, 0x11); // key off (same block/fnum)
            chip.write_reg_buffered(0xB0, 0x31); // key on again
        } else {
            chip.write_reg(0xB0, 0x11);
            chip.write_reg(0xB0, 0x31);
        }
        let mut segment = vec![0i16; 2000 * 2];
        chip.generate_samples(&mut segment);
        energy(&segment)
    }

    let buffered = retrigger_energy(true);
    let immediate = retrigger_energy(false);
    assert!(
        buffered > immediate * 4,
        "buffered writes must retrigger the note: buffered={buffered} immediate={immediate}"
    );
}

/// Every register a DRO file can name, in both banks, must be writable.
#[test]
fn no_register_write_panics() {
    let mut chip = NukedOpl3::new(NATIVE_SAMPLE_RATE);
    for register in 0x000u16..=0x1FF {
        chip.write_reg(register, 0xFF);
        chip.write_reg(register, 0x00);
    }
    let mut buffer = [0i16; 128];
    chip.generate_samples(&mut buffer);
}
