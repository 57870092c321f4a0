use dro_synth::chip::ChipCore;
use dro_synth::cores::saa1099::Saa1099;


/// The usual 8 MHz crystal.
const CLOCK: u32 = 8_000_000;

fn render(chip: &mut Saa1099, frames: usize) -> Vec<(i32, i32)> {
    let mut out = vec![0i32; frames * 2];
    chip.render(&mut out);
    out.chunks_exact(2).map(|f| (f[0], f[1])).collect()
}

fn energy(samples: &[(i32, i32)]) -> i64 {
    samples
        .iter()
        .map(|&(l, r)| i64::from(l.abs()) + i64::from(r.abs()))
        .sum()
}

fn key_on(chip: &mut Saa1099) {
    chip.write(0, 0x1C, 0x01); // master enable
    chip.write(0, 0x00, 0xFF); // channel 0 amplitude
    chip.write(0, 0x08, 0x80); // frequency
    chip.write(0, 0x10, 0x04); // octave 4
    chip.write(0, 0x14, 0x01); // tone on
}

#[test]
fn the_master_enable_gates_everything() {
    let mut chip = Saa1099::new();
    chip.reset(CLOCK, false);
    key_on(&mut chip);
    assert!(energy(&render(&mut chip, 500)) > 0);
    chip.write(0, 0x1C, 0x00);
    assert_eq!(energy(&render(&mut chip, 500)), 0);
}

/// An octave doubles the pitch: one octave up counts twice the cycles.
#[test]
fn an_octave_doubles_the_rate() {
    let count = |octave: u8| {
        let mut chip = Saa1099::new();
        chip.reset(CLOCK, false);
        key_on(&mut chip);
        chip.write(0, 0x10, u16::from(octave));
        let samples = render(&mut chip, 4000);
        samples
            .windows(2)
            .filter(|pair| (pair[0].0 > 0) != (pair[1].0 > 0))
            .count()
    };
    let low = count(3);
    let high = count(4);
    assert!(
        (high as f64 / low as f64 - 2.0).abs() < 0.2,
        "octave 4 vs 3: {high} vs {low} crossings"
    );
}

/// The noise mixer sounds without any tone.
#[test]
fn noise_alone_sounds() {
    let mut chip = Saa1099::new();
    chip.reset(CLOCK, false);
    chip.write(0, 0x1C, 0x01);
    chip.write(0, 0x00, 0xFF);
    chip.write(0, 0x16, 0x00); // fastest noise
    chip.write(0, 0x15, 0x01); // noise on channel 0
    assert!(energy(&render(&mut chip, 500)) > 0);
}

/// The envelope on channel 2 decays it to silence in decay mode.
#[test]
fn the_envelope_rides_channel_two() {
    let mut chip = Saa1099::new();
    chip.reset(CLOCK, false);
    chip.write(0, 0x1C, 0x01);
    chip.write(0, 0x02, 0xFF); // channel 2 amplitude
    chip.write(0, 0x0A, 0x80);
    chip.write(0, 0x11, 0x04);
    chip.write(0, 0x14, 0x04); // tone on channel 2
    chip.write(0, 0x18, 0x84); // envelope: enabled, single decay
    let early = energy(&render(&mut chip, 200));
    render(&mut chip, 4000);
    let late = energy(&render(&mut chip, 200));
    assert!(early > 0);
    assert_eq!(late, 0, "a decayed envelope must be silent");
}
