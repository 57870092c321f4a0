use dro_synth::chip::ChipCore;
use dro_synth::cores::k051649::K051649;


/// The MSX's SCC clock.
const CLOCK: u32 = 1_789_772;

fn render(chip: &mut K051649, frames: usize) -> Vec<i32> {
    let mut out = vec![0i32; frames * 2];
    chip.render(&mut out);
    out.chunks_exact(2).map(|f| f[0]).collect()
}

fn energy(samples: &[i32]) -> i64 {
    samples.iter().map(|&s| i64::from(s.abs())).sum()
}

/// A loud square wave into channel 1.
fn key_on(chip: &mut K051649) {
    for at in 0..32u16 {
        chip.write(0, at, if at < 16 { 0x7F } else { 0x80 });
    }
    chip.write(1, 0, 0x6D); // period 0x16D: roughly A440
    chip.write(1, 1, 0x01);
    chip.write(2, 0, 0x0F); // full volume
    chip.write(3, 0, 0x01); // enable channel 1
}

#[test]
fn k051649_a_fresh_chip_is_silent_and_an_enabled_one_is_not() {
    let mut chip = K051649::new();
    chip.reset(CLOCK, false);
    assert_eq!(energy(&render(&mut chip, 500)), 0);
    key_on(&mut chip);
    assert!(energy(&render(&mut chip, 2000)) > 0);
}

/// Pitch counted in wave cycles rather than asserted from the formula:
/// the tone is `clock / (32 x (period + 1))`.
#[test]
fn k051649_a_tone_sounds_at_the_documented_frequency() {
    let mut chip = K051649::new();
    chip.reset(CLOCK, false);
    key_on(&mut chip);
    let second = chip.native_rate() as usize;
    let samples = render(&mut chip, second);
    let mut crossings = 0u32;
    for pair in samples.windows(2) {
        if (pair[0] >= 0) != (pair[1] >= 0) {
            crossings += 1;
        }
    }
    let cycles = crossings / 2;
    let expected = CLOCK / (32 * (0x16D + 1));
    let drift = cycles.abs_diff(expected);
    assert!(
        drift * 50 <= expected,
        "counted {cycles} Hz, expected about {expected}"
    );
}

/// **Channel 5 plays channel 4's table on the SCC.** Writing table 4 and
/// enabling only channel 5 must sound on the plain chip; on the SCC+ the
/// same writes leave channel 5 with its own -- empty -- table.
#[test]
fn channel_five_shares_table_four_on_the_plain_scc() {
    for (plus, should_sound) in [(false, true), (true, false)] {
        let mut chip = K051649::new();
        chip.reset(CLOCK, plus);
        for at in 0..32u16 {
            chip.write(0, 0x60 + at, if at < 16 { 0x7F } else { 0x80 });
        }
        chip.write(1, 8, 0x40); // channel 5 period
        chip.write(1, 9, 0x01);
        chip.write(2, 4, 0x0F);
        chip.write(3, 0, 0x10); // enable channel 5 only
        let loud = energy(&render(&mut chip, 2000)) > 0;
        assert_eq!(loud, should_sound, "plus={plus}");
    }
}

/// The SCC+'s port-4 window reaches channel 5's own memory -- and does
/// not exist on the plain chip.
#[test]
fn the_port_four_window_is_scc_plus_only() {
    for (plus, should_sound) in [(true, true), (false, false)] {
        let mut chip = K051649::new();
        chip.reset(CLOCK, plus);
        for at in 0..32u16 {
            chip.write(4, at, if at < 16 { 0x7F } else { 0x80 });
        }
        chip.write(1, 8, 0x40);
        chip.write(1, 9, 0x01);
        chip.write(2, 4, 0x0F);
        chip.write(3, 0, 0x10);
        let loud = energy(&render(&mut chip, 2000)) > 0;
        assert_eq!(loud, should_sound, "plus={plus}");
    }
}

/// The enable mask gates exactly the channels it names.
#[test]
fn the_enable_mask_gates_by_bit() {
    let mut chip = K051649::new();
    chip.reset(CLOCK, false);
    key_on(&mut chip);
    assert!(energy(&render(&mut chip, 1000)) > 0);
    chip.write(3, 0, 0x00);
    assert_eq!(energy(&render(&mut chip, 1000)), 0);
}

/// A zero period must not divide by zero.
#[test]
fn k051649_a_zero_period_behaves_as_one() {
    let mut chip = K051649::new();
    chip.reset(CLOCK, false);
    key_on(&mut chip);
    chip.write(1, 0, 0x00);
    chip.write(1, 1, 0x00);
    render(&mut chip, 100);
}
