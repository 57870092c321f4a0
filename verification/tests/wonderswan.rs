use dro_synth::chip::ChipCore;
use dro_synth::cores::wonderswan::WonderSwan;


/// The WonderSwan master clock.
const CLOCK: u32 = 3_072_000;

fn render(chip: &mut WonderSwan, frames: usize) -> Vec<(i32, i32)> {
    let mut out = vec![0i32; frames * 2];
    chip.render(&mut out);
    out.chunks_exact(2).map(|f| (f[0], f[1])).collect()
}

fn energy(samples: &[(i32, i32)]) -> i64 {
    samples
        .iter()
        .map(|&(l, r)| i64::from(l.abs()) + i64::from(r.abs()))
        .sum()
}

fn key_on(chip: &mut WonderSwan) {
    chip.write(0, 0x0F, 0x00); // wave RAM at base 0
    for at in 0..16u16 {
        // A square: eight high nibble-pairs, eight low.
        chip.write(1, at, if at < 8 { 0xFF } else { 0x00 });
    }
    chip.write(0, 0x00, 0x00); // pitch: period 2048-0x700
    chip.write(0, 0x01, 0x07);
    chip.write(0, 0x08, 0xFF); // both sides full
    chip.write(0, 0x10, 0x01); // enable channel 1
}

#[test]
fn wonderswan_a_fresh_chip_is_silent_and_an_enabled_one_is_not() {
    let mut chip = WonderSwan::new();
    chip.reset(CLOCK, false);
    assert_eq!(energy(&render(&mut chip, 200)), 0);
    key_on(&mut chip);
    assert!(energy(&render(&mut chip, 500)) > 0);
}

/// The wave RAM base register frames which memory writes land: writes
/// outside the window must not corrupt the tables.
#[test]
fn the_wave_base_frames_the_window() {
    let mut chip = WonderSwan::new();
    chip.reset(CLOCK, false);
    chip.write(0, 0x0F, 0x01); // window at 0x40
    chip.write(1, 0x0040, 0xAB);
    chip.write(1, 0x0000, 0xCD); // outside: dropped
    assert_eq!(chip.wave_ram[0], 0xAB);
    assert!(!chip.wave_ram.contains(&0xCD));
}

/// Channel 2's voice mode plays the DAC byte instead of its table.
#[test]
fn the_voice_mode_is_a_dac() {
    let mut chip = WonderSwan::new();
    chip.reset(CLOCK, false);
    chip.write(0, 0x09, 0xFF); // channel 2 volume
    chip.write(0, 0x10, 0x22); // enable channel 2, voice mode
    chip.write(0, 0x11, 0xFF); // a loud positive sample
    let samples = render(&mut chip, 50);
    assert!(samples.iter().all(|&(l, _)| l > 0), "a held DAC level");
}

/// Channel 4's noise mode produces both polarities.
#[test]
fn the_noise_mode_rattles() {
    let mut chip = WonderSwan::new();
    chip.reset(CLOCK, false);
    chip.write(0, 0x0B, 0xFF);
    chip.write(0, 0x10, 0x88); // enable channel 4, noise mode
    let samples = render(&mut chip, 500);
    assert!(samples.iter().any(|&(l, _)| l > 0));
    assert!(samples.iter().any(|&(l, _)| l < 0));
}
