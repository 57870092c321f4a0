use dro_synth::chip::ChipCore;
use dro_synth::cores::es5503::Es5503;


/// The IIgs DOC clock.
const CLOCK: u32 = 7_159_090;

fn render(chip: &mut Es5503, frames: usize) -> Vec<i32> {
    let mut out = vec![0i32; frames * 2];
    chip.render(&mut out);
    out.chunks_exact(2).map(|f| f[0]).collect()
}

fn energy(samples: &[i32]) -> i64 {
    samples.iter().map(|&s| i64::from(s.abs())).sum()
}

fn key_on(chip: &mut Es5503) {
    // A 256-byte square avoiding the zero stop code.
    let wave: Vec<u8> = (0..256)
        .map(|i| if i < 128 { 0xFF } else { 0x01 })
        .collect();
    chip.write_ram(0x100, &wave);
    chip.write(0, 0x00, 0x00); // frequency
    chip.write(0, 0x20, 0x08);
    chip.write(0, 0x40, 0xFF); // volume
    chip.write(0, 0x80, 0x01); // page 1
    chip.write(0, 0xC0, 0x00); // 256-byte table
    chip.write(0, 0xA0, 0x00); // free-run, un-halt
}

#[test]
fn a_fresh_chip_is_silent_and_an_unhalted_one_is_not() {
    let mut chip = Es5503::new();
    chip.reset(CLOCK, false);
    assert_eq!(energy(&render(&mut chip, 200)), 0, "all halted at reset");
    key_on(&mut chip);
    assert!(energy(&render(&mut chip, 500)) > 0);
}

/// **A zero byte halts the oscillator** -- the DOC's stop code lives in
/// the wave data.
#[test]
fn the_zero_byte_halts() {
    let mut chip = Es5503::new();
    chip.reset(CLOCK, false);
    key_on(&mut chip);
    chip.write_ram(0x180, &[0x00]); // a stop code mid-wave
    // At frequency 0x0800 the index moves 1/32 sample a frame: give it
    // time to walk the 0x80 samples to the marker.
    render(&mut chip, 0x80 * 32 + 100);
    assert_eq!(energy(&render(&mut chip, 200)), 0);
}

/// Enabling more oscillators slows the scan: the rate drops.
#[test]
fn the_enable_count_divides_the_scan() {
    let mut chip = Es5503::new();
    chip.reset(CLOCK, false);
    chip.write(0, 0xE1, 0x3E); // all 32
    let all = chip.native_rate();
    chip.write(0, 0xE1, 0x00); // one oscillator
    let one = chip.native_rate();
    assert!(
        one > all * 8,
        "one oscillator scans far faster: {one} vs {all}"
    );
}
