use dro_synth::chip::ChipCore;
use dro_synth::cores::rf5c68::Rf5c68;


/// The Mega CD's RF5C164 clock.
const CLOCK: u32 = 12_500_000;

fn render(chip: &mut Rf5c68, frames: usize) -> Vec<(i32, i32)> {
    let mut out = vec![0i32; frames * 2];
    chip.render(&mut out);
    out.chunks_exact(2).map(|f| (f[0], f[1])).collect()
}

fn energy(samples: &[(i32, i32)]) -> i64 {
    samples
        .iter()
        .map(|&(l, r)| i64::from(l.abs()) + i64::from(r.abs()))
        .sum()
}

/// Uploads a loud alternating sample at 0x1000 with a loop marker at its
/// end, and keys channel 1 onto it.
fn key_on(chip: &mut Rf5c68) {
    chip.write(0, 0x07, 0x41); // select... first, the bank: window at 0x1000
    chip.write(0, 0x07, 0x01);
    let wave: Vec<u8> = (0..256)
        .map(|i| if i % 2 == 0 { 0xFE } else { 0x7E })
        .collect();
    chip.write_ram(0, &wave);
    chip.ram[0x1100] = 0xFF; // loop marker
    chip.write(0, 0x07, 0xC0); // sounding on, select channel 0
    chip.write(0, 0x00, 0xFF); // envelope full
    chip.write(0, 0x01, 0xFF); // both sides full
    chip.write(0, 0x02, 0x00);
    chip.write(0, 0x03, 0x08); // delta 0x0800: one byte per frame
    chip.write(0, 0x04, 0x00); // loop to 0x1000
    chip.write(0, 0x05, 0x10);
    chip.write(0, 0x06, 0x10); // start at 0x1000
    chip.write(0, 0x08, 0xFE); // key channel 1 on (off-mask)
}

#[test]
fn rf5c68_a_fresh_chip_is_silent_and_a_keyed_one_is_not() {
    let mut chip = Rf5c68::new();
    chip.reset(CLOCK, false);
    assert_eq!(energy(&render(&mut chip, 500)), 0);
    key_on(&mut chip);
    assert!(energy(&render(&mut chip, 2000)) > 0);
}

/// **`0xFF` is the loop marker, not a sample.** A channel that reads it
/// jumps to the loop address and keeps sounding; with the marker at the
/// loop point too, it halts.
#[test]
fn the_ff_byte_loops_and_a_looped_ff_halts() {
    let mut chip = Rf5c68::new();
    chip.reset(CLOCK, false);
    key_on(&mut chip);
    // 256 bytes at one byte a frame, then the marker: the loop keeps it
    // sounding far past the sample's end.
    let long = energy(&render(&mut chip, 4000));
    assert!(long > 0, "the loop must keep the channel alive");

    // Point the loop at the marker itself: one jump, then silence.
    chip.write(0, 0x04, 0x00);
    chip.write(0, 0x05, 0x11); // loop to 0x1100 = the marker
    render(&mut chip, 300); // let it reach the end
    assert_eq!(
        energy(&render(&mut chip, 500)),
        0,
        "a marker at the loop point must halt, not spin"
    );
}

/// **Samples are sign-magnitude.** `0xFE` and `0x7E` are the same
/// magnitude on opposite sides of zero -- the alternating upload must
/// produce both polarities. Read two's complement instead, both land
/// negative-ish and the wave rides a huge DC offset.
#[test]
fn samples_are_sign_magnitude() {
    let mut chip = Rf5c68::new();
    chip.reset(CLOCK, false);
    key_on(&mut chip);
    let samples = render(&mut chip, 200);
    let positive = samples.iter().any(|&(l, _)| l > 0);
    let negative = samples.iter().any(|&(l, _)| l < 0);
    assert!(
        positive && negative,
        "both polarities must appear: {:?}",
        &samples[..8]
    );
}

/// The master enable gates everything; the key register is an off-mask.
#[test]
fn the_control_bits_gate_the_mix() {
    let mut chip = Rf5c68::new();
    chip.reset(CLOCK, false);
    key_on(&mut chip);
    assert!(energy(&render(&mut chip, 500)) > 0);
    chip.write(0, 0x07, 0x40); // sounding off
    assert_eq!(energy(&render(&mut chip, 500)), 0);
    chip.write(0, 0x07, 0xC0); // back on
    chip.write(0, 0x08, 0xFF); // all channels off
    assert_eq!(energy(&render(&mut chip, 500)), 0);
}

/// Memory pokes (port 1) go through the bank window, exactly like the
/// register-driven uploads.
#[test]
fn port_one_pokes_land_in_the_banked_window() {
    let mut chip = Rf5c68::new();
    chip.reset(CLOCK, false);
    chip.write(0, 0x07, 0x02); // bank 2: window at 0x2000
    chip.write(1, 0x0034, 0xAB);
    assert_eq!(chip.ram[0x2034], 0xAB);
}
