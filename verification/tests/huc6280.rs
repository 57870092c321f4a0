use dro_synth::chip::ChipCore;
use dro_synth::cores::huc6280::{HuC6280, ATTENUATION, CYCLES_PER_SAMPLE, PEAK, WAVE_LEN};


/// The PC Engine's clock.
const PCE: u32 = 3_579_545;

fn render(chip: &mut HuC6280, frames: usize) -> Vec<[i32; 2]> {
    let mut out = vec![0i32; frames * 2];
    chip.render(&mut out);
    out.chunks_exact(2).map(|f| [f[0], f[1]]).collect()
}

fn energy(frames: &[[i32; 2]]) -> i64 {
    frames
        .iter()
        .map(|f| i64::from(f[0].abs()) + i64::from(f[1].abs()))
        .sum()
}

/// Loads channel `index` with a square wave and switches it on, loud and
/// centred.
fn key_on(chip: &mut HuC6280, index: u16, frequency: u16) {
    chip.write(0, 0x00, index); // select the channel
    chip.write(0, 0x04, 0x00); // off, and out of DDA, resetting the pointer
    for step in 0..WAVE_LEN as u16 {
        chip.write(0, 0x06, if step < 16 { 0x1F } else { 0x00 });
    }
    chip.write(0, 0x02, frequency & 0xFF);
    chip.write(0, 0x03, frequency >> 8);
    chip.write(0, 0x05, 0x00); // no balance attenuation
    chip.write(0, 0x04, 0x80); // on, volume 0 == loudest
}

/// Every gain recomputed from "1.5 dB a step" rather than transcribed.
#[test]
fn the_attenuation_curve_is_one_and_a_half_decibels_a_step() {
    for (step, &gain) in ATTENUATION.iter().enumerate() {
        let expected = 65536.0 * 10f64.powf(-1.5 * step as f64 / 20.0);
        assert_eq!(gain, expected.round() as i32, "step {step}");
    }
    assert_eq!(ATTENUATION[0], 65536, "step 0 is unity, not silence");
    // Four steps halve, which is what 1.5 dB a step means.
    let ratio = f64::from(ATTENUATION[0]) / f64::from(ATTENUATION[4]);
    assert!((1.9..=2.1).contains(&ratio), "four steps came to {ratio}x");
}

#[test]
fn a_fresh_chip_is_silent_and_a_loaded_channel_is_not() {
    let mut chip = HuC6280::new();
    chip.reset(PCE, false);
    assert_eq!(energy(&render(&mut chip, 2000)), 0, "nothing loaded yet");

    key_on(&mut chip, 0, 0x100);
    assert!(energy(&render(&mut chip, 2000)) > 0);
}

/// **The banked registers.** `$0800` chooses which channel every later
/// write lands on; ignoring it puts the whole tune on channel 1, which
/// sounds like a mix that has lost most of its parts.
#[test]
fn the_channel_select_banks_every_later_write() {
    let mut chip = HuC6280::new();
    chip.reset(PCE, false);
    key_on(&mut chip, 3, 0x100);

    assert!(chip.channels[3].on, "channel 4 must be the one switched on");
    assert!(
        chip.channels
            .iter()
            .enumerate()
            .all(|(i, c)| i == 3 || !c.on),
        "no other channel may have been touched"
    );
    assert!(energy(&render(&mut chip, 2000)) > 0);
}

/// **Stereo is per channel.** Four bits of attenuation each side, and this
/// chip really does pan -- a rip mixed to mono loses part of the
/// arrangement.
#[test]
fn each_channel_has_its_own_balance() {
    let mut chip = HuC6280::new();
    chip.reset(PCE, false);
    key_on(&mut chip, 0, 0x100);
    // Left at full, right attenuated well past the curve.
    chip.write(0, 0x05, 0x0F);

    let frames = render(&mut chip, 4000);
    let left: i64 = frames.iter().map(|f| i64::from(f[0].abs())).sum();
    let right: i64 = frames.iter().map(|f| i64::from(f[1].abs())).sum();
    assert!(left > 0, "the left side must sound");
    assert!(
        right * 4 < left,
        "fifteen steps of attenuation is 22 dB: {left} vs {right}"
    );
}

/// The wavetable is what makes this chip: the same channel plays whatever
/// was written into it, so two different tables must not sound the same.
#[test]
fn a_channel_plays_the_table_it_was_given() {
    fn render_table(fill: &dyn Fn(u16) -> u16) -> Vec<[i32; 2]> {
        let mut chip = HuC6280::new();
        chip.reset(PCE, false);
        chip.write(0, 0x00, 0);
        chip.write(0, 0x04, 0x00);
        for step in 0..WAVE_LEN as u16 {
            chip.write(0, 0x06, fill(step));
        }
        chip.write(0, 0x02, 0x40);
        chip.write(0, 0x03, 0x00);
        chip.write(0, 0x05, 0x00);
        chip.write(0, 0x04, 0x80);
        render(&mut chip, 2000)
    }
    let square = render_table(&|step| if step < 16 { 0x1F } else { 0x00 });
    let ramp = render_table(&|step| step & 0x1F);
    assert!(energy(&square) > 0 && energy(&ramp) > 0);
    assert_ne!(square, ramp, "the table must reach the output");
}

/// Direct D/A is how the PC Engine plays samples: writes go straight to the
/// output instead of the table, and nothing steps.
#[test]
fn direct_d_to_a_writes_the_output_rather_than_the_table() {
    let mut chip = HuC6280::new();
    chip.reset(PCE, false);
    chip.write(0, 0x00, 0);
    chip.write(0, 0x05, 0x00);
    chip.write(0, 0x04, 0xC0); // on, DDA, loudest

    // A run of alternating extremes, which is the steepest thing the
    // channel can produce -- and impossible if the writes went to a table.
    let mut moved = 0i64;
    for step in 0..40 {
        chip.write(0, 0x06, if step % 2 == 0 { 0x00 } else { 0x1F });
        moved += energy(&render(&mut chip, 20));
    }
    assert!(moved > 0, "direct writes made no sound");
    assert_eq!(
        chip.channels[0].wave, [0; WAVE_LEN],
        "the table was written"
    );
}

/// Noise is channels 5 and 6 only, which is a real restriction rather than
/// an accident of the register map.
#[test]
fn only_the_last_two_channels_can_be_noise() {
    let mut chip = HuC6280::new();
    chip.reset(PCE, false);

    chip.write(0, 0x00, 0); // channel 1
    chip.write(0, 0x07, 0x9F);
    assert!(
        !chip.channels[0].noise_on,
        "channel 1 has no noise generator"
    );

    chip.write(0, 0x00, 4); // channel 5
    chip.write(0, 0x07, 0x9F);
    assert!(chip.channels[4].noise_on);

    chip.write(0, 0x05, 0x00);
    chip.write(0, 0x04, 0x80);
    assert!(energy(&render(&mut chip, 4000)) > 0, "the noise must sound");
}

/// Switching a channel on restarts its table, so a retrigger begins at the
/// same point in the waveform every time.
#[test]
fn switching_a_channel_on_restarts_its_table() {
    let mut chip = HuC6280::new();
    chip.reset(PCE, false);
    key_on(&mut chip, 0, 0x100);
    let _ = render(&mut chip, 500);
    assert_ne!(chip.channels[0].position, 0, "it should have moved on");

    chip.write(0, 0x04, 0x00); // off
    chip.write(0, 0x04, 0x80); // on again
    assert_eq!(
        chip.channels[0].position, 0,
        "a retrigger starts at the top"
    );
}

/// A zero frequency must not divide by zero; the documented behaviour is
/// the full twelve-bit span.
#[test]
fn a_zero_frequency_behaves_as_the_full_span() {
    let mut chip = HuC6280::new();
    chip.reset(PCE, false);
    key_on(&mut chip, 0, 0x000);
    assert_eq!(chip.channels[0].period(), 0x1000);
    let _ = render(&mut chip, 4000);
}

#[test]
fn the_native_rate_divides_the_clock() {
    let mut chip = HuC6280::new();
    chip.reset(PCE, false);
    assert_eq!(chip.native_rate(), PCE / CYCLES_PER_SAMPLE);
    chip.reset(0, false);
    assert!(
        chip.native_rate() >= 1,
        "a zero clock must not divide to zero"
    );
}

/// Chunking must not change the audio.
#[test]
fn huc6280_the_output_does_not_depend_on_how_the_caller_chunks_it() {
    fn set_up(chip: &mut HuC6280) {
        chip.reset(PCE, false);
        for (index, frequency) in [(0u16, 0x100u16), (1, 0x180), (2, 0x0C0)] {
            key_on(chip, index, frequency);
        }
    }
    let mut whole = HuC6280::new();
    set_up(&mut whole);
    let mut one_go = vec![0i32; 2048 * 2];
    whole.render(&mut one_go);

    let mut chunked = HuC6280::new();
    set_up(&mut chunked);
    let mut piecemeal = vec![0i32; 2048 * 2];
    for chunk in piecemeal.chunks_mut(64 * 2) {
        chunked.render(chunk);
    }
    assert_eq!(one_go, piecemeal);
}

/// Six channels at full volume, and the headroom that implies.
#[test]
fn huc6280_a_full_chip_uses_the_range_without_clipping_it() {
    let mut chip = HuC6280::new();
    chip.reset(PCE, false);
    for index in 0..6u16 {
        key_on(&mut chip, index, 0x100 + index * 0x20);
    }
    let loudest = render(&mut chip, 4000)
        .iter()
        .flat_map(|f| [f[0].abs(), f[1].abs()])
        .max()
        .unwrap_or(0);
    assert!(
        loudest > PEAK,
        "six channels at the top peaked at only {loudest}"
    );
    assert!(
        loudest < i32::from(i16::MAX),
        "six channels must not need the mixer's clamp on their own: {loudest}"
    );
}
