use dro_synth::chip::ChipCore;
use dro_synth::cores::okim::{Adpcm, Okim6258, Okim6295, PEAK, STEP_TABLE, VOLUME};


/// **NMK112 banking replaces the plain latch entirely.** With the mode
/// byte set, each 64 KB quarter of the chip's view maps through its own
/// bank register -- table reads included -- and the `$0F` latch no longer
/// participates.
#[test]
fn nmk112_banks_each_quarter_and_eclipses_the_plain_latch() {
    // Two 64 KB banks; everything real lives in bank 1: the phrase table
    // at its base, the sample data 0x1000 in.
    let mut rom = vec![0u8; 0x20000];
    let (start, end) = (0x1000u32, 0x1100u32);
    rom[0x10008..0x1000B].copy_from_slice(&start.to_be_bytes()[1..]);
    rom[0x1000B..0x1000E].copy_from_slice(&end.to_be_bytes()[1..]);
    for (index, byte) in rom[0x11000..=0x11100].iter_mut().enumerate() {
        *byte = if index % 2 == 0 { 0x77 } else { 0xFF };
    }

    let mut chip = Okim6295::new();
    chip.reset(M6295_CLOCK, false);
    chip.load_rom(0x8B, rom.len() as u32, 0, &rom);
    chip.write(0, 0x0F, 0x02); // a stale plain latch that must not matter
    chip.write(0, 0x0E, 0x01); // NMK112 mode on, table unpaged
    chip.write(0, 0x10, 0x01); // quarter 0 reads bank 1
    chip.write(0, 0, 0x81);
    chip.write(0, 0, 0x10);
    assert!(
        energy(&render6295(&mut chip, 2000)) > 0,
        "quarter 0 must read through its bank register"
    );

    // Point quarter 0 at the zeroed bank instead: the same phrase is
    // refused, proving the reads went through the register both times.
    chip.write(0, 0x10, 0x00);
    chip.write(0, 0, 0x81);
    chip.write(0, 0, 0x10);
    assert_eq!(energy(&render6295(&mut chip, 2000)), 0);
}

/// With the mode byte's bit 7 set, the first 0x400 bytes of the table are
/// paged: each 256-byte run reads through its own quarter's bank.
#[test]
fn nmk112_bit_seven_pages_the_phrase_table() {
    let mut rom = vec![0u8; 0x20000];
    // Phrase 0x20's entry sits at table address 0x100 -- page 1 -- so in
    // paged mode it reads from bank 1's memory at that offset.
    let (start, end) = (0x1000u32, 0x1100u32);
    rom[0x10100..0x10103].copy_from_slice(&start.to_be_bytes()[1..]);
    rom[0x10103..0x10106].copy_from_slice(&end.to_be_bytes()[1..]);
    // The sample data the entry names is in quarter 0's bank -- bank 0.
    for (index, byte) in rom[0x1000..=0x1100].iter_mut().enumerate() {
        *byte = if index % 2 == 0 { 0x77 } else { 0xFF };
    }

    let mut chip = Okim6295::new();
    chip.reset(M6295_CLOCK, false);
    chip.load_rom(0x8B, rom.len() as u32, 0, &rom);
    chip.write(0, 0x0E, 0x81); // NMK112 mode on, paged table
    chip.write(0, 0x11, 0x01); // page 1 of the table reads bank 1
    chip.write(0, 0, 0x80 | 0x20);
    chip.write(0, 0, 0x10);
    assert!(
        energy(&render6295(&mut chip, 2000)) > 0,
        "table page 1 must read through quarter 1's bank"
    );
}

/// A common OKIM6295 clock on Capcom hardware.
const M6295_CLOCK: u32 = 1_000_000;
const M6258_CLOCK: u32 = 4_000_000;

fn render6295(chip: &mut Okim6295, frames: usize) -> Vec<i32> {
    let mut out = vec![0i32; frames * 2];
    chip.render(&mut out);
    out.chunks_exact(2).map(|f| f[0]).collect()
}

fn energy(samples: &[i32]) -> i64 {
    samples.iter().map(|&s| i64::from(s.abs())).sum()
}

/// A ROM whose table of contents points sample 1 at a run of loud nibbles.
fn rom_with_one_sample() -> Vec<u8> {
    let mut rom = vec![0u8; 0x2000];
    let (start, end) = (0x1000u32, 0x1200u32);
    // Entry 1 lives at offset 8: three bytes of start, three of end.
    rom[8..11].copy_from_slice(&start.to_be_bytes()[1..]);
    rom[11..14].copy_from_slice(&end.to_be_bytes()[1..]);
    // Alternating extremes: the steepest waveform the codec can produce.
    for (index, byte) in rom[start as usize..=end as usize].iter_mut().enumerate() {
        *byte = if index % 2 == 0 { 0x77 } else { 0xFF };
    }
    rom
}

/// The step table is documented, but it is also a geometric series -- each
/// entry is about 1.1 times the last. That relationship is what a
/// transcription error breaks.
#[test]
fn the_step_table_grows_by_a_ninth_each_entry() {
    assert_eq!(STEP_TABLE[0], 16);
    assert_eq!(STEP_TABLE[48], 1552);
    for pair in STEP_TABLE.windows(2) {
        let ratio = f64::from(pair[1]) / f64::from(pair[0]);
        assert!(
            (1.06..=1.14).contains(&ratio),
            "{} to {} is a ratio of {ratio}",
            pair[0],
            pair[1]
        );
    }
    // And the series doubles about every six entries, which is what "3 dB a
    // step" means for this codec.
    assert!((STEP_TABLE[6] as f64 / STEP_TABLE[0] as f64 - 1.75).abs() < 0.2);
}

/// Every volume level recomputed from 3 dB a step.
#[test]
fn the_volume_curve_is_three_decibels_a_step() {
    for (step, &gain) in VOLUME.iter().enumerate().take(13) {
        let expected = 65536.0 * 10f64.powf(-3.0 * step as f64 / 20.0);
        assert_eq!(gain, expected.round() as i32, "step {step}");
    }
    assert_eq!(&VOLUME[13..], &[0, 0, 0], "the top codes are silent");
}

/// The codec must move, clamp and adapt -- a decoder that saturates
/// immediately produces a square wave out of every sample.
#[test]
fn the_decoder_tracks_and_clamps() {
    let mut adpcm = Adpcm::new();
    // Driving it hard one way must reach the ceiling and stop there.
    for _ in 0..200 {
        adpcm.decode(0x7);
    }
    assert_eq!(adpcm.signal, 2047, "it must clamp, not wrap");
    for _ in 0..400 {
        adpcm.decode(0xF);
    }
    assert_eq!(adpcm.signal, -2048);
    // And the step index must have adapted upward on the way.
    assert_eq!(adpcm.step, 48);

    adpcm.restart();
    assert_eq!((adpcm.signal, adpcm.step), (0, 0));
}

#[test]
fn a_fresh_chip_is_silent_and_a_triggered_voice_is_not() {
    let mut chip = Okim6295::new();
    chip.reset(M6295_CLOCK, false);
    assert_eq!(energy(&render6295(&mut chip, 2000)), 0);

    let rom = rom_with_one_sample();
    chip.load_rom(0x8B, rom.len() as u32, 0, &rom);
    chip.write(0, 0, 0x81); // latch sample 1
    // The low nibble is an *attenuation*, so 0 is loudest and 15 silent.
    chip.write(0, 0, 0x10); // voice 1, full volume
    assert!(energy(&render6295(&mut chip, 2000)) > 0);
}

/// **The command interface is stateful and paired.** A write with bit 7 set
/// latches a sample; the next says which voices play it. Treating either as
/// a standalone command means nothing ever plays.
#[test]
fn a_sample_needs_both_halves_of_the_command() {
    let rom = rom_with_one_sample();
    let mut chip = Okim6295::new();
    chip.reset(M6295_CLOCK, false);
    chip.load_rom(0x8B, rom.len() as u32, 0, &rom);

    // The latch on its own does nothing.
    chip.write(0, 0, 0x81);
    assert_eq!(energy(&render6295(&mut chip, 500)), 0);

    // And a voice mask with nothing latched *stops* rather than starts.
    chip.write(0, 0, 0x10);
    let started = energy(&render6295(&mut chip, 2000));
    assert!(started > 0, "the pair must start it");

    chip.write(0, 0, 0x10); // mask with no latch: stop voice 1
    assert_eq!(
        energy(&render6295(&mut chip, 2000)),
        0,
        "a mask with nothing latched must stop the voice"
    );
}

/// **Voice 4's select bit is bit 7**, the same bit that marks a sample
/// latch. The chip tells the two apart by sequence, so a core that
/// dispatches on the bit alone can never start voice 4 -- every command
/// selecting it is swallowed as a latch, and three voices play where four
/// should.
#[test]
fn the_fourth_voice_can_be_triggered() {
    let rom = rom_with_one_sample();
    let mut chip = Okim6295::new();
    chip.reset(M6295_CLOCK, false);
    chip.load_rom(0x8B, rom.len() as u32, 0, &rom);

    chip.write(0, 0, 0x81); // latch sample 1
    chip.write(0, 0, 0x80); // voice 4 only, full volume
    assert!(chip.voices[3].playing, "voice 4 must start");
    assert!(
        chip.voices[..3].iter().all(|voice| !voice.playing),
        "and no other voice"
    );
    assert!(energy(&render6295(&mut chip, 2000)) > 0);
}

/// A sample whose table entry is nonsense must be refused, not played as
/// whatever bytes happen to follow. A ROM that has not arrived yet is the
/// common case, and it must not produce noise.
#[test]
fn a_bad_table_entry_plays_nothing() {
    let mut chip = Okim6295::new();
    chip.reset(M6295_CLOCK, false);
    // No ROM at all.
    chip.write(0, 0, 0x81);
    chip.write(0, 0, 0x10);
    assert_eq!(energy(&render6295(&mut chip, 2000)), 0);

    // A ROM whose entry runs past its end.
    let mut rom = vec![0u8; 0x100];
    rom[8..11].copy_from_slice(&[0x00, 0x00, 0x40]);
    rom[11..14].copy_from_slice(&[0xFF, 0xFF, 0xFF]);
    chip.load_rom(0x8B, rom.len() as u32, 0, &rom);
    chip.write(0, 0, 0x81);
    chip.write(0, 0, 0x10);
    assert_eq!(energy(&render6295(&mut chip, 2000)), 0);
}

/// A voice stops at the end of its sample rather than reading on.
#[test]
fn a_voice_stops_at_the_end_of_its_sample() {
    let mut rom = vec![0u8; 0x2000];
    rom[8..11].copy_from_slice(&[0x00, 0x10, 0x00]);
    rom[11..14].copy_from_slice(&[0x00, 0x10, 0x0F]); // sixteen bytes
    for byte in &mut rom[0x1000..=0x100F] {
        *byte = 0x77;
    }
    let mut chip = Okim6295::new();
    chip.reset(M6295_CLOCK, false);
    chip.load_rom(0x8B, rom.len() as u32, 0, &rom);
    chip.write(0, 0, 0x81);
    chip.write(0, 0, 0x10);

    // Sixteen bytes is 32 nibbles, so 32 frames.
    let _ = render6295(&mut chip, 40);
    assert!(!chip.voices[0].playing, "it must stop at the end");
}

/// The engine resets a core when it loads, and the ROM arrives first.
#[test]
fn a_reset_keeps_the_sample_rom() {
    let mut chip = Okim6295::new();
    let rom = rom_with_one_sample();
    chip.load_rom(0x8B, rom.len() as u32, 0, &rom);
    chip.reset(M6295_CLOCK, false);
    assert_eq!(chip.rom.len(), rom.len(), "the reset threw the ROM away");
}

/// The pin-selected divider changes the rate; the header's bit 31 is
/// pin 7, and pin 7 *high* is the faster divide-by-132.
///
/// This test used to assert the opposite mapping, and passed, because it
/// was written from the same misreading as the code -- the third such pair
/// this programme has caught. What finally told them apart was external:
/// with the mapping inverted both ways, every corpus file played 386 cents
/// off against VGMPlay, which correlation reads as noise and an ear reads
/// as the wrong key.
#[test]
fn the_divider_flag_changes_the_rate() {
    let mut chip = Okim6295::new();
    chip.reset(M6295_CLOCK, false);
    assert_eq!(chip.native_rate(), M6295_CLOCK / 165);
    chip.reset(M6295_CLOCK, true);
    assert_eq!(chip.native_rate(), M6295_CLOCK / 132);
    chip.reset(0, false);
    assert!(chip.native_rate() >= 1);
}

/// The 6258 has no ROM: the host feeds it bytes, and each is two samples.
#[test]
fn the_streaming_codec_converts_what_it_is_fed() {
    let mut chip = Okim6258::new();
    chip.reset(M6258_CLOCK, false);
    chip.write(0, 0x00, 0x02); // play -- bit 1, not bit 0

    let mut out = vec![0i32; 64 * 2];
    let mut total = 0i64;
    for step in 0..32 {
        // Alternating extremes again.
        chip.write(0, 0x01, if step % 2 == 0 { 0x77 } else { 0xFF });
        chip.render(&mut out[..2 * 2]);
        total += energy(&out[..4].iter().step_by(2).copied().collect::<Vec<_>>());
    }
    assert!(total > 0, "the streaming codec produced nothing");

    // Stopping resets it, so the next sample does not inherit a level.
    chip.write(0, 0x00, 0x01);
    chip.render(&mut out);
    assert!(
        out.iter().all(|&s| s == 0),
        "a stopped codec must be silent"
    );
}

/// The bank latch, taken from the corpus (Castle of Dracula, 01 Title
/// Screen): the file selects bank 2 with `$0F`, loads its table and data at
/// 0x80000+, and only then plays. Without the window every read landed in
/// the zeroed low ROM, every phrase was refused, and the chip rendered
/// *nothing* -- four of the parity scorecard's twelve OKIM6295 files were
/// exactly this.
#[test]
fn the_bank_latch_moves_the_whole_window() {
    let mut chip = Okim6295::new();
    chip.reset(M6295_CLOCK, false);
    // A ROM whose only sample lives in bank 1: table and data both above
    // 256 KB, nothing below.
    let bank = 0x40000u32;
    let mut rom = vec![0u8; 0x50000];
    let (start, end) = (0x1000u32, 0x1200u32);
    // High bits beyond the chip's eighteen address lines, as Dragon
    // Master's real table spells them: masked, not trusted.
    let spelled = start | 0x80000;
    rom[bank as usize + 8..bank as usize + 11].copy_from_slice(&spelled.to_be_bytes()[1..]);
    rom[bank as usize + 11..bank as usize + 14].copy_from_slice(&end.to_be_bytes()[1..]);
    for (index, byte) in rom[(bank + start) as usize..=(bank + end) as usize]
        .iter_mut()
        .enumerate()
    {
        *byte = if index % 2 == 0 { 0x77 } else { 0xFF };
    }
    chip.load_rom(0x8B, rom.len() as u32, 0, &rom);

    // Unbanked, phrase 1 resolves to zeros and is refused.
    chip.write(0, 0, 0x81);
    chip.write(0, 0, 0x10);
    assert_eq!(energy(&render6295(&mut chip, 256)), 0, "no bank, no sound");

    // Banked, the same command plays.
    chip.write(0, 0x0F, 1);
    chip.write(0, 0, 0x81);
    chip.write(0, 0, 0x10);
    assert!(
        energy(&render6295(&mut chip, 256)) > 0,
        "the window must carry both the table and the data"
    );
}

/// The exact control sequence every X68000 rip performs, taken from the
/// corpus (Detana!! TwinBee, 04 Credit): $03 to the command register while
/// the sample is set up, then $02 to play. Under the inverted bit reading
/// this fixed, playback switched off at the moment the music started, and
/// the whole chip decoded into a closed output -- the parity scorecard's
/// corr 0.0000 row. The sequence is pinned so the bits cannot swap back.
#[test]
fn the_x68000_control_sequence_plays() {
    let mut chip = Okim6258::new();
    chip.reset(M6258_CLOCK, false);
    chip.write(0, 0x00, 0x03); // stop, as the rips spell it during setup
    chip.write(0, 0x02, 0x80); // pan, carried but not audio
    chip.write(0, 0x00, 0x02); // play

    let mut out = vec![0i32; 4 * 2];
    let mut total = 0i64;
    for step in 0..64 {
        chip.write(0, 0x01, if step % 2 == 0 { 0x77 } else { 0xFF });
        chip.render(&mut out);
        total += energy(&out.iter().step_by(2).copied().collect::<Vec<_>>());
    }
    assert!(total > 0, "the play command must open the output");

    // And $03 -- stop with bit 1 also set -- must stop: stop wins.
    chip.write(0, 0x00, 0x03);
    chip.render(&mut out);
    assert!(out.iter().all(|&s| s == 0), "stop wins over play");
}

/// Chunking must not change the audio.
#[test]
fn okim_the_output_does_not_depend_on_how_the_caller_chunks_it() {
    fn set_up(chip: &mut Okim6295, rom: &[u8]) {
        chip.reset(M6295_CLOCK, false);
        chip.load_rom(0x8B, rom.len() as u32, 0, rom);
        chip.write(0, 0, 0x81);
        chip.write(0, 0, 0x10);
    }
    let rom = rom_with_one_sample();
    let mut whole = Okim6295::new();
    set_up(&mut whole, &rom);
    let mut one_go = vec![0i32; 1024 * 2];
    whole.render(&mut one_go);

    let mut chunked = Okim6295::new();
    set_up(&mut chunked, &rom);
    let mut piecemeal = vec![0i32; 1024 * 2];
    for chunk in piecemeal.chunks_mut(64 * 2) {
        chunked.render(chunk);
    }
    assert_eq!(one_go, piecemeal);
}

/// Four voices at full volume, and the headroom that implies.
#[test]
fn okim_a_full_chip_uses_the_range_without_clipping_it() {
    let rom = rom_with_one_sample();
    let mut chip = Okim6295::new();
    chip.reset(M6295_CLOCK, false);
    chip.load_rom(0x8B, rom.len() as u32, 0, &rom);
    chip.write(0, 0, 0x81);
    chip.write(0, 0, 0xF0); // every voice, full volume

    let loudest = render6295(&mut chip, 2000)
        .iter()
        .map(|&s| s.abs())
        .max()
        .unwrap_or(0);
    assert!(loudest > PEAK, "four voices peaked at only {loudest}");
    assert!(
        loudest < i32::from(i16::MAX),
        "four voices must not need the mixer's clamp on their own: {loudest}"
    );
}
