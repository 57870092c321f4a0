use dro_synth::chip::ChipCore;
use dro_synth::cores::multipcm::{MultiPcm, BANK_PORT};


/// The Multi 32's MultiPCM clock.
const CLOCK: u32 = 9_878_400;

fn render(chip: &mut MultiPcm, frames: usize) -> Vec<(i32, i32)> {
    let mut out = vec![0i32; frames * 2];
    chip.render(&mut out);
    out.chunks_exact(2).map(|f| (f[0], f[1])).collect()
}

fn energy(samples: &[(i32, i32)]) -> i64 {
    samples
        .iter()
        .map(|&(l, r)| i64::from(l.abs()) + i64::from(r.abs()))
        .sum()
}

fn rom() -> Vec<u8> {
    let mut rom = vec![0u8; 0x2000];
    rom[0] = 0x00; // sample 0 header: start 0x001000
    rom[1] = 0x10;
    rom[2] = 0x00;
    rom[3] = 0x00; // loop 0
    rom[4] = 0x00;
    let end_field = 0x1_0000u32 - 0x100;
    rom[5] = (end_field >> 8) as u8;
    rom[6] = (end_field & 0xFF) as u8;
    for (index, byte) in rom[0x1000..0x1100].iter_mut().enumerate() {
        *byte = if index % 2 == 0 { 0x7F } else { 0x81 };
    }
    rom
}

fn key_on(chip: &mut MultiPcm) {
    key_on_sample(chip, 0x00);
}

fn key_on_sample(chip: &mut MultiPcm, sample: u16) {
    chip.write(0, 1, 0x00); // select slot 0
    chip.write(0, 2, 0x00); // register: pan/sample-high
    chip.write(0, 0, 0x00);
    chip.write(0, 2, 0x01); // register: sample number (loads header)
    chip.write(0, 0, sample);
    chip.write(0, 2, 0x03); // octave 0, fnum hi 0
    chip.write(0, 0, 0x00);
    chip.write(0, 2, 0x05); // full level
    chip.write(0, 0, 0x00);
    chip.write(0, 2, 0x04); // key on
    chip.write(0, 0, 0x80);
}

#[test]
fn the_indirect_interface_reaches_a_voice() {
    let mut chip = MultiPcm::new();
    chip.reset(CLOCK, false);
    let sample_rom = rom();
    chip.load_rom(0x89, sample_rom.len() as u32, 0, &sample_rom);
    assert_eq!(energy(&render(&mut chip, 200)), 0);
    key_on(&mut chip);
    assert_eq!(chip.voices[0].start, 0x1000, "the header loaded");
    assert!(energy(&render(&mut chip, 200)) > 0);
}

/// A key-off fades; the header's negated end field is honoured.
#[test]
fn keyoff_fades_and_the_end_field_decodes() {
    let mut chip = MultiPcm::new();
    chip.reset(CLOCK, false);
    let sample_rom = rom();
    chip.load_rom(0x89, sample_rom.len() as u32, 0, &sample_rom);
    key_on(&mut chip);
    assert_eq!(chip.voices[0].end, 0x100);
    chip.write(0, 2, 0x04);
    chip.write(0, 0, 0x00); // key off
    assert!(energy(&render(&mut chip, 60)) > 0, "the release fades");
    render(&mut chip, 200);
    assert_eq!(energy(&render(&mut chip, 100)), 0);
}

/// The `0xC3` bank select, case for case against upstream's
/// `Cmd_YMW_Bank` -- which is the only place the mask's bit order is
/// written down.
#[test]
fn the_bank_select_moves_the_half_its_mask_names() {
    let mut chip = MultiPcm::new();

    // Both banks at a megabyte-aligned offset: one 1 MB window, so the
    // high half follows half a megabyte above the low one.
    chip.set_bank(0x03, 0x0010);
    assert_eq!((chip.bank_low, chip.bank_high), (0x10_0000, 0x18_0000));

    // Half a megabyte in, which one window cannot express: both halves go
    // to the same place instead, exactly as upstream's second branch does.
    chip.set_bank(0x03, 0x0018);
    assert_eq!((chip.bank_low, chip.bank_high), (0x18_0000, 0x18_0000));

    // Bit 1 is the low half and bit 0 the high one -- the way round
    // `Cmd_YMW_Bank` has it, and the opposite of how the bits read.
    chip.set_bank(0x02, 0x0020);
    assert_eq!((chip.bank_low, chip.bank_high), (0x20_0000, 0x18_0000));
    chip.set_bank(0x01, 0x0028);
    assert_eq!((chip.bank_low, chip.bank_high), (0x20_0000, 0x28_0000));

    // A mask naming no half moves nothing.
    chip.set_bank(0x00, 0x0000);
    assert_eq!((chip.bank_low, chip.bank_high), (0x20_0000, 0x28_0000));
}

/// Splitting one bank into two must not move a single fetch on the rips
/// this core was calibrated against.
///
/// Those never send a `0xC3` at all, so they run on the power-on pair, and
/// the pair is chosen to reproduce the single `0x18_0000` bank the core
/// held until 2026-07-29 -- which masked twenty bits and *added*, where
/// this masks nineteen and ORs the half the address selects. The two agree
/// for every address, and this is that proof rather than a promise.
#[test]
fn the_power_on_banks_fetch_where_the_single_bank_did() {
    let chip = MultiPcm::new();
    assert_eq!((chip.bank_low, chip.bank_high), (0x18_0000, 0x20_0000));
    for address in (0..0x40_0000u32).step_by(0x111) {
        let was = if address & 0x10_0000 == 0 {
            address
        } else {
            (address & 0x0F_FFFF) + 0x18_0000
        };
        let now = if address & 0x10_0000 == 0 {
            address
        } else if address & 0x08_0000 == 0 {
            (address & 0x07_FFFF) | chip.bank_low
        } else {
            (address & 0x07_FFFF) | chip.bank_high
        };
        assert_eq!(was, now, "{address:#08X}");
    }
}

/// Banking is fetch-time, and only for addresses above the megabyte line:
/// a bank select must move the samples it names and leave the rest alone.
#[test]
fn only_addresses_above_the_megabyte_line_are_banked() {
    // Sample 0 lives at 0x1000, below the line; sample 1 at 0x10_1000,
    // above it. Only the waveform at 0x20_1000 is filled in, so sample 1
    // is audible exactly when the low bank points there.
    let mut sample_rom = rom();
    sample_rom.resize(0x20_2000, 0);
    for (index, byte) in sample_rom[0x20_1000..0x20_1100].iter_mut().enumerate() {
        *byte = if index % 2 == 0 { 0x7F } else { 0x81 };
    }
    sample_rom[12] = 0x10;
    sample_rom[13] = 0x10;
    sample_rom[14] = 0x00;
    let end_field = 0x1_0000u32 - 0x100;
    sample_rom[17] = (end_field >> 8) as u8;
    sample_rom[18] = (end_field & 0xFF) as u8;

    let start = |bank: Option<u16>| {
        let mut chip = MultiPcm::new();
        chip.reset(CLOCK, false);
        chip.load_rom(0x89, sample_rom.len() as u32, 0, &sample_rom);
        if let Some(offset) = bank {
            chip.write(BANK_PORT, 0x02, offset);
        }
        chip
    };

    // Below the line: audible whatever the bank says.
    let mut chip = start(None);
    key_on_sample(&mut chip, 0x00);
    assert_eq!(chip.voices[0].start, 0x1000);
    assert!(energy(&render(&mut chip, 200)) > 0);

    // Above it, and the power-on window sends it to 0x18_1000, which is
    // zeroes.
    let mut chip = start(None);
    key_on_sample(&mut chip, 0x01);
    assert_eq!(chip.voices[0].start, 0x10_1000, "the header is not banked");
    assert_eq!(energy(&render(&mut chip, 200)), 0);

    // Bank the low half to 0x20_0000 and the same voice finds its waveform.
    let mut chip = start(Some(0x0020));
    key_on_sample(&mut chip, 0x01);
    assert!(energy(&render(&mut chip, 200)) > 0, "0x20_1000 holds it");

    // ...and the *high* half is a different latch, so naming it instead
    // leaves this fetch where it was.
    let mut chip = start(None);
    chip.write(BANK_PORT, 0x01, 0x0020);
    key_on_sample(&mut chip, 0x01);
    assert_eq!(energy(&render(&mut chip, 200)), 0, "bit 19 is clear here");
}
