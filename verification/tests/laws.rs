use dro_synth::banks::Banks;
use dro_synth::chip::ChipKind;
use dro_synth::chip_mix::{ChipMuting, ChipPanning, PAN_LEFT, PAN_RIGHT};
use dro_synth::engine::FrameClock;
use dro_synth::credits::{credits, credits_text};
use dro_synth::opl::{hand_reg, operator_gap, NukedOpl3, OplChip, OPL_MAX_RATE, OPL_MIN_RATE};

#[test]
fn a_run_of_delays_lasts_as_long_as_their_total() {
    let mut clock = FrameClock::new(49_716, 1000);
    let frames: u64 = [3u32, 7, 11].iter().map(|&d| clock.frames_for(d)).sum();
    assert_eq!(frames, 1044);
    assert_eq!(clock.carry, 36);
    let mut whole = FrameClock::new(49_716, 1000);
    assert_eq!(whole.frames_for(21), 1044);
    assert_eq!(whole.carry, 36);
}

#[test]
fn a_pushed_block_is_read_back_after_its_kind() {
    let mut banks = Banks::new();
    banks.push(0x00, vec![1, 2]);
    banks.push(0x01, vec![9]);
    banks.push(0x00, vec![3]);
    assert_eq!(banks.nth(0x00, 0), Some([1u8, 2].as_slice()));
    assert_eq!(banks.nth(0x00, 1), Some([3u8].as_slice()));
    assert_eq!(banks.nth(0x00, 2), None);
    assert_eq!(banks.nth(0x01, 0), Some([9u8].as_slice()));
    assert_eq!(banks.concatenated(0x00), vec![1, 2, 3]);
}

#[test]
fn a_mask_reads_back_per_instance() {
    let mut muting = ChipMuting::new();
    muting.set(ChipKind::Ay8910, 1, 0b101);
    assert_eq!(muting.mask_for(ChipKind::Ay8910, 1), 0b101);
    assert_eq!(muting.mask_for(ChipKind::Ay8910, 0), 0);
    muting.set(ChipKind::Ay8910, 1, 0b010);
    assert_eq!(muting.mask_for(ChipKind::Ay8910, 1), 0b010);
    let copy = muting.clone();
    assert_eq!(copy, muting);
    assert!(!copy.is_neutral());
}

#[test]
fn a_pan_image_reads_back_per_instance() {
    let mut panning = ChipPanning::new();
    panning.set(ChipKind::Saa1099, 0, vec![PAN_LEFT]);
    panning.set(ChipKind::Saa1099, 0, vec![PAN_RIGHT, PAN_LEFT]);
    assert_eq!(panning.pans_for(ChipKind::Saa1099, 0), Some([PAN_RIGHT, PAN_LEFT].as_slice()));
    assert_eq!(panning.pans_for(ChipKind::Saa1099, 1), None);
    assert!(!panning.clone().is_neutral());
}

#[test]
fn operator_gaps_are_recognised_in_both_banks() {
    for reg in [0x26u16, 0x27, 0x2E, 0x2F, 0x36, 0x3F, 0x46, 0x96, 0xE6, 0xFF, 0x126, 0x1F6] {
        assert!(operator_gap(reg), "{reg:#x} addresses no operator");
    }
    for reg in [0x20u16, 0x25, 0x28, 0x35, 0x95, 0xA0, 0xB0, 0xBD, 0xC0, 0xE0, 0xF5, 0x105, 0x120] {
        assert!(!operator_gap(reg), "{reg:#x} addresses something");
    }
}

#[test]
fn a_buffer_too_short_for_a_frame_is_left_alone() {
    let mut chip = NukedOpl3::new(44_100);
    let mut one = [123i16];
    chip.generate_samples(&mut one);
    assert_eq!(one, [123]);
}

#[test]
fn the_generator_runs_at_both_ends_of_its_rate_range() {
    for rate in [OPL_MIN_RATE, OPL_MAX_RATE] {
        let mut chip = NukedOpl3::new(rate);
        chip.write_reg(0x20, 0x01);
        chip.write_reg(0xB0, 0x31);
        let mut buffer = [0i16; 64];
        chip.generate_samples(&mut buffer);
        chip.reset(rate);
    }
}

#[test]
fn a_high_half_gap_is_handed_on_as_the_low_half_gap() {
    assert_eq!(hand_reg(0x126), 0x26);
    assert_eq!(hand_reg(0x1FF), 0xFF);
    assert_eq!(hand_reg(0x26), 0x26);
    assert_eq!(hand_reg(0x120), 0x120);
    assert_eq!(hand_reg(0x1B0), 0x1B0);
}

#[test]
fn every_compiled_core_is_credited() {
    let list = credits();
    assert_eq!(list.len(), 27);
    let text = credits_text();
    for label in ["Nuked-OPL3", "SN76489 (clean-room)", "AY-3-8910", "C352", "Game Boy APU", "OKIM6295", "YMZ280B"] {
        assert!(list.iter().any(|c| c.label == label), "{label} is credited");
        assert!(text.contains(label), "{label} is in the text");
    }
}
