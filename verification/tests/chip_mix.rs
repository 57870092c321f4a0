use dro_synth::chip::ChipKind;
use dro_synth::chip_mix::{ChipMuting, ChipPanning, PAN_CENTER, PAN_LEFT, PAN_RIGHT};

#[test]
fn masks_are_per_instance_and_replace() {
    let mut muting = ChipMuting::new();
    assert!(muting.is_neutral());
    muting.set(ChipKind::Sn76489, 0, 0b0011);
    muting.set(ChipKind::Sn76489, 1, 0b0100);
    assert_eq!(muting.mask_for(ChipKind::Sn76489, 0), 0b0011);
    assert_eq!(muting.mask_for(ChipKind::Sn76489, 1), 0b0100);
    assert_eq!(muting.mask_for(ChipKind::Ym2612, 0), 0, "unset is unmuted");
    assert!(!muting.is_neutral());
    muting.set(ChipKind::Sn76489, 0, 0);
    muting.set(ChipKind::Sn76489, 1, 0);
    assert!(muting.is_neutral(), "cleared masks read as neutral");
}

#[test]
fn pans_are_per_instance_and_absent_means_own_image() {
    let mut panning = ChipPanning::new();
    assert!(panning.is_neutral());
    panning.set(ChipKind::Ay8910, 0, vec![PAN_LEFT, PAN_CENTER, PAN_RIGHT]);
    assert_eq!(
        panning.pans_for(ChipKind::Ay8910, 0),
        Some([PAN_LEFT, PAN_CENTER, PAN_RIGHT].as_slice())
    );
    assert_eq!(panning.pans_for(ChipKind::Ay8910, 1), None);
}
