use dro_synth::engine::{Bank, FrameClock, LoopCount, Muting, Position};

#[test]
fn frame_clock_carries_the_remainder() {
    // 48000 Hz: 1 ms is exactly 48 frames, no carry.
    let mut clock = FrameClock::new(48_000, 1000);
    assert_eq!(clock.frames_for(1), 48);
    assert_eq!(clock.frames_for(1000), 48_000);

    // 49716 Hz: 1 ms is 49.716 frames. The fractional part must accumulate,
    // never be dropped, so 1000 ms totals exactly 49716 frames.
    let mut clock = FrameClock::new(49_716, 1000);
    let total: u64 = (0..1000).map(|_| clock.frames_for(1)).sum();
    assert_eq!(total, 49_716);
}

#[test]
fn vgm_sample_delays_convert_at_the_44100_ratio() {
    // A 0x62 VGM wait is 735 samples (one 60 Hz frame). At 48000 Hz output
    // that is 735 * 48000 / 44100 = 800 frames.
    let mut clock = FrameClock::new(48_000, 44_100);
    assert_eq!(clock.frames_for(735), 800);
}

#[test]
fn a_muted_channel_register_is_dropped_and_percussion_is_masked() {
    let mut muting = Muting::silent();
    assert_eq!(muting.gate(Bank::Low, 0xB0, 0x31), None);
    assert_eq!(muting.gate(Bank::Low, 0xA0, 0x98), Some(0x98));
    assert_eq!(muting.gate(Bank::High, 0xBD, 0xFF), Some(0xE0));
    muting.allow_channel(Bank::High, 0xB3);
    assert_eq!(muting.gate(Bank::High, 0xB3, 0x31), Some(0x31));
    assert_eq!(muting.gate(Bank::Low, 0xB3, 0x31), None);
    muting.set_percussion(Bank::Low, 0xFF);
    assert_eq!(muting.gate(Bank::Low, 0xBD, 0x3F), Some(0x3F));
    muting.mute_channel(Bank::High, 0xB3);
    assert_eq!(muting.gate(Bank::High, 0xB3, 0x31), None);
    assert_eq!(Muting::all().gate(Bank::High, 0xB8, 0x20), Some(0x20));
}

#[test]
fn a_loop_count_of_one_or_zero_never_wraps() {
    assert_eq!(LoopCount::Infinite.wraps(), None);
    assert_eq!(LoopCount::Times(0).wraps(), Some(0));
    assert_eq!(LoopCount::Times(1).wraps(), Some(0));
    assert_eq!(LoopCount::Times(3).wraps(), Some(2));
}

#[test]
fn the_position_derives_milliseconds_from_frames() {
    let p = Position::from_frames(48_000, 48_000, 7);
    assert_eq!(p.elapsed_ms, 1000);
    assert_eq!(p.next_instruction, 7);
    assert_eq!(p.loop_iteration, 0);
    // Past the u32 range of milliseconds, the readout saturates.
    assert_eq!(Position::ms_from_frames(u64::MAX / 1000, 1), u32::MAX);
    assert_eq!(Position::looping(44_100, 44_100, 3, 2).loop_iteration, 2);
}
