use dro_synth::chip::ChipKind;
use dro_synth::registry::{
    apply_level, slot_slug, CoreInfo, CoreMaker, CoreRegistry, LEVEL_UNITY, NUKED_OPL_ID,
    OPL_CHIPS, OPL_SLOT_SLUG,
};

/// What a row's maker makes, in these tests: a constant that stands for a core.
type Generic = fn() -> u32;
type Opl = fn(u32) -> u32;
type Registry = CoreRegistry<Generic, Opl>;
type Info = CoreInfo<Generic, Opl>;

fn tone() -> u32 {
    1000
}

fn opl(rate: u32) -> u32 {
    rate
}

fn tone_info(id: &'static str, level: u16) -> Info {
    CoreInfo {
        id,
        chip: ChipKind::Sn76489,
        label: id,
        authors: "test",
        license: "MIT",
        upstream: "",
        realtime: true,
        channel_pan: false,
        level,
        make: CoreMaker::Generic(tone as Generic),
    }
}

fn info(id: &'static str) -> Info {
    tone_info(id, LEVEL_UNITY)
}

fn builtins() -> Registry {
    CoreRegistry::with_builtins(opl as Opl)
}

/// What a generic core renders, scaled by its row's level.
fn rendered(info: &Info) -> Vec<i32> {
    let make = info.generic_maker().expect("a generic core builds");
    let mut out = vec![make() as i32; 8];
    apply_level(&mut out, info.level);
    out
}

#[test]
fn the_builtins_cover_what_this_build_can_play() {
    let registry = builtins();
    assert!(registry.has_core(ChipKind::Ymf262), "OPL is listed, not built");
    assert!(!registry.has_core(ChipKind::Sn76489), "providers only");
    assert!(!registry.has_core(ChipKind::Ym2612), "providers only");
    assert!(registry
        .resolve(ChipKind::Ymf262, None)
        .and_then(|info| info.generic_maker())
        .is_none());
}

#[test]
fn listed_and_buildable_are_different_questions() {
    let mut registry = builtins();
    registry.register(tone_info("sn76489.stub", LEVEL_UNITY));
    for chip in OPL_CHIPS {
        assert!(registry.has_core(chip), "{chip:?} is listed");
        assert!(!registry.can_build(chip), "{chip:?} must not reach the multichip engine");
    }
    assert!(registry.can_build(ChipKind::Sn76489));
    assert!(!registry.can_build(ChipKind::Ym2612));
}

#[test]
fn every_opl_chip_shares_one_selector() {
    let registry = builtins();
    for chip in OPL_CHIPS {
        assert_eq!(slot_slug(chip), OPL_SLOT_SLUG, "{chip:?}");
        assert_eq!(
            registry.default_for(chip).map(|info| info.id),
            Some(NUKED_OPL_ID),
            "{chip:?} plays through the OPL core"
        );
    }
    assert_eq!(slot_slug(ChipKind::Sn76489), "sn76489");
}

#[test]
fn promote_makes_a_later_row_the_default_without_touching_neighbours() {
    let mut registry = Registry::new();
    registry.register(info("sn76489.first"));
    registry.register(info("sn76489.second"));
    registry.register(CoreInfo {
        chip: ChipKind::Ym2612,
        ..tone_info("ym2612.only", LEVEL_UNITY)
    });

    assert!(registry.promote(ChipKind::Sn76489, "sn76489.second"));
    assert_eq!(
        registry.default_for(ChipKind::Sn76489).map(|i| i.id),
        Some("sn76489.second")
    );
    assert_eq!(registry.for_chip(ChipKind::Sn76489).len(), 2);
    assert_eq!(
        registry.default_for(ChipKind::Ym2612).map(|i| i.id),
        Some("ym2612.only")
    );

    assert!(!registry.promote(ChipKind::Sn76489, "sn76489.nonesuch"));
    assert_eq!(
        registry.default_for(ChipKind::Sn76489).map(|i| i.id),
        Some("sn76489.second")
    );

    assert!(registry.promote(ChipKind::Sn76489, "sn76489.second"));
    assert_eq!(
        registry.default_for(ChipKind::Sn76489).map(|i| i.id),
        Some("sn76489.second")
    );
}

#[test]
fn registration_order_is_priority_order() {
    let mut registry = Registry::new();
    registry.register(info("sn76489.first"));
    registry.register(info("sn76489.second"));
    assert_eq!(
        registry.default_for(ChipKind::Sn76489).map(|i| i.id),
        Some("sn76489.first")
    );
    assert_eq!(registry.for_chip(ChipKind::Sn76489).len(), 2);
}

#[test]
fn a_configured_id_wins_and_an_unknown_one_falls_back() {
    let mut registry = Registry::new();
    registry.register(info("sn76489.first"));
    registry.register(info("sn76489.second"));

    let picked = registry.resolve(ChipKind::Sn76489, Some("sn76489.second"));
    assert_eq!(picked.map(|i| i.id), Some("sn76489.second"));

    let missing = registry.resolve(ChipKind::Sn76489, Some("sn76489.nonesuch"));
    assert_eq!(missing.map(|i| i.id), Some("sn76489.first"));

    assert!(registry.resolve(ChipKind::Ym2612, Some("anything")).is_none());
}

#[test]
fn a_config_choice_resolves_to_the_core_it_names() {
    let registry = builtins();
    let chosen = registry.resolve_choice(ChipKind::Ymf262, Some("nuked"));
    assert_eq!(chosen.map(|info| info.id), Some(NUKED_OPL_ID));

    let missing = registry.resolve_choice(ChipKind::Ymf262, Some("retrowave"));
    assert_eq!(missing.map(|info| info.id), Some(NUKED_OPL_ID));
}

#[test]
fn every_core_id_is_namespaced_by_its_chip_slot() {
    for info in builtins().all() {
        let prefix = format!("{}.", slot_slug(info.chip));
        assert!(info.id.starts_with(&prefix), "{} should start with {prefix}", info.id);
    }
}

#[test]
fn an_offline_choice_falls_back_to_realtime_for_the_transport_only() {
    let mut registry = Registry::new();
    registry.register(tone_info("sn76489.fast", LEVEL_UNITY));
    registry.register(CoreInfo {
        realtime: false,
        channel_pan: false,
        ..tone_info("sn76489.die", LEVEL_UNITY)
    });

    assert_eq!(
        registry
            .resolve_choice(ChipKind::Sn76489, Some("die"))
            .map(|info| info.id),
        Some("sn76489.die")
    );
    assert_eq!(
        registry
            .resolve_choice_realtime(ChipKind::Sn76489, Some("die"))
            .map(|info| info.id),
        Some("sn76489.fast")
    );
    assert_eq!(
        registry
            .resolve_choice_realtime(ChipKind::Sn76489, Some("fast"))
            .map(|info| info.id),
        Some("sn76489.fast")
    );
}

#[test]
fn a_cores_level_scales_what_it_renders() {
    assert_eq!(rendered(&tone_info("sn76489.plain", LEVEL_UNITY)), [1000; 8]);
    assert_eq!(rendered(&tone_info("sn76489.loud", 494)), [1929; 8]);
    assert_eq!(rendered(&tone_info("sn76489.quiet", 128)), [500; 8]);
}

#[test]
fn scaling_saturates_instead_of_wrapping() {
    let mut out = vec![i32::MAX; 4];
    apply_level(&mut out, 494);
    assert_eq!(out, [i32::MAX; 4], "saturated, not wrapped");
}

#[test]
fn negative_samples_scale_by_floor_division() {
    let mut out = vec![-1000, -1, i32::MIN, 0];
    apply_level(&mut out, 494);
    assert_eq!(out, [-1930, -2, i32::MIN, 0]);
}

#[test]
fn pan_capability_follows_the_live_core() {
    let mut registry = Registry::new();
    registry.register(CoreInfo {
        channel_pan: true,
        ..tone_info("sn76489.fast", LEVEL_UNITY)
    });
    registry.register(CoreInfo {
        realtime: false,
        channel_pan: true,
        ..tone_info("sn76489.die", LEVEL_UNITY)
    });
    registry.register(tone_info("sn76489.flat", LEVEL_UNITY));
    assert!(registry.pan_capable_with(ChipKind::Sn76489, None));
    assert!(!registry.pan_capable_with(ChipKind::Sn76489, Some("flat")));
    assert!(registry.pan_capable_with(ChipKind::Sn76489, Some("die")));
    assert!(!registry.pan_capable_with(ChipKind::Ym2612, None));
    assert!(builtins().pan_capable_with(ChipKind::Ym3812, Some("nuked")));
}

#[test]
fn the_opl_maker_is_handed_out_only_for_opl_rows() {
    let registry = builtins();
    let row = registry.default_for(ChipKind::Y8950).expect("listed");
    assert_eq!(row.opl_maker().map(|make| make(44_100)), Some(44_100));
    assert!(info("sn76489.x").opl_maker().is_none());
}

#[test]
fn promote_moves_the_row_to_the_front_and_keeps_the_rest_in_order() {
    let mut registry = Registry::new();
    registry.register(info("sn76489.a"));
    registry.register(CoreInfo { chip: ChipKind::Ym2612, ..info("ym2612.x") });
    registry.register(info("sn76489.b"));
    registry.register(info("sn76489.c"));
    assert!(registry.promote(ChipKind::Sn76489, "sn76489.c"));
    let ids: Vec<&str> = registry.for_chip(ChipKind::Sn76489).iter().map(|i| i.id).collect();
    assert_eq!(ids, ["sn76489.c", "sn76489.a", "sn76489.b"]);
    let all: Vec<&str> = registry.all().iter().map(|i| i.id).collect();
    assert_eq!(all, ["sn76489.c", "sn76489.a", "ym2612.x", "sn76489.b"]);
    assert!(registry.resolve(ChipKind::Ym2151, Some("ym2151.y")).is_none());
}
