use dro_synth::credits::{credits, credits_text};

#[test]
fn every_core_is_creditable() {
    // A credit missing its license or its authors is worse than no panel at
    // all -- it looks like the notice was given when it was not.
    for core in credits() {
        assert!(!core.label.is_empty(), "a core with no name");
        assert!(!core.chips.is_empty(), "{}: no chips", core.label);
        assert!(!core.authors.is_empty(), "{}: no authors", core.label);
        assert!(!core.license.is_empty(), "{}: no license", core.label);
    }
}

#[test]
fn the_copyleft_core_names_its_upstream() {
    // LGPL section 6 wants the user pointed at the source. A permissive
    // clean-room core has no upstream to point at, and says so with "".
    let nuked = credits()
        .iter()
        .find(|c| c.label == "Nuked-OPL3")
        .expect("the OPL core is compiled into every build");
    assert!(nuked.upstream.starts_with("https://"));
    assert_eq!(nuked.license, "LGPL-2.1-or-later");
}

#[test]
fn the_text_form_mentions_every_core() {
    let text = credits_text();
    for core in credits() {
        assert!(
            text.contains(core.label),
            "{} missing from the text",
            core.label
        );
        assert!(
            text.contains(core.license),
            "{}: license missing",
            core.label
        );
    }
}
