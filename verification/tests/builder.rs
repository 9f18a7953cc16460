use presence_core::payload::ActivityKind;
use presence_core::payload::BuiltActivity;
use presence_core::payload::PresencePayload;
use presence_core::payload::build_activity;
use presence_core::payload::parse_kind;

fn payload(
    details: &str,
    state: &str,
    large_image: &str,
    small_image: &str,
    large_text: Option<&str>,
    small_text: Option<&str>,
    activity_kind: Option<&str>,
) -> PresencePayload {
    PresencePayload {
        details: details.to_string(),
        state: state.to_string(),
        large_image: large_image.to_string(),
        small_image: small_image.to_string(),
        large_text: large_text.map(|s| s.to_string()),
        small_text: small_text.map(|s| s.to_string()),
        activity_kind: activity_kind.map(|s| s.to_string()),
    }
}

fn assert_same_build(a: &BuiltActivity, b: &BuiltActivity) {
    assert_eq!(a.state, b.state);
    assert_eq!(a.details, b.details);
    assert_eq!(a.kind, b.kind);
    assert_eq!(a.assets.is_some(), b.assets.is_some());
    if let (Some(x), Some(y)) = (&a.assets, &b.assets) {
        assert_eq!(x.large_image, y.large_image);
        assert_eq!(x.small_image, y.small_image);
        assert_eq!(x.large_text, y.large_text);
        assert_eq!(x.small_text, y.small_text);
    }
}

#[test]
fn empty_payload_builds_empty_activity() {
    let a = build_activity(&payload("", "", "", "", None, None, None));
    assert!(a.state.is_none());
    assert!(a.details.is_none());
    assert!(a.kind.is_none());
    assert!(a.assets.is_none());
}

#[test]
fn empty_option_fields_behave_like_empty_strings() {
    let a = build_activity(&payload("", "", "", "", Some(""), Some(""), None));
    assert!(a.assets.is_none());
    assert!(a.kind.is_none());
}

#[test]
fn full_payload_builds_every_field() {
    let a = build_activity(&payload(
        "d",
        "s",
        "li",
        "si",
        Some("lt"),
        Some("st"),
        Some("playing"),
    ));
    assert_eq!(a.details.as_deref(), Some("d"));
    assert_eq!(a.state.as_deref(), Some("s"));
    assert_eq!(a.kind, Some(ActivityKind::Playing));
    let assets = a.assets.expect("assets should be present");
    assert_eq!(assets.large_image.as_deref(), Some("li"));
    assert_eq!(assets.small_image.as_deref(), Some("si"));
    assert_eq!(assets.large_text.as_deref(), Some("lt"));
    assert_eq!(assets.small_text.as_deref(), Some("st"));
}

#[test]
fn single_asset_field_brings_the_asset_object() {
    let a = build_activity(&payload("", "", "", "", Some("only"), None, None));
    let assets = a.assets.expect("assets should be present");
    assert!(assets.large_image.is_none());
    assert!(assets.small_image.is_none());
    assert_eq!(assets.large_text.as_deref(), Some("only"));
    assert!(assets.small_text.is_none());
}

#[test]
fn field_inclusion_is_fieldwise() {
    // Changing one unrelated field never changes what another field builds to.
    let a = build_activity(&payload("d", "s1", "li", "", None, None, None));
    let b = build_activity(&payload("d", "s2", "li", "", None, None, None));
    assert_eq!(a.details, b.details);
    assert_eq!(a.kind, b.kind);
    assert_eq!(
        a.assets.as_ref().unwrap().large_image,
        b.assets.as_ref().unwrap().large_image
    );
}

#[test]
fn build_is_deterministic() {
    let p = payload("d", "s", "li", "si", Some("lt"), None, Some("watching"));
    let a = build_activity(&p);
    let b = build_activity(&p);
    assert_same_build(&a, &b);
}

#[test]
fn unknown_kind_is_ignored_not_an_error() {
    let with_bad_tag = build_activity(&payload("d", "s", "", "", None, None, Some("flying")));
    let without_tag = build_activity(&payload("d", "s", "", "", None, None, None));
    assert!(with_bad_tag.kind.is_none());
    assert_same_build(&with_bad_tag, &without_tag);
}

#[test]
fn kind_tags_parse_case_insensitively() {
    assert_eq!(parse_kind("playing"), Some(ActivityKind::Playing));
    assert_eq!(parse_kind("Listening"), Some(ActivityKind::Listening));
    assert_eq!(parse_kind("WATCHING"), Some(ActivityKind::Watching));
    assert_eq!(parse_kind("competing"), Some(ActivityKind::Competing));
    assert_eq!(parse_kind("flying"), None);
    assert_eq!(parse_kind(""), None);
}
