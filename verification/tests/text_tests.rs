use sparsha::text::{
    cache_insert, ellipsized_candidate, normalize_dom_font_family, TextBreakMode,
    TextLayoutAlignment, TextWrap,
};
use sparsha::widgets::{ViewportClass, ViewportOrientation};
use std::collections::HashMap;

#[test]
fn normalizes_system_ui_to_sans_serif() {
    assert_eq!(normalize_dom_font_family("system-ui"), "sans-serif");
}

#[test]
fn normalizes_empty_family_to_sans_serif() {
    assert_eq!(normalize_dom_font_family(""), "sans-serif");
    assert_eq!(normalize_dom_font_family("   "), "sans-serif");
}

#[test]
fn keeps_explicit_family_intact() {
    assert_eq!(normalize_dom_font_family("Inter"), "Inter");
    assert_eq!(
        normalize_dom_font_family("ui-sans-serif, system-ui"),
        "ui-sans-serif, system-ui"
    );
}

#[test]
fn ellipsized_candidate_trims_before_the_ellipsis() {
    assert_eq!(ellipsized_candidate("hello world", 6), "hello\u{2026}");
    assert_eq!(ellipsized_candidate("hello world", 11), "hello world\u{2026}");
    assert_eq!(ellipsized_candidate("hello world", 3), "hel\u{2026}");
}

#[test]
fn ellipsized_candidate_of_blank_prefix_is_the_ellipsis_alone() {
    assert_eq!(ellipsized_candidate("   abc", 3), "\u{2026}");
    assert_eq!(ellipsized_candidate("abc", 0), "\u{2026}");
}

#[test]
fn ellipsized_candidate_cuts_at_byte_offsets_of_multibyte_text() {
    let text = "héllo wörld";
    let cut = text.char_indices().nth(6).unwrap().0;
    assert_eq!(ellipsized_candidate(text, cut), "héllo\u{2026}");
}

#[test]
fn cache_insert_clears_a_full_cache() {
    let mut cache: HashMap<u64, &str> = HashMap::new();
    cache_insert(&mut cache, 1, "a", 2);
    cache_insert(&mut cache, 2, "b", 2);
    assert_eq!(cache.len(), 2);
    cache_insert(&mut cache, 3, "c", 2);
    assert_eq!(cache.len(), 1);
    assert_eq!(cache.get(&3), Some(&"c"));
}

#[test]
fn cache_insert_replaces_existing_entries_below_the_limit() {
    let mut cache: HashMap<u64, &str> = HashMap::new();
    cache_insert(&mut cache, 1, "a", 3);
    cache_insert(&mut cache, 1, "b", 3);
    assert_eq!(cache.len(), 1);
    assert_eq!(cache.get(&1), Some(&"b"));
}

#[test]
fn cache_never_grows_past_its_limit() {
    let mut cache: HashMap<u64, u64> = HashMap::new();
    for key in 0..50u64 {
        cache_insert(&mut cache, key, key * 2, 8);
        assert!(cache.len() <= 8);
        assert_eq!(cache.get(&key), Some(&(key * 2)));
    }
}

#[test]
fn layout_option_defaults() {
    assert_eq!(TextLayoutAlignment::default(), TextLayoutAlignment::Start);
    assert_eq!(TextWrap::default(), TextWrap::Word);
    assert_eq!(TextBreakMode::default(), TextBreakMode::Normal);
    assert_eq!(ViewportClass::default(), ViewportClass::Desktop);
    assert_eq!(ViewportOrientation::default(), ViewportOrientation::Landscape);
}
