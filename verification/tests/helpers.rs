//! The small pure pieces: classifications, cursors, names, rendering and
//! string helpers.

use adr_radar::domain::{Quadrant, Ring};
use adr_radar::input::helpers::{wrap_decrement, wrap_increment};
use adr_radar::mirror::{choose_mirror_file, get_file_path, mirror_file_name, rediscover_suffix};
use adr_radar::models::BlipRecord;
use adr_radar::state::{AdrStatus, EditBlipState, InputState};
use adr_radar::strutil::{
    contains_str, date_prefix, ends_with_str, i32_string, path_file_name, sanitize_name, str_le,
};
use adr_radar::ui::{prompt_line, scroll_offset};

#[test]
fn cursor_wraps_at_both_ends() {
    // Decrementing from the first row lands on the last, and stepping on
    // from the last lands on the first, for several lengths.
    for n in 1..=6usize {
        assert_eq!(wrap_decrement(0, n), n - 1);
        assert_eq!(wrap_increment(n - 1, n), 0);
    }
    assert_eq!(wrap_decrement(3, 5), 2);
    assert_eq!(wrap_increment(3, 5), 4);
    assert_eq!(wrap_decrement(7, 0), 0);
    assert_eq!(wrap_increment(7, 0), 0);
}

#[test]
fn scroll_offset_keeps_selection_visible() {
    assert_eq!(scroll_offset(3, 10, 2), 0);
    assert_eq!(scroll_offset(20, 10, 4), 4);
    assert_eq!(scroll_offset(20, 10, 14), 5);
}

#[test]
fn ring_and_quadrant_round_trips() {
    assert_eq!(Ring::from_index(0), Some(Ring::Hold));
    assert_eq!(Ring::from_index(3), Some(Ring::Adopt));
    assert_eq!(Ring::from_index(4), None);
    assert_eq!(Ring::parse("adopt"), Some(Ring::Adopt));
    assert_eq!(Ring::parse("  Trial "), Some(Ring::Trial));
    assert_eq!(Ring::parse("nope"), None);
    assert_eq!(Ring::Assess.as_str(), "assess");
    assert_eq!(Ring::Assess.label(), "Assess");

    assert_eq!(Quadrant::from_index(1), Some(Quadrant::Languages));
    assert_eq!(Quadrant::from_index(9), None);
    assert_eq!(Quadrant::parse("PLATFORMS"), Some(Quadrant::Platforms));
    assert_eq!(Quadrant::parse(""), None);
    assert_eq!(Quadrant::Techniques.as_str(), "techniques");
    assert_eq!(Quadrant::Techniques.label(), "Techniques");
}

#[test]
fn adr_status_cycles_and_parses() {
    assert_eq!(AdrStatus::all().len(), 5);
    assert_eq!(AdrStatus::from_index(4), Some(AdrStatus::Superseded));
    assert_eq!(AdrStatus::from_index(5), None);
    assert_eq!(AdrStatus::Proposed.next(), AdrStatus::Accepted);
    assert_eq!(AdrStatus::Superseded.next(), AdrStatus::Proposed);
    assert_eq!(AdrStatus::Proposed.prev(), AdrStatus::Superseded);
    assert_eq!(AdrStatus::parse(" Deprecated "), Some(AdrStatus::Deprecated));
    assert_eq!(AdrStatus::parse("unknown"), None);
    assert_eq!(AdrStatus::Rejected.as_str(), "rejected");
    assert_eq!(AdrStatus::Rejected.label(), "Rejected");
}

#[test]
fn edit_form_tracks_a_row_and_cycles_options() {
    let blip = BlipRecord {
        id: 7,
        name: "Postgres".to_string(),
        ring: Some(Ring::Trial),
        quadrant: None,
        tag: None,
        description: Some("db".to_string()),
        created: "2024-02-02".to_string(),
        has_adr: false,
        adr_id: None,
    };
    let mut form = EditBlipState::from_blip(&blip);
    assert_eq!(form.id, 7);
    assert_eq!(form.name, "Postgres");
    assert_eq!(form.ring_index, 2);
    assert_eq!(form.ring, "trial");
    assert_eq!(form.quadrant_index, 0);
    assert_eq!(form.quadrant, "platforms");
    assert_eq!(form.tag, "");
    assert_eq!(form.description, "db");
    assert!(!form.editing);

    form.next_ring();
    assert_eq!(form.ring, "adopt");
    form.next_ring();
    assert_eq!(form.ring, "hold");
    form.prev_ring();
    assert_eq!(form.ring, "adopt");
    form.next_quadrant();
    assert_eq!(form.quadrant, "languages");
    form.prev_quadrant();
    form.prev_quadrant();
    assert_eq!(form.quadrant, "techniques");
    assert_eq!(EditBlipState::ring_options()[2], "trial");
    assert_eq!(EditBlipState::quadrant_options()[3], "techniques");
}

#[test]
fn mirror_names_fold_case_and_spaces() {
    // The sanitizer lower-cases and hyphenates; the date part stops at the
    // first time marker.
    assert_eq!(sanitize_name("My Great Tool"), "my-great-tool");
    assert_eq!(date_prefix("2025-01-05T10:30:00"), "2025-01-05");
    assert_eq!(date_prefix("2025-01-05"), "2025-01-05");
    assert_eq!(mirror_file_name("2025-01-05T10:30:00", "My Great Tool"), "2025-01-05-my-great-tool");
    assert_eq!(get_file_path("./blips", "2025-01-05-my-great-tool"), "./blips/2025-01-05-my-great-tool.mdx");
    assert_eq!(rediscover_suffix("My Great Tool"), "-my-great-tool.mdx");
}

#[test]
fn stale_mirror_files_are_rediscovered() {
    let entries = vec![
        "2020-03-01-other.mdx".to_string(),
        "2020-03-01-my-tool.mdx".to_string(),
        "2021-07-07-my-tool.mdx".to_string(),
    ];
    // The expected file wins when it exists.
    let (target, create) =
        choose_mirror_file("2025-01-05-my-tool.mdx", true, &entries, "-my-tool.mdx");
    assert_eq!(target, "2025-01-05-my-tool.mdx");
    assert!(!create);
    // Otherwise the first suffix match is reused.
    let (target, create) =
        choose_mirror_file("2025-01-05-my-tool.mdx", false, &entries, "-my-tool.mdx");
    assert_eq!(target, "2020-03-01-my-tool.mdx");
    assert!(!create);
    // With no match the expected file is created fresh.
    let (target, create) = choose_mirror_file("2025-01-05-my-tool.mdx", false, &entries, "-nothing.mdx");
    assert_eq!(target, "2025-01-05-my-tool.mdx");
    assert!(create);
}

#[test]
fn string_helpers_behave() {
    assert!(contains_str("hello world", "lo wo"));
    assert!(!contains_str("hello", "world"));
    assert!(contains_str("abc", ""));
    assert!(ends_with_str("2020-01-01-tool.mdx", "-tool.mdx"));
    assert!(!ends_with_str("short", "much longer"));
    assert!(str_le("2024-01-01", "2025-01-01"));
    assert!(!str_le("b", "a"));
    assert!(str_le("abc", "abc"));
    assert!(str_le("ab", "abc"));
    assert_eq!(i32_string(0), "0");
    assert_eq!(i32_string(907), "907");
    assert_eq!(path_file_name("./blips/2025-01-05-x.mdx"), "2025-01-05-x.mdx");
    assert_eq!(path_file_name("bare.mdx"), "bare.mdx");
}

#[test]
fn prompt_follows_the_wizard() {
    assert_eq!(prompt_line(&InputState::EnteringTechnology), "Enter technology name:");
    assert_eq!(
        prompt_line(&InputState::Completed),
        "File generated! Press 'n' for new entry or 'q' to quit"
    );
}
