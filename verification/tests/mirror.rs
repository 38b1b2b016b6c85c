//! Mirror rendering: the fixed templates, their idempotence, and the
//! navigator-driven save path through the dispatcher.

use adr_radar::domain::{Quadrant, Ring};
use adr_radar::input::screens::PendingMirror;
use adr_radar::input::{handle_input, Key};
use adr_radar::mirror::{render_adr_sync, render_blip_create, render_blip_sync};
use adr_radar::models::{BlipMetadataParams, BlipRecord};
use adr_radar::state::{App, AppScreen, EditField, InputState};

fn sample_record() -> BlipRecord {
    BlipRecord {
        id: 12,
        name: "Envoy".to_string(),
        ring: Some(Ring::Adopt),
        quadrant: Some(Quadrant::Platforms),
        tag: Some("mesh".to_string()),
        description: Some("proxy".to_string()),
        created: "2024-11-11".to_string(),
        has_adr: true,
        adr_id: Some(3),
    }
}

#[test]
fn mirror_rendering_is_idempotent() {
    // Two renderings of the same record are byte-identical.
    let record = sample_record();
    let first = render_blip_sync(&record, "author");
    let second = render_blip_sync(&record, "author");
    assert_eq!(first, second);
    let adr_once = render_adr_sync("3", "Adopt Envoy", "Envoy", "2024-11-12", "accepted");
    let adr_again = render_adr_sync("3", "Adopt Envoy", "Envoy", "2024-11-12", "accepted");
    assert_eq!(adr_once, adr_again);
}

#[test]
fn sync_template_carries_every_field() {
    let record = sample_record();
    let content = render_blip_sync(&record, "author");
    assert!(content.starts_with("---\n id: \"12\"\n name: \"Envoy\"\n"));
    assert!(content.contains("ring: \"adopt\""));
    assert!(content.contains("quadrant: \"platforms\""));
    assert!(content.contains("tags: [\"mesh\"]"));
    assert!(content.contains("authors: [\"author\"]"));
    assert!(content.contains("hasAdr: true"));
    assert!(content.contains("adrId: 3"));
    assert!(content.contains("created: \"2024-11-11\""));
    assert!(content.contains("**has ADR**: true"));
}

#[test]
fn create_template_pins_the_flags() {
    let content = render_blip_create("1", "Envoy", "adopt", "platforms", "author", "2024-11-11");
    assert!(content.contains("hasAdr: false"));
    assert!(content.contains("adrId: null"));
    assert!(content.contains("tags: [\"\"]"));
}

#[test]
fn unlinked_adr_renders_null_blip() {
    let content = render_adr_sync("9", "Standalone", "", "2024-01-01", "proposed");
    assert!(content.contains("blip: null"));
    let linked = render_adr_sync("9", "Linked", "Envoy", "2024-01-01", "proposed");
    assert!(linked.contains("blip: Envoy"));
}

#[test]
fn saving_from_the_edit_screen_hands_back_a_mirror_job() {
    let mut app = App::new();
    let params = BlipMetadataParams {
        id: 0,
        name: "Envoy".to_string(),
        ring: Ring::Hold,
        quadrant: Quadrant::Platforms,
        tag: String::new(),
        description: String::new(),
        created: "2024-11-11".to_string(),
        author: String::new(),
        has_adr: "false".to_string(),
        adr_id: None,
    };
    app.store.insert_new_blip(&params).unwrap();
    app.fetch_blips().unwrap();
    app.screen = AppScreen::EditBlip;
    app.selected_blip_index = 0;
    let mut form = adr_radar::state::EditBlipState::from_blip(&app.blips[0]);
    // Cycle the ring field from hold to adopt before saving.
    form.field = EditField::Ring;
    form.prev_ring();
    app.edit_blip_state = Some(form);

    let effect = handle_input(&mut app, Key::Char('S'));
    match effect {
        Some(PendingMirror::Blip(job)) => {
            assert!(job.content.contains("ring: \"adopt\""));
            assert_eq!(job.expected_path, "./blips/2024-11-11-envoy.mdx");
        },
        _ => panic!("expected a blip mirror job"),
    }
    assert_eq!(app.store.get_blip_by_id(1).unwrap().ring, Some(Ring::Adopt));
    // The form stays open, rebuilt from the saved row, showing the
    // store-confirmed value at the save position.
    assert_eq!(app.screen, AppScreen::EditBlip);
    let form = app.edit_blip_state.as_ref().unwrap();
    assert_eq!(form.ring, "adopt");
    assert_eq!(form.field, EditField::Save);
    assert_eq!(app.input_state, InputState::WaitingForCommand);
}
