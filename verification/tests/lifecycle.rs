//! End-to-end lifecycle scenarios: creating entries through the wizard,
//! the duplicate-name path, pre-seeded ADR creation, and the edit/save
//! round trip with its mirror re-sync.

use adr_radar::domain::{Quadrant, Ring};
use adr_radar::filegen::{FileGenEvent, FileGenMachine, FileGenState};
use adr_radar::genfile::GenError;
use adr_radar::input::{handle_input, Key};
use adr_radar::state::{App, AppScreen, EditField, InputMode, InputState};
use adr_radar::store::BlipUpdateParams;

/// Drives the wizard from the main screen through name entry.  The name
/// is placed in the input field directly: the dispatcher reserves the
/// letter `s` for opening the search overlay, so names holding it cannot
/// be typed key by key.
fn drive_blip_wizard(app: &mut App, name: &str) {
    handle_input(app, Key::Char('b'));
    assert_eq!(app.input_state, InputState::EnteringTechnology);
    app.current_input = name.to_string();
    handle_input(app, Key::Enter);
}

#[test]
fn create_blip_writes_row_and_mirror() {
    let mut app = App::new();
    app.author_name = "someone".to_string();
    drive_blip_wizard(&mut app, "Kubernetes");
    assert_eq!(app.input_state, InputState::ChoosingQuadrant);
    // Platforms is the first quadrant option.
    handle_input(&mut app, Key::Enter);
    assert_eq!(app.input_state, InputState::ChoosingRing);
    // Trial is the third ring option.
    handle_input(&mut app, Key::Down);
    handle_input(&mut app, Key::Down);
    handle_input(&mut app, Key::Enter);
    assert_eq!(app.input_state, InputState::GeneratingFile);

    let (path, content) = app.generate_file("2025-06-01").unwrap();
    assert_eq!(path, "./blips/2025-06-01-kubernetes.mdx");
    assert!(content.contains("ring: \"trial\""));
    assert!(content.contains("quadrant: \"platforms\""));
    assert!(content.contains("name: \"Kubernetes\""));

    assert_eq!(app.store.count_blips(), 1);
    let row = app.store.get_blip_by_id(1).unwrap();
    assert_eq!(row.name, "Kubernetes");
    assert_eq!(row.ring, Some(Ring::Trial));
    assert_eq!(row.quadrant, Some(Quadrant::Platforms));
    assert!(!row.has_adr);
}

#[test]
fn duplicate_blip_returns_to_name_entry() {
    let mut app = App::new();
    drive_blip_wizard(&mut app, "Kubernetes");
    handle_input(&mut app, Key::Enter);
    handle_input(&mut app, Key::Down);
    handle_input(&mut app, Key::Down);
    handle_input(&mut app, Key::Enter);
    app.generate_file("2025-06-01").unwrap();

    // The wizard's own name check already refuses the duplicate.
    app.reset();
    drive_blip_wizard(&mut app, "Kubernetes");
    assert_eq!(app.input_state, InputState::EnteringTechnology);
    assert_eq!(app.status_message, "Error: Blip already exists: Kubernetes");

    // And so does the generation step, routing back through the machine.
    app.reset();
    app.input_mode = Some(InputMode::Blip);
    app.blip_data.name = "Kubernetes".to_string();
    app.blip_data.quadrant = Some(Quadrant::Platforms);
    app.blip_data.ring = Some(Ring::Trial);
    app.input_state = InputState::GeneratingFile;
    let mut machine = FileGenMachine::new(FileGenState::Idle);
    machine.process_event(&FileGenEvent::StartGeneration, &mut app).unwrap();
    let err = app.generate_file("2025-06-02").unwrap_err();
    let message = err.message();
    assert_eq!(message, "Blip already exists: Kubernetes");
    machine.process_event(&FileGenEvent::Error(message), &mut app).unwrap();
    assert_eq!(app.input_state, InputState::EnteringTechnology);
    assert_eq!(app.current_input, "Kubernetes");
    machine.process_event(&FileGenEvent::Reset, &mut app).unwrap();
    assert_eq!(machine.state(), FileGenState::Idle);

    assert_eq!(app.store.count_blips(), 1);
}

#[test]
fn generate_adr_preseeds_wizard_and_links_blip() {
    let mut app = App::new();
    drive_blip_wizard(&mut app, "Kubernetes");
    handle_input(&mut app, Key::Enter);
    handle_input(&mut app, Key::Down);
    handle_input(&mut app, Key::Down);
    handle_input(&mut app, Key::Enter);
    app.generate_file("2025-06-01").unwrap();
    app.reset();
    app.fetch_blips().unwrap();

    app.screen = AppScreen::BlipActions;
    app.selected_blip_index = 0;
    // Second menu row: the ADR action.
    handle_input(&mut app, Key::Down);
    handle_input(&mut app, Key::Enter);

    assert_eq!(app.input_state, InputState::ChoosingAdrStatus);
    assert_eq!(app.screen, AppScreen::Main);
    assert_eq!(app.blip_data.name, "Kubernetes");
    assert_eq!(app.blip_data.quadrant, Some(Quadrant::Platforms));
    assert_eq!(app.blip_data.ring, Some(Ring::Trial));
    assert_eq!(app.status_message, "Select ADR status");

    // Accept the proposed status: the wizard is ready to generate.
    handle_input(&mut app, Key::Enter);
    assert_eq!(app.input_state, InputState::GeneratingFile);
    let (path, content) = app.generate_file("2025-06-05").unwrap();
    assert_eq!(path, "./adrs/2025-06-05-kubernetes.mdx");
    assert!(content.contains("title: \"Kubernetes\""));
    assert!(content.contains("status: \"proposed\""));

    assert_eq!(app.store.count_adrs(), 1);
    let adr = &app.store.get_adrs()[0];
    assert_eq!(adr.id, 1);
    assert_eq!(adr.blip_name, "Kubernetes");
    let blip = app.store.get_blip_by_id(1).unwrap();
    assert_eq!(blip.adr_id, Some(1));
    assert!(blip.has_adr);
}

#[test]
fn edit_ring_save_updates_row_mirror_and_form() {
    let mut app = App::new();
    app.author_name = "someone".to_string();
    drive_blip_wizard(&mut app, "Terraform");
    handle_input(&mut app, Key::Enter);
    // Hold is the first ring option.
    handle_input(&mut app, Key::Enter);
    app.generate_file("2025-06-01").unwrap();
    app.reset();
    app.fetch_blips().unwrap();
    assert_eq!(app.blips[0].ring, Some(Ring::Hold));

    app.edit_blip_state = Some(adr_radar::state::EditBlipState::from_blip(&app.blips[0]));
    let params = BlipUpdateParams {
        id: app.blips[0].id,
        name: None,
        ring: Some(Ring::Adopt),
        quadrant: None,
        tag: None,
        description: None,
        adr_id: None,
    };
    let job = app.update_blip(params).unwrap().unwrap();

    let row = app.store.get_blip_by_id(1).unwrap();
    assert_eq!(row.ring, Some(Ring::Adopt));
    assert!(job.content.contains("ring: \"adopt\""));
    assert_eq!(job.dir, "./blips");
    assert_eq!(job.expected_path, "./blips/2025-06-01-terraform.mdx");
    assert_eq!(job.suffix, "-terraform.mdx");

    // The refreshed form shows the saved value and points at save.
    let form = app.edit_blip_state.as_ref().unwrap();
    assert_eq!(form.ring, "adopt");
    assert_eq!(form.field, EditField::Save);
    assert_eq!(app.status_message, "Blip updated successfully");
}

#[test]
fn generation_errors_name_their_cause() {
    let mut app = App::new();
    assert!(matches!(app.generate_file("2025-01-01"), Err(GenError::NoInputMode)));
    app.input_mode = Some(InputMode::Blip);
    assert!(matches!(app.generate_file("2025-01-01"), Err(GenError::QuadrantMissing)));
    app.blip_data.quadrant = Some(Quadrant::Tools);
    assert!(matches!(app.generate_file("2025-01-01"), Err(GenError::RingMissing)));
    app.input_mode = Some(InputMode::Adr);
    app.adr_status = None;
    assert!(matches!(app.generate_file("2025-01-01"), Err(GenError::StatusMissing)));
}

#[test]
fn mirror_failure_is_a_degraded_success() {
    let mut app = App::new();
    app.note_blip_sync_failure("disk full");
    assert_eq!(app.status_message, "Blip saved to DB, but markdown sync failed: disk full");
    app.note_adr_sync_failure("read-only");
    assert_eq!(app.status_message, "ADR saved to DB, but markdown sync failed: read-only");
}

#[test]
fn invalid_machine_transition_is_reported() {
    let mut app = App::new();
    let mut machine = FileGenMachine::new(FileGenState::Idle);
    let err = machine.process_event(&FileGenEvent::Reset, &mut app).unwrap_err();
    assert_eq!(err.message(), "Invalid transition from Idle with event Reset");
    assert_eq!(machine.state(), FileGenState::Idle);
}

#[test]
fn success_event_completes_the_wizard() {
    let mut app = App::new();
    app.input_state = InputState::GeneratingFile;
    let mut machine = FileGenMachine::new(FileGenState::Generating);
    machine
        .process_event(&FileGenEvent::Success("./blips/2025-06-01-kubernetes.mdx".to_string()), &mut app)
        .unwrap();
    assert_eq!(app.input_state, InputState::Completed);
    assert_eq!(app.status_message, "File generated: 2025-06-01-kubernetes.mdx");
    assert_eq!(machine.state(), FileGenState::Success);
}

#[test]
fn typing_edits_the_name_input() {
    let mut app = App::new();
    handle_input(&mut app, Key::Char('b'));
    for c in "Vault".chars() {
        handle_input(&mut app, Key::Char(c));
    }
    assert_eq!(app.current_input, "Vault");
    handle_input(&mut app, Key::Backspace);
    assert_eq!(app.current_input, "Vaul");
}

#[test]
fn invalid_picker_position_reprompts() {
    let mut app = App::new();
    app.input_mode = Some(InputMode::Adr);
    app.input_state = InputState::ChoosingAdrStatus;
    app.adr_status_selection_index = 7;
    app.advance_state();
    assert_eq!(app.input_state, InputState::ChoosingAdrStatus);
    assert_eq!(app.status_message, "Invalid status selection.");

    app.input_state = InputState::ChoosingRing;
    app.ring_selection_index = 9;
    app.advance_state();
    assert_eq!(app.input_state, InputState::ChoosingRing);
    assert_eq!(app.status_message, "Invalid ring selection.");
}

#[test]
fn cancel_discards_the_draft_from_any_state() {
    let mut app = App::new();
    drive_blip_wizard(&mut app, "Vault");
    assert_eq!(app.input_state, InputState::ChoosingQuadrant);
    handle_input(&mut app, Key::Esc);
    assert_eq!(app.input_state, InputState::WaitingForCommand);
    assert_eq!(app.blip_data.name, "");
    assert_eq!(app.input_mode, None);
}

#[test]
fn generation_errors_reroute_to_the_last_selection_step() {
    // A non-conflict error returns the wizard to the last selection step
    // of the kind in progress: the status picker for an ADR draft, the
    // ring picker for a blip draft.
    let mut app = App::new();
    app.input_mode = Some(InputMode::Adr);
    app.input_state = InputState::GeneratingFile;
    let mut machine = FileGenMachine::new(FileGenState::Generating);
    machine
        .process_event(&FileGenEvent::Error("ADR status missing".to_string()), &mut app)
        .unwrap();
    assert_eq!(app.input_state, InputState::ChoosingAdrStatus);
    assert_eq!(app.status_message, "Error: ADR status missing");

    let mut app = App::new();
    app.input_mode = Some(InputMode::Blip);
    app.input_state = InputState::GeneratingFile;
    let mut machine = FileGenMachine::new(FileGenState::Generating);
    machine
        .process_event(&FileGenEvent::Error("Ring selection missing".to_string()), &mut app)
        .unwrap();
    assert_eq!(app.input_state, InputState::ChoosingRing);
}

#[test]
fn all_unset_update_keeps_unset_fields_unset() {
    // A partial update leaves an unset optional unset and keeps the ADR
    // flag, even one that came from an ADR referencing the blip by title.
    let mut app = App::new();
    app.store
        .insert_new_adr_with_params(&adr_radar::models::AdrMetadataParams {
            id: 1,
            title: "Vault".to_string(),
            blip_name: String::new(),
            status: "proposed".to_string(),
            created: "2025-01-01".to_string(),
        })
        .unwrap();
    app.input_mode = Some(InputMode::Blip);
    app.blip_data.name = "Vault".to_string();
    app.blip_data.quadrant = Some(Quadrant::Tools);
    app.blip_data.ring = Some(Ring::Hold);
    app.generate_file("2025-02-02").unwrap();
    let row = app.store.get_blip_by_id(1).unwrap();
    // The flag came from the ADR title match, with no linked id.
    assert!(row.has_adr);
    assert_eq!(row.adr_id, None);

    let params = BlipUpdateParams {
        id: 1,
        name: None,
        ring: None,
        quadrant: None,
        tag: None,
        description: None,
        adr_id: None,
    };
    app.store.update_blip(&params).unwrap();
    let after = app.store.get_blip_by_id(1).unwrap();
    assert!(after.has_adr);
    assert_eq!(after.adr_id, None);
}
