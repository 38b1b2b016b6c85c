//! The two search paths: the fuzzy index over the loaded lists, and the
//! dashboard's substring filters, with the monotonicity the latter keeps.

use adr_radar::domain::{Quadrant, Ring};
use adr_radar::models::BlipMetadataParams;
use adr_radar::state::App;
use adr_radar::webview::{
    filter_adrs, filter_blips, handle_dashboard_input, total_rows_for_tab, DashboardAction,
    DashboardState, RadarAdr, RadarBlip, RadarExport, SearchColumn, SearchState,
    TableDetailKind, TableDetailState, handle_search_input,
};
use adr_radar::input::Key;

fn seeded_app() -> App {
    let mut app = App::new();
    for (name, ring, quadrant, tag) in [
        ("Kubernetes", Ring::Trial, Quadrant::Platforms, "containers"),
        ("Rust", Ring::Adopt, Quadrant::Languages, "systems"),
        ("Terraform", Ring::Assess, Quadrant::Tools, "infra"),
    ] {
        let params = BlipMetadataParams {
            id: 0,
            name: name.to_string(),
            ring,
            quadrant,
            tag: tag.to_string(),
            description: String::new(),
            created: "2025-01-01".to_string(),
            author: String::new(),
            has_adr: "false".to_string(),
            adr_id: None,
        };
        app.store.insert_new_blip(&params).unwrap();
    }
    app.fetch_blips().unwrap();
    app
}

#[test]
fn fuzzy_filter_keeps_matches_only() {
    let mut app = seeded_app();
    app.search_active = true;
    app.search_query = "kuber".to_string();
    app.apply_search_filter();
    assert_eq!(app.filtered_blip_indices.len(), 1);
    let hit = app.filtered_blip_indices[0];
    assert_eq!(app.blips[hit].name, "Kubernetes");

    app.search_query = "zzzzqqq".to_string();
    app.apply_search_filter();
    assert!(app.filtered_blip_indices.is_empty());
}

#[test]
fn fuzzy_filter_searches_tags_too() {
    let mut app = seeded_app();
    app.search_active = true;
    app.search_query = "infra".to_string();
    app.apply_search_filter();
    assert_eq!(app.filtered_blip_indices.len(), 1);
    assert_eq!(app.blips[app.filtered_blip_indices[0]].name, "Terraform");
}

#[test]
fn blank_query_drops_the_filters() {
    let mut app = seeded_app();
    app.search_active = true;
    app.search_query = "   ".to_string();
    app.apply_search_filter();
    assert!(app.filtered_blip_indices.is_empty());
    assert!(app.filtered_adr_indices.is_empty());
    assert_eq!(app.search_result_index, 0);
}

#[test]
fn clear_search_resets_everything() {
    let mut app = seeded_app();
    app.search_active = true;
    app.search_query = "rust".to_string();
    app.apply_search_filter();
    app.clear_search();
    assert!(!app.search_active);
    assert_eq!(app.search_query, "");
    assert!(app.filtered_blip_indices.is_empty());
    assert_eq!(app.selected_blip_index, 0);
}

fn sample_export() -> RadarExport {
    let blips = vec![
        RadarBlip {
            id: 1,
            name: "Kubernetes".to_string(),
            ring: Some("trial".to_string()),
            quadrant: Some("platforms".to_string()),
            tag: Some("containers".to_string()),
            description: None,
            created: "2025-01-01".to_string(),
            has_adr: false,
            adr_id: None,
        },
        RadarBlip {
            id: 2,
            name: "Kubeflow".to_string(),
            ring: Some("assess".to_string()),
            quadrant: Some("tools".to_string()),
            tag: None,
            description: Some("pipelines".to_string()),
            created: "2025-02-01".to_string(),
            has_adr: false,
            adr_id: None,
        },
        RadarBlip {
            id: 3,
            name: "Rust".to_string(),
            ring: Some("adopt".to_string()),
            quadrant: Some("languages".to_string()),
            tag: None,
            description: None,
            created: "2025-03-01".to_string(),
            has_adr: false,
            adr_id: None,
        },
    ];
    let adrs = vec![RadarAdr {
        id: 1,
        title: "Adopt Kubernetes".to_string(),
        blip_name: "Kubernetes".to_string(),
        status: "accepted".to_string(),
        timestamp: "2025-01-02".to_string(),
    }];
    RadarExport { blips, adrs }
}

fn query_state(q: &str) -> SearchState {
    SearchState {
        query: q.to_string(),
        active: true,
        column: SearchColumn::Blips,
        row: 0,
        detail_open: false,
    }
}

#[test]
fn substring_filter_ignores_case_and_searches_all_fields() {
    let export = sample_export();
    let hits = filter_blips(&export, &query_state("KUBE"));
    assert_eq!(hits.len(), 2);
    let hits = filter_blips(&export, &query_state("pipelines"));
    assert_eq!(hits.len(), 1);
    assert_eq!(hits[0].name, "Kubeflow");
    let hits = filter_blips(&export, &query_state(""));
    assert_eq!(hits.len(), 3);
    let hits = filter_adrs(&export, &query_state("accepted"));
    assert_eq!(hits.len(), 1);
    assert_eq!(hits[0].title, "Adopt Kubernetes");
}

#[test]
fn longer_query_never_brings_rows_back() {
    let export = sample_export();
    let broad = filter_blips(&export, &query_state("kube"));
    let narrow = filter_blips(&export, &query_state("kuber"));
    for hit in &narrow {
        assert!(broad.iter().any(|b| b.id == hit.id));
    }
    assert!(narrow.len() <= broad.len());
    assert_eq!(narrow.len(), 1);
    assert_eq!(broad.len(), 2);
}

#[test]
fn dashboard_search_state_moves_and_resets() {
    let mut state = query_state("x");
    handle_search_input(&mut state, Key::Char('y'));
    assert_eq!(state.query, "xy");
    assert_eq!(state.row, 0);
    handle_search_input(&mut state, Key::Down);
    handle_search_input(&mut state, Key::Down);
    assert_eq!(state.row, 2);
    handle_search_input(&mut state, Key::Right);
    assert_eq!(state.column, SearchColumn::Adrs);
    assert_eq!(state.row, 0);
    handle_search_input(&mut state, Key::Enter);
    assert!(state.detail_open);
    handle_search_input(&mut state, Key::Esc);
    assert!(!state.detail_open);
    handle_search_input(&mut state, Key::Esc);
    assert!(!state.active);
    assert_eq!(state.query, "");
    assert_eq!(state.column, SearchColumn::Blips);
}

#[test]
fn tab_rows_follow_the_lists() {
    let export = sample_export();
    assert_eq!(total_rows_for_tab(&export, 0), 3);
    assert_eq!(total_rows_for_tab(&export, 1), 3);
    assert_eq!(total_rows_for_tab(&export, 2), 1);
    assert_eq!(total_rows_for_tab(&export, 3), 0);
}

#[test]
fn dashboard_navigation_wraps_tabs_and_scrolls() {
    let export = sample_export();
    let mut state = DashboardState {
        tab_index: 0,
        row_offset: 0,
        table_selected_row: 0,
        table_detail: TableDetailState { active: false, kind: TableDetailKind::AllBlip, row: 0 },
        search_state: SearchState {
            query: String::new(),
            active: false,
            column: SearchColumn::Blips,
            row: 0,
            detail_open: false,
        },
    };
    // Tabs wrap in both directions and reset the view.
    assert_eq!(handle_dashboard_input(&mut state, &export, 2, adr_radar::input::Key::Left), DashboardAction::Nothing);
    assert_eq!(state.tab_index, 2);
    handle_dashboard_input(&mut state, &export, 2, adr_radar::input::Key::Right);
    assert_eq!(state.tab_index, 0);
    // Moving down past the view height scrolls the table.
    handle_dashboard_input(&mut state, &export, 2, adr_radar::input::Key::Down);
    handle_dashboard_input(&mut state, &export, 2, adr_radar::input::Key::Down);
    assert_eq!(state.table_selected_row, 2);
    assert_eq!(state.row_offset, 1);
    // Enter opens the detail for the selected row of the current tab.
    handle_dashboard_input(&mut state, &export, 2, adr_radar::input::Key::Enter);
    assert!(state.table_detail.active);
    assert_eq!(state.table_detail.kind, TableDetailKind::RecentBlip);
    assert_eq!(state.table_detail.row, 2);
    handle_dashboard_input(&mut state, &export, 2, adr_radar::input::Key::Esc);
    assert!(!state.table_detail.active);
    // Space asks the shell to toggle the animation clock.
    assert_eq!(
        handle_dashboard_input(&mut state, &export, 2, adr_radar::input::Key::Char(' ')),
        DashboardAction::ToggleAnimation
    );
}
