//! Store semantics: row lookup, partial updates, uniqueness, ids and
//! counts.

use adr_radar::domain::{Quadrant, Ring};
use adr_radar::models::BlipMetadataParams;
use adr_radar::store::{AdrUpdateParams, BlipUpdateParams, CatalogStore, StoreError};

fn seeded_store() -> CatalogStore {
    let mut store = CatalogStore::new();
    let params = BlipMetadataParams {
        id: 1,
        name: "Test Blip".to_string(),
        ring: Ring::Trial,
        quadrant: Quadrant::Tools,
        tag: "test".to_string(),
        description: "A test blip".to_string(),
        created: "2025-04-21".to_string(),
        author: String::new(),
        has_adr: "false".to_string(),
        adr_id: None,
    };
    store.insert_new_blip(&params).unwrap();
    store
}

#[test]
fn test_get_blip_by_id() {
    let store = seeded_store();

    let blip = store.get_blip_by_id(1).unwrap();
    assert_eq!(blip.id, 1);
    assert_eq!(blip.name, "Test Blip");
    assert_eq!(blip.ring, Some(Ring::Trial));
}

#[test]
fn test_update_blip() {
    let mut store = seeded_store();

    let params = BlipUpdateParams {
        id: 1,
        name: Some("Updated Blip".to_string()),
        ring: None,
        quadrant: None,
        tag: None,
        description: None,
        adr_id: None,
    };
    store.update_blip(&params).unwrap();

    let updated = store.get_blip_by_id(1).unwrap();
    assert_eq!(updated.name, "Updated Blip");
    assert_eq!(updated.ring, Some(Ring::Trial));

    let params2 = BlipUpdateParams {
        id: 1,
        name: None,
        ring: Some(Ring::Adopt),
        quadrant: Some(Quadrant::Languages),
        tag: None,
        description: Some("Updated description".to_string()),
        adr_id: None,
    };
    store.update_blip(&params2).unwrap();

    let updated2 = store.get_blip_by_id(1).unwrap();
    assert_eq!(updated2.name, "Updated Blip");
    assert_eq!(updated2.ring, Some(Ring::Adopt));
    assert_eq!(updated2.quadrant, Some(Quadrant::Languages));
    assert_eq!(updated2.description, Some("Updated description".to_string()));
}

#[test]
fn duplicate_name_insert_fails_and_leaves_store_unchanged() {
    let mut store = seeded_store();
    let params = BlipMetadataParams {
        id: 99,
        name: "Test Blip".to_string(),
        ring: Ring::Hold,
        quadrant: Quadrant::Platforms,
        tag: String::new(),
        description: String::new(),
        created: "2025-05-01".to_string(),
        author: String::new(),
        has_adr: "false".to_string(),
        adr_id: None,
    };
    assert_eq!(store.insert_new_blip(&params), Err(StoreError::Conflict));
    assert_eq!(store.count_blips(), 1);
    let row = store.get_blip_by_id(1).unwrap();
    assert_eq!(row.ring, Some(Ring::Trial));
    assert_eq!(row.created, "2025-04-21");
}

#[test]
fn all_unset_update_changes_no_field() {
    let mut store = seeded_store();
    let before = store.get_blip_by_id(1).unwrap();
    let params = BlipUpdateParams {
        id: 1,
        name: None,
        ring: None,
        quadrant: None,
        tag: None,
        description: None,
        adr_id: None,
    };
    store.update_blip(&params).unwrap();
    let after = store.get_blip_by_id(1).unwrap();
    assert_eq!(after.name, before.name);
    assert_eq!(after.ring, before.ring);
    assert_eq!(after.quadrant, before.quadrant);
    assert_eq!(after.tag, before.tag);
    assert_eq!(after.description, before.description);
    assert_eq!(after.created, before.created);
    assert_eq!(after.has_adr, before.has_adr);
    assert_eq!(after.adr_id, before.adr_id);
}

#[test]
fn update_missing_row_is_not_found() {
    let mut store = seeded_store();
    let params = AdrUpdateParams {
        id: 42,
        title: Some("New title".to_string()),
        blip_name: None,
        status: None,
        created: None,
    };
    assert_eq!(store.update_adr(&params), Err(StoreError::NotFound));
}

#[test]
fn rename_to_existing_name_is_a_conflict() {
    let mut store = seeded_store();
    let params = BlipMetadataParams {
        id: 2,
        name: "Other".to_string(),
        ring: Ring::Hold,
        quadrant: Quadrant::Platforms,
        tag: String::new(),
        description: String::new(),
        created: "2025-05-02".to_string(),
        author: String::new(),
        has_adr: "false".to_string(),
        adr_id: None,
    };
    store.insert_new_blip(&params).unwrap();
    let rename = BlipUpdateParams {
        id: 2,
        name: Some("Test Blip".to_string()),
        ring: None,
        quadrant: None,
        tag: None,
        description: None,
        adr_id: None,
    };
    assert_eq!(store.update_blip(&rename), Err(StoreError::Conflict));
    assert_eq!(store.get_blip_by_id(2).unwrap().name, "Other");
}

#[test]
fn ids_allocate_upward_per_table() {
    let mut store = CatalogStore::new();
    assert_eq!(store.get_next_blip_id(), 1);
    assert_eq!(store.get_next_id(), 1);
    let params = BlipMetadataParams {
        id: 1,
        name: "First".to_string(),
        ring: Ring::Hold,
        quadrant: Quadrant::Platforms,
        tag: String::new(),
        description: String::new(),
        created: "2025-01-01".to_string(),
        author: String::new(),
        has_adr: "false".to_string(),
        adr_id: None,
    };
    store.insert_new_blip(&params).unwrap();
    assert_eq!(store.get_next_blip_id(), 2);
    assert_eq!(store.get_next_id(), 1);
}

#[test]
fn counts_by_classification_group_the_rows() {
    let mut store = CatalogStore::new();
    for (name, ring, quadrant) in [
        ("A", Ring::Hold, Quadrant::Tools),
        ("B", Ring::Hold, Quadrant::Platforms),
        ("C", Ring::Adopt, Quadrant::Tools),
    ] {
        let params = BlipMetadataParams {
            id: 0,
            name: name.to_string(),
            ring,
            quadrant,
            tag: String::new(),
            description: String::new(),
            created: "2025-01-01".to_string(),
            author: String::new(),
            has_adr: "false".to_string(),
            adr_id: None,
        };
        store.insert_new_blip(&params).unwrap();
    }
    let by_ring = store.count_blips_by_ring();
    assert_eq!(by_ring, vec![(Ring::Hold, 2), (Ring::Adopt, 1)]);
    let by_quadrant = store.count_blips_by_quadrant();
    assert_eq!(by_quadrant, vec![(Quadrant::Platforms, 1), (Quadrant::Tools, 2)]);
}

#[test]
fn recent_blips_come_newest_first() {
    let mut store = CatalogStore::new();
    for (name, created) in [("Old", "2023-01-10"), ("New", "2025-03-04"), ("Mid", "2024-06-30")] {
        let params = BlipMetadataParams {
            id: 0,
            name: name.to_string(),
            ring: Ring::Hold,
            quadrant: Quadrant::Tools,
            tag: String::new(),
            description: String::new(),
            created: created.to_string(),
            author: String::new(),
            has_adr: "false".to_string(),
            adr_id: None,
        };
        store.insert_new_blip(&params).unwrap();
    }
    let recent = store.recent_blips(2);
    assert_eq!(recent.len(), 2);
    assert_eq!(recent[0].name, "New");
    assert_eq!(recent[1].name, "Mid");
}

#[test]
fn settings_upsert_replaces_and_appends() {
    let mut store = CatalogStore::new();
    store.set_app_setting("ADR_DIR", "./a").unwrap();
    store.set_app_setting("BLIP_DIR", "./b").unwrap();
    store.set_app_setting("ADR_DIR", "./c").unwrap();
    assert_eq!(store.get_app_setting("ADR_DIR"), Some("./c".to_string()));
    assert_eq!(store.get_app_setting("BLIP_DIR"), Some("./b".to_string()));
    assert_eq!(store.get_app_setting("MISSING"), None);
    assert_eq!(store.get_app_settings().len(), 2);
}
