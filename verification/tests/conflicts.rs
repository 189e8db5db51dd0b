use inventory_extensions::conflicts::{ExtensionDiff, LoadAction, LoadConflict, StageConflict, VersionOrder};
use inventory_extensions::models::{ExtensionID, InventoryExtension, Metadata, Version};

fn make_metadata(id: &str, name: &str, major: u64, minor: u64, patch: u64) -> Metadata {
    Metadata {
        id: ExtensionID { id: id.to_string() },
        display_name: name.to_string(),
        version: Version { major, minor, patch },
    }
}

fn make_extension(id: &str, name: &str, major: u64, minor: u64, patch: u64) -> InventoryExtension {
    InventoryExtension {
        metadata: make_metadata(id, name, major, minor, patch),
        manufacturers: Vec::new(),
        classifications: Vec::new(),
        devices: Vec::new(),
    }
}

#[test]
fn diff_returns_none_for_differing_identities() {
    let loaded = make_metadata("a", "Foo", 1, 0, 0);
    let staged = make_metadata("b", "Foo", 1, 0, 0);
    assert!(ExtensionDiff::new(&loaded, &staged).is_none());
}

#[test]
fn diff_version_order_equal() {
    let loaded = make_metadata("a", "Foo", 1, 2, 3);
    let staged = make_metadata("a", "Foo", 1, 2, 3);
    let diff = ExtensionDiff::new(&loaded, &staged).unwrap();
    assert_eq!(diff.version_order, VersionOrder::Equal);
    assert!(diff.same_display_name);
    assert!(!diff.is_update());
    assert!(!diff.is_downgrade());
    assert!(!diff.is_name_change());
}

#[test]
fn diff_version_order_staged_higher() {
    let loaded = make_metadata("a", "Foo", 1, 0, 0);
    let staged = make_metadata("a", "Foo", 2, 0, 0);
    let diff = ExtensionDiff::new(&loaded, &staged).unwrap();
    assert_eq!(diff.version_order, VersionOrder::StagedHigher);
    assert!(diff.is_update());
    assert!(!diff.is_downgrade());
}

#[test]
fn diff_version_order_staged_lower() {
    let loaded = make_metadata("a", "Foo", 1, 10, 0);
    let staged = make_metadata("a", "Foo", 1, 9, 9);
    let diff = ExtensionDiff::new(&loaded, &staged).unwrap();
    assert_eq!(diff.version_order, VersionOrder::StagedLower);
    assert!(!diff.is_update());
    assert!(diff.is_downgrade());
}

#[test]
fn diff_orders_numerically_not_lexically() {
    let loaded = make_metadata("a", "Foo", 1, 9, 0);
    let staged = make_metadata("a", "Foo", 1, 10, 0);
    let diff = ExtensionDiff::new(&loaded, &staged).unwrap();
    assert_eq!(diff.version_order, VersionOrder::StagedHigher);
}

#[test]
fn diff_update_requires_same_name() {
    let loaded = make_metadata("a", "Foo", 1, 0, 0);
    let staged = make_metadata("a", "Bar", 2, 0, 0);
    let diff = ExtensionDiff::new(&loaded, &staged).unwrap();
    assert!(diff.is_name_change());
    assert!(!diff.is_update());
    assert!(!diff.is_downgrade());
}

#[test]
fn should_reload_true_only_on_upgrade() {
    let staged = make_extension("a", "Foo", 2, 0, 0);
    let mut loaded = vec![make_metadata("a", "Foo", 1, 0, 0)];
    let conflict = LoadConflict::new(&staged, &mut loaded).unwrap();
    assert!(conflict.should_reload());

    let staged = make_extension("a", "Foo", 1, 0, 0);
    let mut loaded = vec![make_metadata("a", "Foo", 2, 0, 0)];
    let conflict = LoadConflict::new(&staged, &mut loaded).unwrap();
    assert!(!conflict.should_reload());

    let staged = make_extension("a", "Foo", 1, 0, 0);
    let mut loaded = vec![make_metadata("a", "Foo", 1, 0, 0)];
    let conflict = LoadConflict::new(&staged, &mut loaded).unwrap();
    assert!(!conflict.should_reload());
}

#[test]
fn scenario_identical_metadata_skips() {
    let staged = make_extension("a", "Foo", 1, 0, 0);
    let mut loaded = vec![make_metadata("a", "Foo", 1, 0, 0)];
    let conflict = LoadConflict::new(&staged, &mut loaded).unwrap();
    assert!(conflict.name_change.is_none());
    assert!(conflict.version_change.is_none());
    assert!(loaded.is_empty());
    assert_eq!(conflict.resolve(false), LoadAction::Skip);
    assert_eq!(conflict.resolve(true), LoadAction::Skip);
}

#[test]
fn scenario_upgrade_with_override_reloads() {
    let staged = make_extension("a", "Foo", 2, 0, 0);
    let mut loaded = vec![make_metadata("a", "Foo", 1, 0, 0)];
    let conflict = LoadConflict::new(&staged, &mut loaded).unwrap();
    let version_change = conflict.version_change.as_ref().unwrap();
    assert_eq!(version_change.loaded_version, Version { major: 1, minor: 0, patch: 0 });
    assert_eq!(version_change.staged_version, Version { major: 2, minor: 0, patch: 0 });
    assert_eq!(conflict.resolve(true), LoadAction::Reload);
}

#[test]
fn scenario_upgrade_without_override_skips() {
    let staged = make_extension("a", "Foo", 2, 0, 0);
    let mut loaded = vec![make_metadata("a", "Foo", 1, 0, 0)];
    let conflict = LoadConflict::new(&staged, &mut loaded).unwrap();
    assert!(conflict.version_change.is_some());
    assert_eq!(conflict.resolve(false), LoadAction::Skip);
}

#[test]
fn scenario_downgrade_with_override_skips() {
    let staged = make_extension("a", "Foo", 1, 0, 0);
    let mut loaded = vec![make_metadata("a", "Foo", 2, 0, 0)];
    let conflict = LoadConflict::new(&staged, &mut loaded).unwrap();
    assert!(conflict.version_change.is_some());
    assert_eq!(conflict.resolve(true), LoadAction::Skip);
    assert_eq!(conflict.resolve(false), LoadAction::Skip);
}

#[test]
fn scenario_name_change_same_version_skips() {
    let staged = make_extension("a", "Bar", 1, 0, 0);
    let mut loaded = vec![make_metadata("a", "Foo", 1, 0, 0)];
    let conflict = LoadConflict::new(&staged, &mut loaded).unwrap();
    let name_change = conflict.name_change.as_ref().unwrap();
    assert_eq!(name_change.loaded_name, "Foo");
    assert_eq!(name_change.staged_name, "Bar");
    assert!(conflict.version_change.is_none());
    assert_eq!(conflict.resolve(true), LoadAction::Skip);
}

#[test]
fn scenario_different_identity_is_no_conflict() {
    let staged = make_extension("a", "Foo", 1, 0, 0);
    let mut loaded = vec![make_metadata("b", "Foo", 1, 0, 0)];
    assert!(LoadConflict::new(&staged, &mut loaded).is_none());
    assert_eq!(loaded.len(), 1);
}

#[test]
fn name_change_suppresses_version_change() {
    let staged = make_extension("a", "Bar", 2, 0, 0);
    let mut loaded = vec![make_metadata("a", "Foo", 1, 0, 0)];
    let conflict = LoadConflict::new(&staged, &mut loaded).unwrap();
    assert!(conflict.name_change.is_some());
    assert!(conflict.version_change.is_none());
}

#[test]
fn matching_consumes_first_match_only() {
    let staged = make_extension("a", "Foo", 1, 0, 0);
    let mut loaded = vec![
        make_metadata("b", "Other", 1, 0, 0),
        make_metadata("a", "Foo", 1, 0, 0),
        make_metadata("a", "Twin", 1, 0, 0),
    ];
    let conflict = LoadConflict::new(&staged, &mut loaded).unwrap();
    assert!(conflict.name_change.is_none());
    assert_eq!(loaded.len(), 2);
    assert_eq!(loaded[0].id.id, "b");
    assert_eq!(loaded[1].display_name, "Twin");
}

#[test]
fn stage_conflict_records_identity() {
    let metadata = make_metadata("a", "Foo", 1, 0, 0);
    let stage_conflict = StageConflict::new(&metadata);
    assert_eq!(stage_conflict.id.id, "a");
}

#[test]
fn conflict_keeps_loaded_identity() {
    let staged = make_extension("a", "Bar", 1, 0, 0);
    let mut loaded = vec![make_metadata("a", "Foo", 1, 0, 0)];
    let conflict = LoadConflict::new(&staged, &mut loaded).unwrap();
    assert_eq!(conflict.id.id, "a");
}
