use gputools_replay::sys::inventory::{coverage, exports, Status, SymbolKind};

#[test]
fn the_inventory_matches_the_tbd_counts() {
    let all = exports();
    let classes = all.iter().filter(|s| s.kind == SymbolKind::ObjcClass).count();
    let c_symbols = all.iter().filter(|s| s.kind == SymbolKind::CSymbol).count();
    assert_eq!(classes, 13);
    assert_eq!(c_symbols, 18);
    assert_eq!(all.len(), 31);
}

#[test]
fn no_duplicate_names() {
    let mut names: Vec<&str> = exports().iter().map(|s| s.name).collect();
    names.sort_unstable();
    let before = names.len();
    names.dedup();
    assert_eq!(before, names.len(), "duplicate symbol name in the inventory");
}

#[test]
fn coverage_counts_established_over_total() {
    let (established, total) = coverage();
    assert_eq!(total, 31);
    assert_eq!(established, 30);
}

#[test]
fn accel_structure_is_noted_as_new_in_27() {
    let all = exports();
    let s = all
        .iter()
        .find(|s| s.name == "GTReplayFetchAccelerationStructure")
        .expect("accel-structure fetch missing from inventory");
    assert!(s.notes.contains("27"), "note should record its 27-only status");
}

#[test]
fn the_one_unverified_export_is_prefer_device() {
    let all = exports();
    let unverified: Vec<&str> = all
        .iter()
        .filter(|s| s.status == Status::Unverified)
        .map(|s| s.name)
        .collect();
    assert_eq!(unverified, vec!["GTMTLReplayClient_preferDevice"]);
}
