//! Tests of the name index and the resolver.

use injector::{find_process_by_name, ProcessNameIndex, ResolveError};

/// A raw name buffer as the host hands it out: the wide encoding of `name`
/// padded with zero units to a fixed length.
fn padded_wide(name: &str) -> Vec<u16> {
    let mut units: Vec<u16> = name.encode_utf16().collect();
    units.resize(260, 0);
    units
}

#[test]
fn enumeration_scenario_retains_two_entries() {
    // Host processes (10, "a.exe"), (20, "b.exe"), (30, "a.exe"), all openable.
    let mut index = ProcessNameIndex::new();
    index.add_process(10, padded_wide("a.exe"));
    index.add_process(20, padded_wide("b.exe"));
    index.add_process(30, padded_wide("a.exe"));
    assert_eq!(index.len(), 2);
    let a = index.get(&"a.exe".to_string()).expect("a.exe should be retained");
    assert!(a == 10 || a == 30);
    assert_eq!(index.get(&"b.exe".to_string()), Some(20));
}

#[test]
fn trailing_padding_is_stripped() {
    let mut index = ProcessNameIndex::new();
    index.add_process(7, padded_wide("svc.exe"));
    assert_eq!(index.get(&"svc.exe".to_string()), Some(7));
    assert_eq!(index.get(&"svc.exe\0".to_string()), None);
}

#[test]
fn insert_overwrites_duplicate_name() {
    let mut index = ProcessNameIndex::new();
    index.insert("x.exe".to_string(), 5);
    index.insert("x.exe".to_string(), 6);
    assert_eq!(index.len(), 1);
    assert_eq!(index.get(&"x.exe".to_string()), Some(6));
}

#[test]
fn get_missing_name_is_none() {
    let index = ProcessNameIndex::new();
    assert_eq!(index.get(&"ghost.exe".to_string()), None);
}

#[test]
fn resolve_exact_match_wins() {
    let mut index = ProcessNameIndex::new();
    index.insert("Notepad.exe".to_string(), 42);
    assert_eq!(index.resolve(&"Notepad.exe".to_string(), false), Ok(42));
    assert_eq!(index.resolve(&"Notepad.exe".to_string(), true), Ok(42));
}

#[test]
fn resolve_case_insensitive_matches_upper_cased_forms() {
    let mut index = ProcessNameIndex::new();
    index.insert("Notepad.exe".to_string(), 42);
    assert_eq!(index.resolve(&"NOTEPAD.EXE".to_string(), true), Ok(42));
    assert_eq!(index.resolve(&"notepad.exe".to_string(), true), Ok(42));
}

#[test]
fn resolve_never_matches_substrings() {
    let mut index = ProcessNameIndex::new();
    index.insert("Notepad.exe".to_string(), 42);
    assert_eq!(
        index.resolve(&"otepad.exe".to_string(), true),
        Err(ResolveError::NotFound)
    );
    assert_eq!(
        index.resolve(&"Notepad".to_string(), true),
        Err(ResolveError::NotFound)
    );
    assert_eq!(
        index.resolve(&"".to_string(), true),
        Err(ResolveError::NotFound)
    );
}

#[test]
fn resolve_case_sensitive_fails_on_different_case() {
    let mut index = ProcessNameIndex::new();
    index.insert("ABC.exe".to_string(), 9);
    assert_eq!(
        index.resolve(&"abc.exe".to_string(), false),
        Err(ResolveError::NotFound)
    );
    assert_eq!(index.resolve(&"abc.exe".to_string(), true), Ok(9));
}

#[test]
fn find_process_by_name_defaults_to_case_sensitive() {
    let mut index = ProcessNameIndex::new();
    index.insert("Taskmgr.exe".to_string(), 77);
    assert_eq!(
        find_process_by_name(&index, &"Taskmgr.exe".to_string(), None),
        Ok(77)
    );
    assert_eq!(
        find_process_by_name(&index, &"taskmgr.exe".to_string(), None),
        Err(ResolveError::NotFound)
    );
    assert_eq!(
        find_process_by_name(&index, &"taskmgr.exe".to_string(), Some(false)),
        Err(ResolveError::NotFound)
    );
    assert_eq!(
        find_process_by_name(&index, &"taskmgr.exe".to_string(), Some(true)),
        Ok(77)
    );
}

#[test]
fn unreadable_processes_are_skipped_silently() {
    let mut index = ProcessNameIndex::new();
    index.record_enumerated(10, Some(padded_wide("a.exe")));
    index.record_enumerated(11, None);
    index.record_enumerated(0, Some(padded_wide("idle.exe")));
    assert_eq!(index.len(), 1);
    assert_eq!(index.get(&"a.exe".to_string()), Some(10));
    assert_eq!(index.get(&"idle.exe".to_string()), None);
}

#[test]
fn index_never_returns_zero_identifier() {
    let mut index = ProcessNameIndex::new();
    index.add_process(10, padded_wide("a.exe"));
    index.add_process(20, padded_wide("b.exe"));
    for record in &index.records {
        assert_ne!(record.pid, 0);
    }
    assert_ne!(index.get(&"a.exe".to_string()), Some(0));
}
