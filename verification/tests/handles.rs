use imessage_export::handles::{build_handle_map, Handle, HandleMap};

fn handle(rowid: i32, id: &str) -> Option<Handle> {
    Some(Handle { rowid, id: id.to_string() })
}

#[test]
fn empty_table_gives_empty_directory() {
    let map = build_handle_map(&vec![]);
    assert_eq!(map.get(0), None);
    assert_eq!(map.get(1), None);
}

#[test]
fn directory_maps_row_numbers_to_identifiers() {
    let rows = vec![handle(1, "+15551234567"), handle(2, "someone@example.com")];
    let map = build_handle_map(&rows);
    assert_eq!(map.get(1), Some("+15551234567".to_string()));
    assert_eq!(map.get(2), Some("someone@example.com".to_string()));
    assert_eq!(map.get(3), None);
}

#[test]
fn rows_that_failed_to_decode_are_passed_over() {
    let rows = vec![None, handle(7, "+15559876543"), None, handle(-3, "below zero"), None];
    let map = build_handle_map(&rows);
    assert_eq!(map.get(7), Some("+15559876543".to_string()));
    assert_eq!(map.get(-3), Some("below zero".to_string()));
    assert_eq!(map.get(0), None);
    assert_eq!(build_handle_map(&vec![None, None]).get(0), None);
}

#[test]
fn last_row_with_a_number_is_the_one_found() {
    let rows = vec![handle(4, "first"), handle(5, "other"), handle(4, "second"), None];
    let map = build_handle_map(&rows);
    assert_eq!(map.get(4), Some("second".to_string()));
    assert_eq!(map.get(5), Some("other".to_string()));
}

#[test]
fn resolve_follows_a_reference() {
    let map = build_handle_map(&vec![handle(9, "+15559876543")]);
    assert_eq!(map.resolve(Some(9)), Some("+15559876543".to_string()));
    assert_eq!(map.resolve(Some(10)), None);
    assert_eq!(map.resolve(None), None);
}

#[test]
fn insert_replaces_an_entry() {
    let mut map = HandleMap::new();
    assert_eq!(map.get(1), None);
    map.insert(1, "a".to_string());
    map.insert(2, "b".to_string());
    map.insert(1, "c".to_string());
    assert_eq!(map.get(1), Some("c".to_string()));
    assert_eq!(map.get(2), Some("b".to_string()));
}

#[test]
fn extreme_row_numbers_are_kept_apart() {
    let rows = vec![handle(i32::MAX, "max"), handle(i32::MIN, "min"), handle(0, "zero")];
    let map = build_handle_map(&rows);
    assert_eq!(map.get(i32::MAX), Some("max".to_string()));
    assert_eq!(map.get(i32::MIN), Some("min".to_string()));
    assert_eq!(map.get(0), Some("zero".to_string()));
}
