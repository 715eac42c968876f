use covers_api::cover::Cover;
use covers_api::provider::CoverProvider;
use covers_api::store::RecordTable;

#[test]
fn upsert_creates_then_overwrites_same_key() {
    let mut t = RecordTable::new();
    t.update_table_image(7, 100, None);
    assert_eq!(t.get(7), Some(Cover { id: 7, last_try: 100, provider: None }));
    // Same key again: the row is replaced, not duplicated.
    t.update_table_image(7, 200, Some(CoverProvider::OpenLibrary));
    assert_eq!(t.get(7), Some(Cover { id: 7, last_try: 200, provider: Some(0) }));
    assert_eq!(t.all_id(), vec![7]);
}

#[test]
fn upsert_leaves_other_rows_alone() {
    let mut t = RecordTable::new();
    t.update_table_image(1, 10, None);
    t.update_table_image(2, 20, Some(CoverProvider::Manual));
    t.update_table_image(1, 30, Some(CoverProvider::OpenLibrary));
    assert_eq!(t.get(2), Some(Cover { id: 2, last_try: 20, provider: Some(1) }));
    assert_eq!(t.get(1), Some(Cover { id: 1, last_try: 30, provider: Some(0) }));
    assert_eq!(t.get(3), None);
}

#[test]
fn lookup_helpers_match_rows() {
    let mut t = RecordTable::new();
    t.update_table_image(5, 50, None);
    t.update_table_image(6, 60, Some(CoverProvider::OpenLibrary));
    assert!(t.id_exist(5));
    assert!(t.id_exist(6));
    assert!(!t.id_exist(7));
    assert!(!t.cover_exist(5));
    assert!(t.cover_exist(6));
    assert!(!t.cover_exist(7));
    assert_eq!(t.last_try(5), Some(50));
    assert_eq!(t.last_try(7), None);
}

#[test]
fn all_id_lists_every_row_once() {
    let mut t = RecordTable::new();
    t.update_table_image(3, 1, None);
    t.update_table_image(1, 2, None);
    t.update_table_image(2, 3, None);
    t.update_table_image(1, 4, None);
    let mut ids = t.all_id();
    ids.sort();
    assert_eq!(ids, vec![1, 2, 3]);
}

#[test]
fn retryable_listing_filters_provider_and_window() {
    let mut t = RecordTable::new();
    // Has a cover: never retryable.
    t.update_table_image(1, 0, Some(CoverProvider::OpenLibrary));
    // No cover, window elapsed.
    t.update_table_image(2, 1_000, None);
    // No cover, window not elapsed.
    t.update_table_image(3, 9_500, None);
    let v = t.all_id_missing_retrievable(600, 10_000);
    assert_eq!(v, vec![2]);
}
