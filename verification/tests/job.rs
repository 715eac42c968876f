use covers_api::cover::Cover;
use covers_api::job::{
    add_manual_cover, delete_cover, resolve_providers, retrieve_cover, try_get_cover,
    FetchOutcome, JobError,
};
use covers_api::provider::CoverProvider;
use covers_api::store::RecordTable;

const HOUR: u64 = 3600;

#[test]
fn resolver_takes_first_success_and_stops() {
    // Providers in order: fails, succeeds, would succeed. The second
    // wins with its own bytes, and the third is never consulted.
    let outcomes = vec![
        FetchOutcome::Failed,
        FetchOutcome::Image(b"from B".to_vec()),
        FetchOutcome::Image(b"from C".to_vec()),
    ];
    let (winner, attempts) = resolve_providers(&outcomes);
    assert_eq!(winner, Some(1));
    assert_eq!(attempts, 2);
}

#[test]
fn resolver_exhausts_all_failures() {
    let outcomes = vec![FetchOutcome::Failed, FetchOutcome::Failed];
    let (winner, attempts) = resolve_providers(&outcomes);
    assert_eq!(winner, None);
    assert_eq!(attempts, 2);
}

#[test]
fn try_get_cover_records_winner() {
    let mut t = RecordTable::new();
    let providers = vec![CoverProvider::OpenLibrary];
    let outcomes = vec![FetchOutcome::Image(b"img".to_vec())];
    let (winner, attempts) = try_get_cover(&mut t, &providers, &outcomes, 11, 500);
    assert_eq!(winner, Some(CoverProvider::OpenLibrary));
    assert_eq!(attempts, 1);
    assert_eq!(t.get(11), Some(Cover { id: 11, last_try: 500, provider: Some(0) }));
}

#[test]
fn try_get_cover_records_total_failure() {
    // "No provider succeeded" is still a completed attempt: the row is
    // written with no provider, arming the retry window.
    let mut t = RecordTable::new();
    let providers = vec![CoverProvider::OpenLibrary];
    let outcomes = vec![FetchOutcome::Failed];
    let (winner, _attempts) = try_get_cover(&mut t, &providers, &outcomes, 11, 500);
    assert_eq!(winner, None);
    assert_eq!(t.get(11), Some(Cover { id: 11, last_try: 500, provider: None }));
}

#[test]
fn acquisition_success_records_provider_and_time() {
    let mut t = RecordTable::new();
    let providers = vec![CoverProvider::OpenLibrary];
    let outcomes = vec![FetchOutcome::Image(b"img".to_vec())];
    let barcode = Some(String::from("9780000000001"));
    let now = 42_000;
    let (result, progress) =
        retrieve_cover(&mut t, 5, HOUR, now, &barcode, &providers, &outcomes);
    assert_eq!(result, Ok(Some(CoverProvider::OpenLibrary)));
    assert_eq!(progress, vec![50]);
    assert_eq!(t.get(5), Some(Cover { id: 5, last_try: now, provider: Some(0) }));
}

#[test]
fn acquisition_without_barcode_is_unsupported() {
    let mut t = RecordTable::new();
    let providers = vec![CoverProvider::OpenLibrary];
    let outcomes = vec![FetchOutcome::Image(b"img".to_vec())];
    let (result, progress) = retrieve_cover(&mut t, 5, HOUR, 42_000, &None, &providers, &outcomes);
    assert_eq!(result, Err(JobError::UnsupportedProduct));
    assert!(progress.is_empty());
    assert_eq!(t.get(5), None);
}

#[test]
fn rejected_acquisition_never_mutates_twice() {
    // An ineligible id: the job mutates nothing, the first time and
    // the second time alike.
    let mut t = RecordTable::new();
    t.update_table_image(9, 1_000, Some(CoverProvider::Manual));
    let providers = vec![CoverProvider::OpenLibrary];
    let outcomes = vec![FetchOutcome::Image(b"img".to_vec())];
    let barcode = Some(String::from("9780000000001"));
    let before = t.get(9);
    let before_ids = t.all_id();

    let (first, progress1) =
        retrieve_cover(&mut t, 9, HOUR, 2_000, &barcode, &providers, &outcomes);
    assert!(matches!(first, Err(JobError::Ineligible(_))));
    assert!(progress1.is_empty());
    assert_eq!(t.get(9), before);
    assert_eq!(t.all_id(), before_ids);

    let (second, progress2) =
        retrieve_cover(&mut t, 9, HOUR, 2_000, &barcode, &providers, &outcomes);
    assert_eq!(first, second);
    assert!(progress2.is_empty());
    assert_eq!(t.get(9), before);
    assert_eq!(t.all_id(), before_ids);
}

#[test]
fn manual_cover_is_recorded_with_marker() {
    let mut t = RecordTable::new();
    let progress = add_manual_cover(&mut t, 4, 777);
    assert_eq!(progress, vec![50]);
    assert_eq!(t.get(4), Some(Cover { id: 4, last_try: 777, provider: Some(1) }));
}

#[test]
fn delete_clears_marker_and_plans_cleanup() {
    let mut t = RecordTable::new();
    add_manual_cover(&mut t, 7, 100);
    let (files, cache) = delete_cover(&mut t, 7, 200);
    // The store record's provider marker is cleared.
    assert_eq!(t.get(7), Some(Cover { id: 7, last_try: 200, provider: None }));
    // Every size-variant file is removed.
    assert_eq!(files, vec!["7-L.webp", "7-M.webp", "7-S.webp"]);
    // And the cache is invalidated for all three variants.
    assert_eq!(cache.len(), 3);
    for req in &cache {
        assert_eq!(req.id, 7);
    }
}
