use covers_api::job::FetchOutcome;
use covers_api::provider::CoverProvider;
use covers_api::scanner::{get_missing_id, progress_percent, run_batch, JobInputs};
use covers_api::store::RecordTable;

const HOUR: u64 = 3600;

#[test]
fn worklist_is_the_set_union() {
    // Catalog {1,2,3,4}; store: 1 has a cover, 2 attempted two hours
    // ago without success; window one hour. Worklist = {3,4} U {2}.
    let mut t = RecordTable::new();
    let now = 10 * HOUR;
    t.update_table_image(1, now - HOUR, Some(CoverProvider::OpenLibrary));
    t.update_table_image(2, now - 2 * HOUR, None);
    let catalog = vec![1, 2, 3, 4];
    let mut work = get_missing_id(&catalog, &t, HOUR, now);
    work.sort();
    assert_eq!(work, vec![2, 3, 4]);
}

#[test]
fn worklist_excludes_unelapsed_and_unknown() {
    let mut t = RecordTable::new();
    let now = 10 * HOUR;
    // Attempted recently: inside the window, not retryable yet.
    t.update_table_image(2, now - HOUR / 2, None);
    // Recorded id the catalog no longer lists: still retryable.
    t.update_table_image(9, now - 2 * HOUR, None);
    let catalog = vec![1, 2];
    let mut work = get_missing_id(&catalog, &t, HOUR, now);
    work.sort();
    assert_eq!(work, vec![1, 9]);
}

#[test]
fn progress_is_proportional() {
    assert_eq!(progress_percent(1, 3), 33);
    assert_eq!(progress_percent(2, 3), 66);
    assert_eq!(progress_percent(3, 3), 100);
    assert_eq!(progress_percent(1, 4), 25);
    assert_eq!(progress_percent(0, 7), 0);
    // Large batches truncate per step but never to more than the
    // true fraction, and never regress.
    assert_eq!(progress_percent(1, 200), 0);
    assert_eq!(progress_percent(199, 200), 99);
    assert_eq!(progress_percent(200, 200), 100);
}

#[test]
fn batch_reports_climb_to_one_hundred() {
    // Four ids, a mix of success and failure: one succeeds, one has
    // no barcode, one is ineligible, one finds no image. Progress
    // still climbs 25, 50, 75, 100.
    let mut t = RecordTable::new();
    t.update_table_image(3, 0, Some(CoverProvider::Manual));
    let providers = vec![CoverProvider::OpenLibrary];
    let ids = vec![1, 2, 3, 4];
    let inputs = vec![
        JobInputs {
            barcode: Some(String::from("9780000000001")),
            outcomes: vec![FetchOutcome::Image(b"img".to_vec())],
        },
        JobInputs { barcode: None, outcomes: vec![FetchOutcome::Failed] },
        JobInputs {
            barcode: Some(String::from("9780000000002")),
            outcomes: vec![FetchOutcome::Failed],
        },
        JobInputs {
            barcode: Some(String::from("9780000000003")),
            outcomes: vec![FetchOutcome::Failed],
        },
    ];
    let reports = run_batch(&mut t, &providers, &ids, &inputs, HOUR, 50_000);
    assert_eq!(reports, vec![25, 50, 75, 100]);
    // The successful id carries its provider; the exhausted one a
    // bare attempt; the ineligible one is untouched.
    assert_eq!(t.get(1).unwrap().provider, Some(0));
    assert_eq!(t.get(2), None);
    assert_eq!(t.get(3).unwrap().last_try, 0);
    assert_eq!(t.get(4).unwrap().provider, None);
}

#[test]
fn empty_batch_reports_nothing() {
    let mut t = RecordTable::new();
    let providers = vec![CoverProvider::OpenLibrary];
    let reports = run_batch(&mut t, &providers, &vec![], &vec![], HOUR, 50_000);
    assert!(reports.is_empty());
}
