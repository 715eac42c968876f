//! The acquisition job: gate check, provider resolution and the
//! store effect of one attempt.
//!
//! The outside world enters only as plain values: the barcode the
//! catalog answered (or its absence) and the outcome of each
//! provider's fetch. Given those, everything the job decides and
//! writes is verified, for every possible answer.

use vstd::prelude::*;

use crate::cache::{update_cache_cover, CacheRequest};
use crate::cover::{
    cover_file_name_spec, eligible_spec, get_status_must_get_image, Cover, CoverSize,
    GateRejection,
};
use crate::image::delete_cover_files;
use crate::provider::CoverProvider;
use crate::store::{get_spec, upsert_spec, RecordTable};

verus! {

/// What one provider's fetch came back with: the cover's bytes, or a
/// failure (network error, not found, decode error), which the
/// resolution loop swallows.
#[derive(Clone, PartialEq, Eq, Debug)]
pub enum FetchOutcome {
    Image(Vec<u8>),
    Failed,
}

/// Walk the fetch outcomes in provider order and stop at the first
/// success.
///
/// Returns the index of the winning provider (`None` when every
/// provider failed) and how many providers were consulted: the winner,
/// if any, is the last one consulted — no outcome past it is looked
/// at, so "first success wins" is observable in the count.
pub fn resolve_providers(outcomes: &Vec<FetchOutcome>) -> (r: (Option<usize>, usize))
    ensures
        match r.0 {
            Some(k) => k < outcomes@.len() && outcomes@[k as int] is Image && r.1 == k + 1
                && (forall|j: int| 0 <= j < k ==> outcomes@[j] is Failed),
            None => r.1 == outcomes@.len() && (forall|j: int|
                0 <= j < outcomes@.len() ==> outcomes@[j] is Failed),
        },
{
    let n = outcomes.len();
    let mut i: usize = 0;
    while i < n
        invariant
            n == outcomes@.len(),
            0 <= i <= n,
            forall|j: int| 0 <= j < i ==> outcomes@[j] is Failed,
        decreases n - i,
    {
        match outcomes[i] {
            FetchOutcome::Image(_) => {
                return (Some(i), i + 1);
            },
            FetchOutcome::Failed => {
                i = i + 1;
            },
        }
    }
    (None, n)
}

/// Try the providers in order against their fetch outcomes, then
/// record the attempt: the row for `product_id` is upserted with
/// `last_try = now` and the winning provider's code, or `None` when no
/// provider succeeded. The upsert happens in either case — a fully
/// failed resolution is still a completed attempt, and advancing
/// `last_try` is what arms the retry window.
pub fn try_get_cover(
    table: &mut RecordTable,
    providers: &Vec<CoverProvider>,
    outcomes: &Vec<FetchOutcome>,
    product_id: u32,
    now: u64,
) -> (r: (Option<CoverProvider>, usize))
    requires
        old(table).wf(),
        providers@.len() == outcomes@.len(),
        forall|k: int| 0 <= k < providers@.len() ==> providers@[k].is_fetchable_spec(),
    ensures
        final(table).wf(),
        match r.0 {
            Some(p) => r.1 <= providers@.len() && 0 < r.1 && outcomes@[r.1 - 1] is Image && p
                == providers@[r.1 - 1] && (forall|j: int| 0 <= j < r.1 - 1 ==> outcomes@[j] is Failed),
            None => r.1 == providers@.len() && (forall|j: int|
                0 <= j < outcomes@.len() ==> outcomes@[j] is Failed),
        },
        final(table).rows@ == upsert_spec(
            old(table).rows@,
            Cover {
                id: product_id,
                last_try: now,
                provider: match r.0 {
                    Some(p) => Some(p.code_spec()),
                    None => None,
                },
            },
        ),
        get_spec(final(table).rows@, product_id) == Some(
            Cover {
                id: product_id,
                last_try: now,
                provider: match r.0 {
                    Some(p) => Some(p.code_spec()),
                    None => None,
                },
            },
        ),
        forall|other: u32|
            other != product_id ==> get_spec(final(table).rows@, other) == get_spec(
                old(table).rows@,
                other,
            ),
{
    let (winner_index, attempts) = resolve_providers(outcomes);
    let winner: Option<CoverProvider> = match winner_index {
        Some(k) => Some(providers[k]),
        None => None,
    };
    table.update_table_image(product_id, now, winner);
    (winner, attempts)
}

/// Record a manual cover upload: the uploaded bytes were already
/// written by the caller, so the store now carries the `Manual`
/// marker for the id and this attempt's timestamp. Emits the halfway
/// milestone, as the upload job does once the file is in place.
pub fn add_manual_cover(table: &mut RecordTable, product_id: u32, now: u64) -> (progress: Vec<u8>)
    requires
        old(table).wf(),
    ensures
        final(table).wf(),
        get_spec(final(table).rows@, product_id) == Some(
            Cover {
                id: product_id,
                last_try: now,
                provider: Some(CoverProvider::Manual.code_spec()),
            },
        ),
        forall|other: u32|
            other != product_id ==> get_spec(final(table).rows@, other) == get_spec(
                old(table).rows@,
                other,
            ),
        progress@ == seq![50u8],
{
    table.update_table_image(product_id, now, Some(CoverProvider::Manual));
    let mut progress: Vec<u8> = Vec::new();
    progress.push(50);
    proof {
        assert(progress@ =~= seq![50u8]);
    }
    progress
}

/// Delete a cover: the store's row for the id loses its provider
/// marker (the attempt timestamp advances to `now`, as every store
/// mutation does), and the caller receives the files to remove and
/// the cache invalidations to issue — one per size variant.
pub fn delete_cover(table: &mut RecordTable, product_id: u32, now: u64) -> (r: (
    Vec<String>,
    Vec<CacheRequest>,
))
    requires
        old(table).wf(),
    ensures
        final(table).wf(),
        get_spec(final(table).rows@, product_id) == Some(
            Cover { id: product_id, last_try: now, provider: None },
        ),
        forall|other: u32|
            other != product_id ==> get_spec(final(table).rows@, other) == get_spec(
                old(table).rows@,
                other,
            ),
        r.0@.len() == CoverSize::all_spec().len(),
        forall|i: int|
            0 <= i < r.0@.len() ==> r.0@[i]@ == cover_file_name_spec(
                product_id,
                CoverSize::all_spec()[i],
            ),
        r.1@.len() == CoverSize::all_spec().len(),
        forall|i: int|
            0 <= i < r.1@.len() ==> r.1@[i] == (CacheRequest {
                id: product_id,
                size: CoverSize::all_spec()[i],
            }),
{
    let files = delete_cover_files(product_id);
    table.update_table_image(product_id, now, None);
    let cache = update_cache_cover(product_id);
    (files, cache)
}

/// Why an acquisition job failed without touching the store.
#[derive(Clone, Copy, PartialEq, Eq, Structural, Debug)]
pub enum JobError {
    /// The eligibility gate said no; a normal negative decision.
    Ineligible(GateRejection),
    /// The product has no barcode; permanent, not retriable.
    UnsupportedProduct,
}

/// The store effect of one acquisition job: the row for `product_id`
/// is upserted with the attempt's timestamp and winner exactly when
/// eligibility held and the product had a barcode; on any
/// rejection the store is untouched.
pub open spec fn retrieve_cover_effect(
    rows: Seq<Cover>,
    product_id: u32,
    wait_retry: u64,
    now: u64,
    barcode_present: bool,
    winner_code: Option<u8>,
) -> Seq<Cover> {
    if eligible_spec(get_spec(rows, product_id), wait_retry, now) && barcode_present {
        upsert_spec(rows, Cover { id: product_id, last_try: now, provider: winner_code })
    } else {
        rows
    }
}

/// One acquisition job for one product id, with the outside world's
/// answers passed in as values: the barcode the catalog returned (or
/// `None` for a product without one) and each provider's fetch
/// outcome.
///
/// Mirrors the order of the job's milestones: gate check first (a
/// rejection mutates nothing and emits no progress), then the barcode
/// requirement (same), then the halfway progress milestone, then
/// resolution and the unconditional upsert. The returned vector holds
/// the progress values emitted, in order.
pub fn retrieve_cover(
    table: &mut RecordTable,
    product_id: u32,
    wait_retry: u64,
    now: u64,
    barcode: &Option<String>,
    providers: &Vec<CoverProvider>,
    outcomes: &Vec<FetchOutcome>,
) -> (r: (Result<Option<CoverProvider>, JobError>, Vec<u8>))
    requires
        old(table).wf(),
        providers@.len() == outcomes@.len(),
        forall|k: int| 0 <= k < providers@.len() ==> providers@[k].is_fetchable_spec(),
    ensures
        final(table).wf(),
        final(table).rows@ == retrieve_cover_effect(
            old(table).rows@,
            product_id,
            wait_retry,
            now,
            barcode is Some,
            match r.0 {
                Ok(Some(p)) => Some(p.code_spec()),
                _ => None,
            },
        ),
        // The job succeeds exactly when eligibility holds and the
        // product has a barcode; each failure names its reason.
        match r.0 {
            Ok(_) => eligible_spec(get_spec(old(table).rows@, product_id), wait_retry, now)
                && barcode is Some,
            Err(JobError::Ineligible(why)) => !eligible_spec(
                get_spec(old(table).rows@, product_id),
                wait_retry,
                now,
            ) && get_status_must_get_image_rejects(
                get_spec(old(table).rows@, product_id),
                wait_retry,
                now,
                why,
            ),
            Err(JobError::UnsupportedProduct) => eligible_spec(
                get_spec(old(table).rows@, product_id),
                wait_retry,
                now,
            ) && barcode is None,
        },
        // On rejection the store is untouched and no progress was sent.
        r.0 is Err ==> *final(table) == *old(table) && r.1@ == Seq::<u8>::empty(),
        // Once eligibility holds, the halfway milestone is the one
        // progress value emitted, and the attempt is recorded: the row
        // now carries this attempt's timestamp and the winner, if any.
        match r.0 {
            Ok(winner) => r.1@ == seq![50u8] && get_spec(final(table).rows@, product_id) == Some(
                Cover {
                    id: product_id,
                    last_try: now,
                    provider: match winner {
                        Some(p) => Some(p.code_spec()),
                        None => None,
                    },
                },
            ) && (forall|j: int| 0 <= j < outcomes@.len() ==> outcomes@[j] is Failed)
                == (winner is None),
            Err(_) => true,
        },
        forall|other: u32|
            other != product_id ==> get_spec(final(table).rows@, other) == get_spec(
                old(table).rows@,
                other,
            ),
{
    let record = table.get(product_id);
    let mut progress: Vec<u8> = Vec::new();
    if let Err(why) = get_status_must_get_image(record.as_ref(), wait_retry, now) {
        return (Err(JobError::Ineligible(why)), progress);
    }
    if barcode.is_none() {
        return (Err(JobError::UnsupportedProduct), progress);
    }
    // Conditions to get the cover are met: the halfway milestone.
    progress.push(50);
    let (winner, _attempts) = try_get_cover(table, providers, outcomes, product_id, now);
    (Ok(winner), progress)
}

/// The rejection reason owed for this record: "cover already
/// exists" whenever a provider is recorded, else "retry window not yet
/// elapsed".
pub open spec fn get_status_must_get_image_rejects(
    record: Option<Cover>,
    wait_retry: u64,
    now: u64,
    why: GateRejection,
) -> bool {
    match record {
        None => false,
        Some(c) => if c.provider is Some {
            why == GateRejection::CoverExists
        } else {
            why == GateRejection::RetryNotElapsed
        },
    }
}

/// Repeated rejected attempts are idempotent on the store: a job the
/// gate rejects leaves the table exactly as it was, so running it any
/// second time changes nothing either — no mutation at all happens on
/// rejection.
pub proof fn lemma_rejected_job_idempotent(
    rows: Seq<Cover>,
    product_id: u32,
    wait_retry: u64,
    now: u64,
    barcode_present: bool,
    winner_first: Option<u8>,
    winner_second: Option<u8>,
)
    requires
        !eligible_spec(get_spec(rows, product_id), wait_retry, now),
    ensures
        retrieve_cover_effect(rows, product_id, wait_retry, now, barcode_present, winner_first)
            == rows,
        retrieve_cover_effect(
            retrieve_cover_effect(rows, product_id, wait_retry, now, barcode_present, winner_first),
            product_id,
            wait_retry,
            now,
            barcode_present,
            winner_second,
        ) == rows,
{
}

} // verus!
