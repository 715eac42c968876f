//! The missing-cover scanner: the worklist for a bulk acquisition
//! pass, and the batch driver with its aggregate progress arithmetic.

use vstd::prelude::*;

use crate::job::{retrieve_cover, FetchOutcome};
use crate::provider::CoverProvider;
use crate::store::{has_id, retryable, RecordTable};

verus! {

broadcast use vstd::seq_lib::lemma_seq_contains_after_push;

/// The bulk worklist: ids the catalog knows and the store has never
/// seen (never attempted), together with ids the store records as
/// attempted-but-never-succeeded whose retry window has elapsed.
/// A set union, duplicate-free by construction.
pub fn get_missing_id(catalog: &Vec<u32>, table: &RecordTable, wait_try: u64, now: u64) -> (v: Vec<
    u32,
>)
    requires
        table.wf(),
        forall|i: int, j: int| 0 <= i < j < catalog@.len() ==> catalog@[i] != catalog@[j],
    ensures
        forall|x: u32|
            v@.contains(x) <==> ((catalog@.contains(x) && !has_id(table.rows@, x)) || retryable(
                table.rows@,
                x,
                wait_try,
                now,
            )),
        forall|i: int, j: int| 0 <= i < j < v@.len() ==> v@[i] != v@[j],
{
    let n = catalog.len();
    let mut v: Vec<u32> = Vec::new();
    let mut i: usize = 0;
    // Ids known to the catalog with no record at all.
    while i < n
        invariant
            n == catalog@.len(),
            0 <= i <= n,
            table.wf(),
            forall|a: int, b: int| 0 <= a < b < catalog@.len() ==> catalog@[a] != catalog@[b],
            forall|x: u32|
                v@.contains(x) <==> (catalog@.subrange(0, i as int).contains(x) && !has_id(
                    table.rows@,
                    x,
                )),
            forall|a: int, b: int| 0 <= a < b < v@.len() ==> v@[a] != v@[b],
        decreases n - i,
    {
        let ghost prefix = catalog@.subrange(0, i as int);
        let candidate = catalog[i];
        proof {
            assert(catalog@.subrange(0, i + 1) =~= prefix.push(catalog@[i as int]));
            // The candidate is new to the prefix: the catalog is
            // duplicate-free.
            if prefix.contains(candidate) {
                let k = choose|k: int| 0 <= k < prefix.len() && prefix[k] == candidate;
                assert(catalog@[k] == catalog@[i as int]);
            }
        }
        if !table.id_exist(candidate) {
            proof {
                if v@.contains(candidate) {
                    assert(prefix.contains(candidate));
                }
            }
            v.push(candidate);
        }
        i = i + 1;
    }
    proof {
        assert(catalog@.subrange(0, n as int) =~= catalog@);
    }
    // Ids with a record but no cover, whose retry window has elapsed.
    let retrievable = table.all_id_missing_retrievable(wait_try, now);
    let m = retrievable.len();
    let ghost part_one = v@;
    let mut j: usize = 0;
    while j < m
        invariant
            m == retrievable@.len(),
            0 <= j <= m,
            table.wf(),
            forall|x: u32|
                retrievable@.contains(x) <==> retryable(table.rows@, x, wait_try, now),
            forall|a: int, b: int|
                0 <= a < b < retrievable@.len() ==> retrievable@[a] != retrievable@[b],
            forall|x: u32|
                part_one.contains(x) <==> (catalog@.contains(x) && !has_id(table.rows@, x)),
            forall|x: u32|
                v@.contains(x) <==> (part_one.contains(x) || retrievable@.subrange(
                    0,
                    j as int,
                ).contains(x)),
            forall|a: int, b: int| 0 <= a < b < v@.len() ==> v@[a] != v@[b],
        decreases m - j,
    {
        let ghost rprefix = retrievable@.subrange(0, j as int);
        let ghost prev_v = v@;
        let candidate = retrievable[j];
        proof {
            assert(forall|x: u32|
                prev_v.contains(x) <==> (part_one.contains(x) || rprefix.contains(x)));
            assert(retrievable@[j as int] == candidate);
            // The candidate has a record (it is retryable), so it is not
            // in the never-attempted part; and it is new to the prefix.
            assert(retrievable@.contains(candidate));
            if rprefix.contains(candidate) {
                let k = choose|k: int| 0 <= k < rprefix.len() && rprefix[k] == candidate;
                assert(retrievable@[k] == retrievable@[j as int]);
            }
            if prev_v.contains(candidate) {
                assert(part_one.contains(candidate) || rprefix.contains(candidate));
                assert(retryable(table.rows@, candidate, wait_try, now));
                assert(!part_one.contains(candidate));
                assert(false);
            }
        }
        v.push(candidate);
        proof {
            let new_prefix = retrievable@.subrange(0, j + 1);
            assert(new_prefix =~= rprefix.push(candidate));
            assert(v@ == prev_v.push(candidate));
            assert forall|x: u32|
                v@.contains(x) <==> (part_one.contains(x) || new_prefix.contains(x)) by {
                assert(prev_v.push(candidate).contains(x) <==> (candidate == x
                    || prev_v.contains(x)));
                assert(rprefix.push(candidate).contains(x) <==> (candidate == x
                    || rprefix.contains(x)));
                assert(prev_v.contains(x) <==> (part_one.contains(x) || rprefix.contains(x)));
            }
        }
        j = j + 1;
    }
    proof {
        assert(j == m);
        assert(retrievable@.subrange(0, j as int) =~= retrievable@);
        assert(forall|x: u32|
            v@.contains(x) <==> (part_one.contains(x) || retrievable@.subrange(
                0,
                j as int,
            ).contains(x)));
        assert forall|x: u32|
            v@.contains(x) <==> ((catalog@.contains(x) && !has_id(table.rows@, x)) || retryable(
                table.rows@,
                x,
                wait_try,
                now,
            )) by {
            assert(v@.contains(x) <==> (part_one.contains(x) || retrievable@.subrange(
                0,
                j as int,
            ).contains(x)));
            assert(part_one.contains(x) <==> (catalog@.contains(x) && !has_id(table.rows@, x)));
            assert(retrievable@.contains(x) <==> retryable(table.rows@, x, wait_try, now));
        }
    }
    v
}

/// Aggregate batch progress: the fraction of ids processed so far,
/// scaled to percent. The division happens after the scaling, so the
/// value is proportional, not truncated to zero.
pub open spec fn progress_spec(nb: int, count: int) -> int {
    nb * 100 / count
}

/// `nb` of `count` ids processed, as a percentage in `[0, 100]`;
/// exactly 100 once every id has been processed.
pub fn progress_percent(nb: usize, count: usize) -> (p: u8)
    requires
        0 < count,
        nb <= count,
    ensures
        p == progress_spec(nb as int, count as int),
        p <= 100,
        nb == count ==> p == 100,
{
    let wide: u128 = ((nb as u128) * 100) / (count as u128);
    proof {
        lemma_progress_spec_bounds(nb as int, count as int);
    }
    wide as u8
}

/// The progress percentage is well defined: at most 100, exactly 100
/// at the end, never negative.
pub proof fn lemma_progress_spec_bounds(nb: int, count: int)
    requires
        0 < count,
        0 <= nb <= count,
    ensures
        0 <= progress_spec(nb, count) <= 100,
        nb == count ==> progress_spec(nb, count) == 100,
{
    vstd::arithmetic::mul::lemma_mul_inequality(nb, count, 100);
    vstd::arithmetic::div_mod::lemma_div_is_ordered(nb * 100, count * 100, count);
    vstd::arithmetic::div_mod::lemma_div_multiples_vanish(100, count);
    vstd::arithmetic::div_mod::lemma_div_pos_is_pos(nb * 100, count);
    vstd::arithmetic::mul::lemma_mul_nonnegative(nb, 100);
}

/// Aggregate progress never moves backwards: processing more ids can
/// only raise the percentage.
pub proof fn lemma_progress_monotone(a: int, b: int, count: int)
    requires
        0 < count,
        0 <= a <= b,
    ensures
        progress_spec(a, count) <= progress_spec(b, count),
{
    vstd::arithmetic::mul::lemma_mul_inequality(a, b, 100);
    vstd::arithmetic::div_mod::lemma_div_is_ordered(a * 100, b * 100, count);
}

/// The outside answers one id's acquisition needs: the barcode the
/// catalog returned for it, and each provider's fetch outcome.
pub struct JobInputs {
    pub barcode: Option<String>,
    pub outcomes: Vec<FetchOutcome>,
}

/// Drive the worklist sequentially: one acquisition job per id, each
/// awaited before the next, with aggregate progress reported after
/// every id as the fraction of ids processed so far.
///
/// A single id's failure does not abort the batch; whatever mix of
/// per-id successes and failures the inputs produce, the reported
/// percentages never decrease and end at exactly 100.
pub fn run_batch(
    table: &mut RecordTable,
    providers: &Vec<CoverProvider>,
    ids: &Vec<u32>,
    inputs: &Vec<JobInputs>,
    wait_retry: u64,
    now: u64,
) -> (reports: Vec<u8>)
    requires
        old(table).wf(),
        inputs@.len() == ids@.len(),
        forall|k: int| 0 <= k < providers@.len() ==> providers@[k].is_fetchable_spec(),
        forall|k: int|
            0 <= k < inputs@.len() ==> inputs@[k].outcomes@.len() == providers@.len(),
    ensures
        final(table).wf(),
        reports@.len() == ids@.len(),
        forall|i: int|
            0 <= i < reports@.len() ==> reports@[i] == progress_spec(i + 1, ids@.len() as int),
        forall|i: int, j: int| 0 <= i <= j < reports@.len() ==> reports@[i] <= reports@[j],
        ids@.len() > 0 ==> reports@[reports@.len() - 1] == 100,
{
    let total = ids.len();
    let mut reports: Vec<u8> = Vec::new();
    let mut idx: usize = 0;
    while idx < total
        invariant
            total == ids@.len(),
            inputs@.len() == ids@.len(),
            0 <= idx <= total,
            table.wf(),
            forall|k: int| 0 <= k < providers@.len() ==> providers@[k].is_fetchable_spec(),
            forall|k: int|
                0 <= k < inputs@.len() ==> inputs@[k].outcomes@.len() == providers@.len(),
            reports@.len() == idx,
            forall|i: int|
                0 <= i < reports@.len() ==> reports@[i] == progress_spec(i + 1, total as int),
        decreases total - idx,
    {
        let input = &inputs[idx];
        // A failed job is isolated: the result is not allowed to stop
        // the batch.
        let (_outcome, _unit_progress) = retrieve_cover(
            table,
            ids[idx],
            wait_retry,
            now,
            &input.barcode,
            providers,
            &input.outcomes,
        );
        reports.push(progress_percent(idx + 1, total));
        idx = idx + 1;
    }
    proof {
        assert forall|i: int, j: int|
            0 <= i <= j < reports@.len() implies reports@[i] <= reports@[j] by {
            lemma_progress_monotone(i + 1, j + 1, total as int);
        }
        if total > 0 {
            lemma_progress_spec_bounds(total as int, total as int);
        }
    }
    reports
}

} // verus!
