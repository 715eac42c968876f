//! A verified model of the cover record store: a keyed table of
//! `Cover` rows, one per product id.
//!
//! The service keeps these records in an external database; every
//! query the logic makes of that database (row lookup, upsert,
//! listing ids, listing retryable ids) is implemented and verified
//! here over a plain table, so the orchestration above it can be
//! proved against exact store semantics.

use vstd::prelude::*;

use crate::cover::{eligible_spec, Cover};
use crate::provider::CoverProvider;

verus! {

/// No two rows share a product id.
pub open spec fn wf_rows(rows: Seq<Cover>) -> bool {
    forall|i: int, j: int| 0 <= i < j < rows.len() ==> rows[i].id != rows[j].id
}

/// Some row carries this product id.
pub open spec fn has_id(rows: Seq<Cover>, product_id: u32) -> bool {
    exists|i: int| 0 <= i < rows.len() && rows[i].id == product_id
}

/// The position of the row carrying this product id (meaningful only
/// under `has_id`; unique under `wf_rows`).
pub open spec fn row_index(rows: Seq<Cover>, product_id: u32) -> int {
    choose|i: int| 0 <= i < rows.len() && rows[i].id == product_id
}

/// The row stored for a product id, if any.
pub open spec fn get_spec(rows: Seq<Cover>, product_id: u32) -> Option<Cover> {
    if has_id(rows, product_id) {
        Some(rows[row_index(rows, product_id)])
    } else {
        None
    }
}

/// A product id recorded as attempted-but-never-succeeded whose retry
/// window has elapsed: exactly the records the eligibility gate would
/// let through again.
pub open spec fn retryable(rows: Seq<Cover>, product_id: u32, wait_try: u64, now: u64) -> bool {
    has_id(rows, product_id) && eligible_spec(get_spec(rows, product_id), wait_try, now)
}

/// Under uniqueness, a row found at any index is the row `get_spec`
/// speaks of.
pub proof fn lemma_get_spec_at(rows: Seq<Cover>, product_id: u32, i: int)
    requires
        wf_rows(rows),
        0 <= i < rows.len(),
        rows[i].id == product_id,
    ensures
        get_spec(rows, product_id) == Some(rows[i]),
{
    assert(has_id(rows, product_id));
    let j = row_index(rows, product_id);
    assert(0 <= j < rows.len() && rows[j].id == product_id);
    if i < j {
        assert(rows[i].id != rows[j].id);
    } else if j < i {
        assert(rows[j].id != rows[i].id);
    }
}

/// The table after an upsert of row `r`: the row keyed by `r.id` is
/// replaced in place when present, appended otherwise.
pub open spec fn upsert_spec(rows: Seq<Cover>, r: Cover) -> Seq<Cover> {
    if has_id(rows, r.id) {
        rows.map_values(
            |row: Cover|
                if row.id == r.id {
                    r
                } else {
                    row
                },
        )
    } else {
        rows.push(r)
    }
}

/// A table built row by row as the upsert loop does equals
/// `upsert_spec`, stays well formed, holds exactly the new row under
/// its key, and leaves every other key's row unchanged.
pub proof fn lemma_upsert_shape(old_rows: Seq<Cover>, r: Cover, new_rows: Seq<Cover>)
    requires
        wf_rows(old_rows),
        new_rows.len() == old_rows.len() + (if has_id(old_rows, r.id) {
            0int
        } else {
            1int
        }),
        forall|k: int|
            0 <= k < old_rows.len() ==> new_rows[k] == (if old_rows[k].id == r.id {
                r
            } else {
                old_rows[k]
            }),
        !has_id(old_rows, r.id) ==> new_rows[old_rows.len() as int] == r,
    ensures
        new_rows == upsert_spec(old_rows, r),
        wf_rows(new_rows),
        get_spec(new_rows, r.id) == Some(r),
        forall|other: u32|
            other != r.id ==> get_spec(new_rows, other) == get_spec(old_rows, other),
{
    let n = old_rows.len() as int;
    // Ids are preserved pointwise over the old range.
    assert forall|k: int| 0 <= k < n implies new_rows[k].id == old_rows[k].id by {
        if old_rows[k].id == r.id {
            assert(new_rows[k] == r);
        }
    }
    // Well-formedness of the new table.
    assert forall|i: int, j: int| 0 <= i < j < new_rows.len() implies new_rows[i].id
        != new_rows[j].id by {
        if j < n {
            assert(old_rows[i].id != old_rows[j].id);
        } else {
            // j is the appended row: its id occurs nowhere in old_rows.
            assert(!has_id(old_rows, r.id));
            assert(new_rows[j] == r);
            if new_rows[i].id == r.id {
                assert(old_rows[i].id == r.id);
                assert(has_id(old_rows, r.id));
            }
        }
    }
    // Equality with the spec-level upsert.
    if has_id(old_rows, r.id) {
        assert(new_rows =~= upsert_spec(old_rows, r));
    } else {
        assert forall|k: int| 0 <= k < n implies old_rows[k].id != r.id by {
            if old_rows[k].id == r.id {
                assert(has_id(old_rows, r.id));
            }
        }
        assert(new_rows =~= upsert_spec(old_rows, r));
    }
    // The new row stands under its key.
    if has_id(old_rows, r.id) {
        let j = row_index(old_rows, r.id);
        assert(0 <= j < n && old_rows[j].id == r.id);
        assert(new_rows[j] == r);
        lemma_get_spec_at(new_rows, r.id, j);
    } else {
        lemma_get_spec_at(new_rows, r.id, n);
    }
    // Every other key's row is unchanged.
    assert forall|other: u32| other != r.id implies get_spec(new_rows, other) == get_spec(
        old_rows,
        other,
    ) by {
        if has_id(old_rows, other) {
            let j = row_index(old_rows, other);
            assert(0 <= j < n && old_rows[j].id == other);
            assert(new_rows[j] == old_rows[j]);
            lemma_get_spec_at(old_rows, other, j);
            lemma_get_spec_at(new_rows, other, j);
        } else {
            assert forall|k: int| 0 <= k < n implies old_rows[k].id != other by {
                if old_rows[k].id == other {
                    assert(has_id(old_rows, other));
                }
            }
            if has_id(new_rows, other) {
                let j = row_index(new_rows, other);
                assert(0 <= j < new_rows.len() && new_rows[j].id == other);
                assert(false);
            }
        }
    }
}

/// The verified table of cover records.
pub struct RecordTable {
    pub rows: Vec<Cover>,
}

impl RecordTable {
    pub open spec fn wf(self) -> bool {
        wf_rows(self.rows@)
    }

    /// The empty store: no attempt has been recorded for any id.
    pub fn new() -> (t: RecordTable)
        ensures
            t.wf(),
            t.rows@.len() == 0,
    {
        RecordTable { rows: Vec::new() }
    }

    /// Row lookup by product id.
    pub fn get(&self, product_id: u32) -> (r: Option<Cover>)
        requires
            self.wf(),
        ensures
            r == get_spec(self.rows@, product_id),
    {
        let n = self.rows.len();
        let mut i: usize = 0;
        while i < n
            invariant
                n == self.rows@.len(),
                0 <= i <= n,
                self.wf(),
                forall|k: int| 0 <= k < i ==> self.rows@[k].id != product_id,
            decreases n - i,
        {
            if self.rows[i].id == product_id {
                proof {
                    lemma_get_spec_at(self.rows@, product_id, i as int);
                }
                return Some(self.rows[i]);
            }
            i = i + 1;
        }
        proof {
            if has_id(self.rows@, product_id) {
                let j = row_index(self.rows@, product_id);
                assert(0 <= j < self.rows@.len() && self.rows@[j].id == product_id);
                assert(false);
            }
        }
        None
    }

    /// Whether any attempt has ever been recorded for this id.
    pub fn id_exist(&self, product_id: u32) -> (b: bool)
        requires
            self.wf(),
        ensures
            b == has_id(self.rows@, product_id),
    {
        self.get(product_id).is_some()
    }

    /// Whether a cover already exists for this id (some attempt
    /// succeeded, or a manual upload was recorded).
    pub fn cover_exist(&self, product_id: u32) -> (b: bool)
        requires
            self.wf(),
        ensures
            b == match get_spec(self.rows@, product_id) {
                None => false,
                Some(c) => c.provider is Some,
            },
    {
        match self.get(product_id) {
            None => false,
            Some(c) => c.provider.is_some(),
        }
    }

    /// Record an acquisition attempt: upsert the row for `product_id`
    /// with `last_try = now` and the code of the provider that
    /// succeeded (`None` when no provider did, or on deletion).
    ///
    /// The row for `product_id` is created or overwritten; every other
    /// row is untouched. This is the single mutation the service ever
    /// makes to the store, and it is idempotent per id.
    pub fn update_table_image(&mut self, product_id: u32, now: u64, name_cp: Option<
        CoverProvider,
    >)
        requires
            old(self).wf(),
        ensures
            final(self).wf(),
            final(self).rows@ == upsert_spec(
                old(self).rows@,
                Cover {
                    id: product_id,
                    last_try: now,
                    provider: match name_cp {
                        None => None,
                        Some(p) => Some(p.code_spec()),
                    },
                },
            ),
            get_spec(final(self).rows@, product_id) == Some(
                Cover {
                    id: product_id,
                    last_try: now,
                    provider: match name_cp {
                        None => None,
                        Some(p) => Some(p.code_spec()),
                    },
                },
            ),
            forall|other: u32|
                other != product_id ==> get_spec(final(self).rows@, other) == get_spec(
                    old(self).rows@,
                    other,
                ),
            final(self).rows@.len() == old(self).rows@.len() + (if has_id(
                old(self).rows@,
                product_id,
            ) {
                0int
            } else {
                1int
            }),
    {
        let provider_code: Option<u8> = match name_cp {
            None => None,
            Some(p) => Some(p.code()),
        };
        let record = Cover { id: product_id, last_try: now, provider: provider_code };
        let ghost old_rows = self.rows@;
        let n = self.rows.len();
        let mut out: Vec<Cover> = Vec::new();
        let mut found = false;
        let mut i: usize = 0;
        while i < n
            invariant
                n == old_rows.len(),
                self.rows@ == old_rows,
                0 <= i <= n,
                out@.len() == i,
                record == (Cover { id: product_id, last_try: now, provider: provider_code }),
                forall|k: int|
                    0 <= k < i ==> out@[k] == (if old_rows[k].id == product_id {
                        record
                    } else {
                        old_rows[k]
                    }),
                found <==> exists|k: int| 0 <= k < i && old_rows[k].id == product_id,
            decreases n - i,
        {
            let c = self.rows[i];
            if c.id == product_id {
                out.push(record);
                found = true;
            } else {
                out.push(c);
            }
            i = i + 1;
        }
        if !found {
            out.push(record);
        }
        self.rows = out;
        proof {
            lemma_upsert_shape(old_rows, record, self.rows@);
        }
    }

    /// Every product id with a record, in row order, duplicate-free.
    pub fn all_id(&self) -> (v: Vec<u32>)
        requires
            self.wf(),
        ensures
            v@ == self.rows@.map_values(|c: Cover| c.id),
            forall|x: u32| v@.contains(x) <==> has_id(self.rows@, x),
            forall|i: int, j: int| 0 <= i < j < v@.len() ==> v@[i] != v@[j],
    {
        let n = self.rows.len();
        let mut v: Vec<u32> = Vec::new();
        let mut i: usize = 0;
        while i < n
            invariant
                n == self.rows@.len(),
                0 <= i <= n,
                self.wf(),
                v@ == self.rows@.subrange(0, i as int).map_values(|c: Cover| c.id),
            decreases n - i,
        {
            let ghost prefix = self.rows@.subrange(0, i as int);
            v.push(self.rows[i].id);
            proof {
                assert(self.rows@.subrange(0, i + 1) =~= prefix.push(self.rows@[i as int]));
                assert(v@ =~= self.rows@.subrange(0, i + 1).map_values(|c: Cover| c.id));
            }
            i = i + 1;
        }
        proof {
            assert(self.rows@.subrange(0, n as int) =~= self.rows@);
            assert forall|x: u32| v@.contains(x) <==> has_id(self.rows@, x) by {
                if v@.contains(x) {
                    let k = choose|k: int| 0 <= k < v@.len() && v@[k] == x;
                    assert(self.rows@[k].id == x);
                }
                if has_id(self.rows@, x) {
                    let k = row_index(self.rows@, x);
                    assert(v@[k] == x);
                }
            }
        }
        v
    }

    /// Every product id recorded as attempted but never succeeded whose
    /// retry window has elapsed at `now`: the ids that are eligible
    /// for another attempt. Duplicate-free.
    pub fn all_id_missing_retrievable(&self, wait_try: u64, now: u64) -> (v: Vec<u32>)
        requires
            self.wf(),
        ensures
            forall|x: u32| v@.contains(x) <==> retryable(self.rows@, x, wait_try, now),
            forall|i: int, j: int| 0 <= i < j < v@.len() ==> v@[i] != v@[j],
    {
        let n = self.rows.len();
        let mut v: Vec<u32> = Vec::new();
        let mut i: usize = 0;
        while i < n
            invariant
                n == self.rows@.len(),
                0 <= i <= n,
                self.wf(),
                forall|x: u32|
                    v@.contains(x) <==> exists|k: int|
                        0 <= k < i && self.rows@[k].id == x && self.rows@[k].provider is None
                            && self.rows@[k].last_try + wait_try <= now,
                forall|a: int, b: int| 0 <= a < b < v@.len() ==> v@[a] != v@[b],
            decreases n - i,
        {
            let c = self.rows[i];
            let eligible_row = c.provider.is_none() && now >= c.last_try && now - c.last_try
                >= wait_try;
            if eligible_row {
                let ghost prev = v@;
                proof {
                    // The id of row i cannot already be in v: rows are unique.
                    if prev.contains(c.id) {
                        let k = choose|k: int|
                            0 <= k < i && self.rows@[k].id == c.id && self.rows@[k].provider
                                is None && self.rows@[k].last_try + wait_try <= now;
                        assert(self.rows@[k].id != self.rows@[i as int].id);
                    }
                }
                v.push(c.id);
                proof {
                    assert forall|x: u32| v@.contains(x) <==> (prev.contains(x) || x == c.id) by {
                        if v@.contains(x) {
                            let k = choose|k: int| 0 <= k < v@.len() && v@[k] == x;
                            if k < prev.len() {
                                assert(prev[k] == x);
                            }
                        }
                        if prev.contains(x) {
                            let k = choose|k: int| 0 <= k < prev.len() && prev[k] == x;
                            assert(v@[k] == x);
                        }
                        if x == c.id {
                            assert(v@[v@.len() - 1] == x);
                        }
                    }
                    assert forall|x: u32|
                        v@.contains(x) <==> exists|k: int|
                            0 <= k < i + 1 && self.rows@[k].id == x && self.rows@[k].provider
                                is None && self.rows@[k].last_try + wait_try <= now by {
                        if v@.contains(x) {
                            if x == c.id {
                                assert(self.rows@[i as int].id == x && self.rows@[i as int].provider
                                    is None && self.rows@[i as int].last_try + wait_try <= now);
                            } else {
                                assert(prev.contains(x) || x == c.id);
                                assert(prev.contains(x));
                                assert(exists|k: int|
                                    0 <= k < i && self.rows@[k].id == x && self.rows@[k].provider
                                        is None && self.rows@[k].last_try + wait_try <= now);
                                let k = choose|k: int|
                                    0 <= k < i && self.rows@[k].id == x && self.rows@[k].provider
                                        is None && self.rows@[k].last_try + wait_try <= now;
                                assert(0 <= k < i + 1 && self.rows@[k].id == x);
                            }
                        }
                        if exists|k: int|
                            0 <= k < i + 1 && self.rows@[k].id == x && self.rows@[k].provider
                                is None && self.rows@[k].last_try + wait_try <= now {
                            let k = choose|k: int|
                                0 <= k < i + 1 && self.rows@[k].id == x && self.rows@[k].provider
                                    is None && self.rows@[k].last_try + wait_try <= now;
                            if k == i {
                                assert(x == c.id);
                            } else {
                                assert(prev.contains(x));
                            }
                            assert(v@.contains(x));
                        }
                    }
                }
            } else {
                proof {
                    assert forall|x: u32|
                        v@.contains(x) <==> exists|k: int|
                            0 <= k < i + 1 && self.rows@[k].id == x && self.rows@[k].provider
                                is None && self.rows@[k].last_try + wait_try <= now by {
                        if exists|k: int|
                            0 <= k < i + 1 && self.rows@[k].id == x && self.rows@[k].provider
                                is None && self.rows@[k].last_try + wait_try <= now {
                            let k = choose|k: int|
                                0 <= k < i + 1 && self.rows@[k].id == x && self.rows@[k].provider
                                    is None && self.rows@[k].last_try + wait_try <= now;
                            if k == i {
                                // Row i satisfies the spec conditions, so the
                                // executable test would have accepted it.
                                assert(c.provider is None);
                                assert(c.last_try + wait_try <= now);
                                assert(eligible_row);
                                assert(false);
                            }
                            assert(0 <= k < i && self.rows@[k].id == x && self.rows@[k].provider
                                is None && self.rows@[k].last_try + wait_try <= now);
                        }
                    }
                }
            }
            i = i + 1;
        }
        proof {
            assert forall|x: u32|
                v@.contains(x) <==> retryable(self.rows@, x, wait_try, now) by {
                if v@.contains(x) {
                    let k = choose|k: int|
                        0 <= k < n && self.rows@[k].id == x && self.rows@[k].provider is None
                            && self.rows@[k].last_try + wait_try <= now;
                    lemma_get_spec_at(self.rows@, x, k);
                }
                if retryable(self.rows@, x, wait_try, now) {
                    let k = row_index(self.rows@, x);
                    lemma_get_spec_at(self.rows@, x, k);
                    assert(0 <= k < n && self.rows@[k].id == x && self.rows@[k].provider is None
                        && self.rows@[k].last_try + wait_try <= now);
                }
            }
        }
        v
    }

    /// The timestamp of the most recent attempt for this id, if any.
    pub fn last_try(&self, product_id: u32) -> (r: Option<u64>)
        requires
            self.wf(),
        ensures
            r == match get_spec(self.rows@, product_id) {
                None => Option::<u64>::None,
                Some(c) => Some(c.last_try),
            },
    {
        match self.get(product_id) {
            None => None,
            Some(c) => Some(c.last_try),
        }
    }
}

} // verus!
