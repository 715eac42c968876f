//! Cover records, size variants and the eligibility gate.
//!
//! A cover record exists for a product id iff at least one acquisition
//! attempt has been made for it; `provider` is `Some` only when an
//! attempt succeeded (or the cover was uploaded manually). Timestamps
//! are UTC seconds; the retry window is a duration in seconds.

use vstd::prelude::*;
use vstd::string::StringExecFns;

use crate::numfmt::{dec_rep, u32_to_string};

verus! {

/// The fixed raster variants a cover is stored in.
#[derive(Clone, Copy, PartialEq, Eq, Structural, Debug)]
pub enum CoverSize {
    Large,
    Medium,
    Small,
}

impl CoverSize {
    /// The single-letter tag used in file names and cache paths.
    pub fn letter(&self) -> (s: &'static str)
        ensures
            s@ == self.letter_spec(),
    {
        proof {
            reveal_strlit("L");
            reveal_strlit("M");
            reveal_strlit("S");
        }
        match self {
            CoverSize::Large => "L",
            CoverSize::Medium => "M",
            CoverSize::Small => "S",
        }
    }

    pub open spec fn letter_spec(self) -> Seq<char> {
        match self {
            CoverSize::Large => seq!['L'],
            CoverSize::Medium => seq!['M'],
            CoverSize::Small => seq!['S'],
        }
    }

    /// All size variants, in the fixed order large, medium, small.
    pub fn all() -> (v: Vec<CoverSize>)
        ensures
            v@ == Self::all_spec(),
    {
        let mut v: Vec<CoverSize> = Vec::new();
        v.push(CoverSize::Large);
        v.push(CoverSize::Medium);
        v.push(CoverSize::Small);
        proof {
            assert(v@ =~= Self::all_spec());
        }
        v
    }

    pub open spec fn all_spec() -> Seq<CoverSize> {
        seq![CoverSize::Large, CoverSize::Medium, CoverSize::Small]
    }
}

/// The on-disk name of a cover variant, by the fixed naming
/// convention: the id in decimal, a dash, the variant letter, and the
/// image format's extension.
pub open spec fn cover_file_name_spec(product_id: u32, size: CoverSize) -> Seq<char> {
    dec_rep(product_id as int) + "-"@ + size.letter_spec() + ".webp"@
}

/// Build the file name a cover variant is served from.
pub fn cover_file_name(product_id: u32, size: CoverSize) -> (name: String)
    ensures
        name@ == cover_file_name_spec(product_id, size),
{
    let mut name = u32_to_string(product_id);
    name.append("-");
    name.append(size.letter());
    name.append(".webp");
    proof {
        assert(name@ =~= cover_file_name_spec(product_id, size));
    }
    name
}

/// The placeholder file served for a size when a product has no
/// cover.
pub open spec fn default_cover_file_name_spec(size: CoverSize) -> Seq<char> {
    "cover-default-"@ + size.letter_spec() + ".webp"@
}

/// Build the placeholder file name for a size.
pub fn default_cover_file_name(size: CoverSize) -> (name: String)
    ensures
        name@ == default_cover_file_name_spec(size),
{
    let mut name = String::new();
    name.append("cover-default-");
    name.append(size.letter());
    name.append(".webp");
    proof {
        assert(name@ =~= default_cover_file_name_spec(size));
    }
    name
}

/// One row of the cover record store: the most recent attempt for a
/// product id and, when an attempt succeeded, which provider supplied
/// the cover (`provider` holds the provider's code).
#[derive(Clone, Copy, PartialEq, Eq, Structural, Debug)]
pub struct Cover {
    pub id: u32,
    /// UTC seconds of the most recent acquisition attempt.
    pub last_try: u64,
    /// Code of the provider that last succeeded, or `None` when no
    /// attempt has ever succeeded.
    pub provider: Option<u8>,
}

/// Why the eligibility gate rejected a fetch.
#[derive(Clone, Copy, PartialEq, Eq, Structural, Debug)]
pub enum GateRejection {
    /// A cover already exists for this product.
    CoverExists,
    /// The retry window since the last failed attempt has not elapsed.
    RetryNotElapsed,
}

/// A fetch may proceed iff no record exists, or the record marks no
/// successful attempt and the retry window has elapsed (the boundary
/// instant counts as elapsed).
pub open spec fn eligible_spec(record: Option<Cover>, wait_retry: u64, now: u64) -> bool {
    match record {
        None => true,
        Some(r) => r.provider is None && r.last_try + wait_retry <= now,
    }
}

/// The eligibility gate: a read-only decision over the current record.
///
/// Rejects with `CoverExists` whenever a provider is recorded, whatever
/// the age of the last attempt; rejects with `RetryNotElapsed` when no
/// provider is recorded but not enough time has passed; eligible
/// otherwise, in particular when no record exists at all. "Elapsed"
/// means `now - last_try >= wait_retry`, inclusively at the boundary.
pub fn get_status_must_get_image(record: Option<&Cover>, wait_retry: u64, now: u64) -> (r: Result<
    (),
    GateRejection,
>)
    ensures
        r is Ok <==> eligible_spec(deep_option(record), wait_retry, now),
        match deep_option(record) {
            None => r is Ok,
            Some(c) => if c.provider is Some {
                r == Result::<(), GateRejection>::Err(GateRejection::CoverExists)
            } else if c.last_try + wait_retry > now {
                r == Result::<(), GateRejection>::Err(GateRejection::RetryNotElapsed)
            } else {
                r is Ok
            },
        },
{
    match record {
        None => Ok(()),
        Some(c) => {
            if c.provider.is_some() {
                Err(GateRejection::CoverExists)
            } else if now >= c.last_try && now - c.last_try >= wait_retry {
                Ok(())
            } else {
                Err(GateRejection::RetryNotElapsed)
            }
        },
    }
}

/// A record whose provider marker is set is never eligible for a
/// re-fetch, whatever the age of its last attempt.
pub proof fn lemma_existing_cover_never_eligible(c: Cover, wait_retry: u64, now: u64)
    requires
        c.provider is Some,
    ensures
        !eligible_spec(Some(c), wait_retry, now),
{
}

/// For a record without a provider marker, eligibility is exactly
/// "the retry window has elapsed", and the boundary instant itself is
/// eligible.
pub proof fn lemma_retry_window_boundary(c: Cover, wait_retry: u64, now: u64)
    requires
        c.provider is None,
    ensures
        eligible_spec(Some(c), wait_retry, now) <==> c.last_try + wait_retry <= now,
        now == c.last_try + wait_retry ==> eligible_spec(Some(c), wait_retry, now),
{
}

/// The record behind an `Option<&Cover>`, as a plain value.
pub open spec fn deep_option(record: Option<&Cover>) -> Option<Cover> {
    match record {
        None => None,
        Some(c) => Some(*c),
    }
}

} // verus!
