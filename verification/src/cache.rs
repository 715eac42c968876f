//! The cache invalidation trigger: after a record mutation, the edge
//! cache must be told to drop every size variant of the cover.

use vstd::prelude::*;
use vstd::string::StringExecFns;

use crate::cover::CoverSize;
use crate::numfmt::{dec_rep, u32_to_string};

verus! {

/// One path-based invalidation request against the edge cache.
#[derive(Clone, PartialEq, Eq, Debug)]
pub struct CacheRequest {
    pub id: u32,
    pub size: CoverSize,
}

/// The cache path for one cover variant, relative to the cache API's
/// base address.
pub open spec fn cache_invalidation_path_spec(product_id: u32, size: CoverSize) -> Seq<char> {
    "/api/1/cache/path/"@ + dec_rep(product_id as int) + "/cover-"@ + size.letter_spec()
}

/// Build the invalidation path for one cover variant.
pub fn cache_invalidation_path(product_id: u32, size: CoverSize) -> (p: String)
    ensures
        p@ == cache_invalidation_path_spec(product_id, size),
{
    let mut p = String::new();
    p.append("/api/1/cache/path/");
    let id_str = u32_to_string(product_id);
    p.append(id_str.as_str());
    p.append("/cover-");
    p.append(size.letter());
    proof {
        assert(p@ =~= cache_invalidation_path_spec(product_id, size));
    }
    p
}

/// The invalidation plan after a mutation of one cover record:
/// exactly one request per defined size variant, in the fixed variant
/// order, all for the mutated id.
pub fn update_cache_cover(product_id: u32) -> (reqs: Vec<CacheRequest>)
    ensures
        reqs@.len() == CoverSize::all_spec().len(),
        forall|i: int|
            0 <= i < reqs@.len() ==> reqs@[i] == (CacheRequest {
                id: product_id,
                size: CoverSize::all_spec()[i],
            }),
        forall|i: int, j: int| 0 <= i < j < reqs@.len() ==> reqs@[i].size != reqs@[j].size,
{
    let mut reqs: Vec<CacheRequest> = Vec::new();
    reqs.push(CacheRequest { id: product_id, size: CoverSize::Large });
    reqs.push(CacheRequest { id: product_id, size: CoverSize::Medium });
    reqs.push(CacheRequest { id: product_id, size: CoverSize::Small });
    proof {
        assert(CoverSize::all_spec().len() == 3);
        assert(reqs@.len() == 3);
        assert(forall|i: int|
            0 <= i < reqs@.len() ==> reqs@[i] == (CacheRequest {
                id: product_id,
                size: CoverSize::all_spec()[i],
            }));
    }
    reqs
}

} // verus!
