//! The write plan for a fetched cover: which files the raster
//! variants go to and at which resolution each is resized.
//!
//! Decoding and resizing themselves are a pure outside boundary; the
//! library fixes the naming and the resolutions, and the caller does
//! the pixel work and the writes.

use vstd::prelude::*;

use crate::cover::{cover_file_name, cover_file_name_spec, CoverSize};

verus! {

pub const RES_COVER_MINI: u32 = 45;

pub const RES_COVER_SMALL: u32 = 135;

pub const RES_COVER_ORIGIN: u32 = 240;

/// The square bounding box each variant is resized into. The medium
/// letter names the miniature, as the file layout has it.
pub open spec fn resolution_spec(size: CoverSize) -> u32 {
    match size {
        CoverSize::Large => RES_COVER_ORIGIN,
        CoverSize::Medium => RES_COVER_MINI,
        CoverSize::Small => RES_COVER_SMALL,
    }
}

/// The resolution one variant is resized to.
pub fn resolution(size: CoverSize) -> (r: u32)
    ensures
        r == resolution_spec(size),
{
    match size {
        CoverSize::Large => RES_COVER_ORIGIN,
        CoverSize::Medium => RES_COVER_MINI,
        CoverSize::Small => RES_COVER_SMALL,
    }
}

/// One file the cover writer must produce.
#[derive(Clone, PartialEq, Eq, Debug)]
pub struct CoverVariantFile {
    pub name: String,
    pub resolution: u32,
}

/// The write plan for one fetched cover: one file per size variant,
/// in the fixed variant order, each under the conventional name and
/// at its variant's resolution.
pub fn write_cover_plan(product_id: u32) -> (files: Vec<CoverVariantFile>)
    ensures
        files@.len() == CoverSize::all_spec().len(),
        forall|i: int|
            0 <= i < files@.len() ==> files@[i].name@ == cover_file_name_spec(
                product_id,
                CoverSize::all_spec()[i],
            ) && files@[i].resolution == resolution_spec(CoverSize::all_spec()[i]),
{
    let mut files: Vec<CoverVariantFile> = Vec::new();
    let sizes = CoverSize::all();
    let mut i: usize = 0;
    while i < sizes.len()
        invariant
            sizes@ == CoverSize::all_spec(),
            0 <= i <= sizes@.len(),
            files@.len() == i,
            forall|k: int|
                0 <= k < i ==> files@[k].name@ == cover_file_name_spec(
                    product_id,
                    CoverSize::all_spec()[k],
                ) && files@[k].resolution == resolution_spec(CoverSize::all_spec()[k]),
        decreases sizes@.len() - i,
    {
        let size = sizes[i];
        files.push(CoverVariantFile { name: cover_file_name(product_id, size), resolution: resolution(size) });
        i = i + 1;
    }
    files
}

/// The files a cover deletion must remove: the three variant files of
/// the id, under their conventional names, in the fixed variant order.
pub fn delete_cover_files(product_id: u32) -> (names: Vec<String>)
    ensures
        names@.len() == CoverSize::all_spec().len(),
        forall|i: int|
            0 <= i < names@.len() ==> names@[i]@ == cover_file_name_spec(
                product_id,
                CoverSize::all_spec()[i],
            ),
{
    let mut names: Vec<String> = Vec::new();
    let sizes = CoverSize::all();
    let mut i: usize = 0;
    while i < sizes.len()
        invariant
            sizes@ == CoverSize::all_spec(),
            0 <= i <= sizes@.len(),
            names@.len() == i,
            forall|k: int|
                0 <= k < i ==> names@[k]@ == cover_file_name_spec(
                    product_id,
                    CoverSize::all_spec()[k],
                ),
        decreases sizes@.len() - i,
    {
        let size = sizes[i];
        names.push(cover_file_name(product_id, size));
        i = i + 1;
    }
    names
}

} // verus!
