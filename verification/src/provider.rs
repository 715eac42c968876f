//! Cover providers: the closed, ordered set of sources a cover can be
//! fetched from, plus the `Manual` marker for covers uploaded by hand.

use vstd::prelude::*;
use vstd::string::StringExecFns;

verus! {

/// A source of cover images. `Manual` is only a tag for covers uploaded
/// out of band; it is never placed in a resolution list.
#[derive(Clone, Copy, PartialEq, Eq, Structural, Debug)]
pub enum CoverProvider {
    OpenLibrary,
    Manual,
}

impl CoverProvider {
    /// The small discriminant stored in the cover record's `provider`
    /// column when an acquisition through this provider succeeded.
    pub fn code(&self) -> (c: u8)
        ensures
            c == self.code_spec(),
    {
        match self {
            CoverProvider::OpenLibrary => 0,
            CoverProvider::Manual => 1,
        }
    }

    pub open spec fn code_spec(self) -> u8 {
        match self {
            CoverProvider::OpenLibrary => 0,
            CoverProvider::Manual => 1,
        }
    }

    /// Whether the resolution loop may try this provider at all.
    /// `Manual` is excluded by type discipline instead of a runtime
    /// panic: fetch-related functions require `is_fetchable`.
    pub fn is_fetchable(&self) -> (b: bool)
        ensures
            b == self.is_fetchable_spec(),
    {
        match self {
            CoverProvider::OpenLibrary => true,
            CoverProvider::Manual => false,
        }
    }

    pub open spec fn is_fetchable_spec(self) -> bool {
        self != CoverProvider::Manual
    }

    /// The address a fetchable provider serves a cover from, given
    /// the product's lookup key. `Manual` has no such address, and
    /// the type discipline keeps it out: no runtime check is needed.
    pub fn fetch_url(&self, barcode: &str) -> (url: String)
        requires
            self.is_fetchable_spec(),
        ensures
            url@ == match *self {
                CoverProvider::OpenLibrary => openlibrary_cover_url_spec(barcode@),
                CoverProvider::Manual => Seq::<char>::empty(),
            },
    {
        match self {
            CoverProvider::OpenLibrary => openlibrary_cover_url(barcode),
            CoverProvider::Manual => String::new(),
        }
    }
}

/// Where OpenLibrary serves the large cover for an ISBN, asking for a
/// hard failure instead of a placeholder when it has none.
pub open spec fn openlibrary_cover_url_spec(barcode: Seq<char>) -> Seq<char> {
    "https://covers.openlibrary.org/b/isbn/"@ + barcode + "-L.jpg?default=false"@
}

/// Build the OpenLibrary cover address for a barcode.
pub fn openlibrary_cover_url(barcode: &str) -> (url: String)
    ensures
        url@ == openlibrary_cover_url_spec(barcode@),
{
    let mut url = String::new();
    url.append("https://covers.openlibrary.org/b/isbn/");
    url.append(barcode);
    url.append("-L.jpg?default=false");
    proof {
        assert(url@ =~= openlibrary_cover_url_spec(barcode@));
    }
    url
}

} // verus!
