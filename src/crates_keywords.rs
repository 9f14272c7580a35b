//! Rows linking packages to keywords.

use crate::crates::CrateId;
use crate::keywords::KeywordId;
use vstd::prelude::*;

verus! {

/// One row of the package-keyword table.
#[derive(Clone, Copy, Debug, PartialEq, Eq, Structural)]
#[non_exhaustive]
pub struct Row {
    pub crate_id: CrateId,
    pub keyword_id: KeywordId,
}

impl Row {
    /// Links a package to a keyword.
    pub fn new(crate_id: CrateId, keyword_id: KeywordId) -> (r: Row)
        ensures
            r.crate_id == crate_id,
            r.keyword_id == keyword_id,
    {
        Row { crate_id, keyword_id }
    }
}

} // verus!
