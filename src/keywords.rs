//! Keywords that packages are tagged with.

use vstd::prelude::*;

verus! {

/// Primary key of the keywords table.
#[derive(Clone, Copy, Debug, PartialEq, Eq, Structural, PartialOrd, Ord, Hash)]
pub struct KeywordId(pub u32);

/// A point in time, as whole seconds since the Unix epoch (UTC) and the
/// nanoseconds past that second.
#[derive(Clone, Copy, Debug, PartialEq, Eq, Structural)]
pub struct Timestamp {
    pub seconds: i64,
    pub nanos: u32,
}

/// One row of the keywords table. Rows are equal and ordered by their key alone.
#[derive(Clone, Debug)]
#[non_exhaustive]
pub struct Row {
    /// PRIMARY KEY
    pub id: KeywordId,
    /// UNIQUE
    pub keyword: String,
    pub crates_cnt: u32,
    pub created_at: Timestamp,
}

impl Row {
    /// Assembles a row from its columns.
    pub fn new(id: KeywordId, keyword: String, crates_cnt: u32, created_at: Timestamp) -> (r: Row)
        ensures
            r.id == id,
            r.keyword == keyword,
            r.crates_cnt == crates_cnt,
            r.created_at == created_at,
    {
        Row { id, keyword, crates_cnt, created_at }
    }

    /// The key that identifies the row.
    pub fn key(&self) -> (r: &KeywordId)
        ensures
            *r == self.id,
    {
        &self.id
    }
}

impl PartialEq for Row {
    fn eq(&self, other: &Row) -> (r: bool) {
        self.id.0 == other.id.0
    }
}

impl vstd::std_specs::cmp::PartialEqSpecImpl for Row {
    open spec fn obeys_eq_spec() -> bool {
        true
    }

    open spec fn eq_spec(&self, other: &Row) -> bool {
        self.id == other.id
    }
}

impl Eq for Row {
}

/// How two keys order.
pub open spec fn key_order(a: KeywordId, b: KeywordId) -> std::cmp::Ordering {
    if a.0 < b.0 {
        std::cmp::Ordering::Less
    } else if a.0 == b.0 {
        std::cmp::Ordering::Equal
    } else {
        std::cmp::Ordering::Greater
    }
}

impl PartialOrd for Row {
    fn partial_cmp(&self, other: &Row) -> (r: Option<std::cmp::Ordering>) {
        if self.id.0 < other.id.0 {
            Some(std::cmp::Ordering::Less)
        } else if self.id.0 == other.id.0 {
            Some(std::cmp::Ordering::Equal)
        } else {
            Some(std::cmp::Ordering::Greater)
        }
    }
}

impl vstd::std_specs::cmp::PartialOrdSpecImpl for Row {
    open spec fn obeys_partial_cmp_spec() -> bool {
        true
    }

    open spec fn partial_cmp_spec(&self, other: &Row) -> Option<std::cmp::Ordering> {
        Some(key_order(self.id, other.id))
    }
}

} // verus!
