//! Reading an attribute blob as a mapping from attribute names to values.

use std::collections::BTreeMap;
use vstd::prelude::*;

verus! {

/// One attribute: its name, and its value, where `None` stands for a JSON `null`.
pub type Entry = (String, Option<String>);

/// The value of an optional text.
pub open spec fn text_view(t: Option<String>) -> Option<Seq<char>> {
    match t {
        Some(s) => Some(s@),
        None => None,
    }
}

/// The value of an attribute.
pub open spec fn entry_view(e: Entry) -> (Seq<char>, Option<Seq<char>>) {
    (e.0@, text_view(e.1))
}

/// The value of a list of attributes.
pub open spec fn entries_view(v: Seq<Entry>) -> Seq<(Seq<char>, Option<Seq<char>>)> {
    v.map_values(|e: Entry| entry_view(e))
}

/// Whether no two attributes share a name.
pub open spec fn keys_distinct(e: Seq<(Seq<char>, Option<Seq<char>>)>) -> bool {
    forall|i: int, j: int| 0 <= i < j < e.len() ==> #[trigger] e[i].0 != #[trigger] e[j].0
}

/// The attributes that a JSON text holds, where it is an object whose values
/// are all strings or `null`.
pub uninterp spec fn string_map_of(blob: Seq<char>) -> Option<Seq<(Seq<char>, Option<Seq<char>>)>>;

/// Relies on `serde_json::from_str` into a `BTreeMap<String, Option<String>>`:
/// it succeeds exactly on a JSON object whose values are strings or `null`; the
/// map holds each name once (a later occurrence of a name replaces an earlier
/// one) and hands the entries out in the order of their names.
#[verifier::external_body]
pub(crate) fn parse_string_map(blob: &str) -> (r: Option<Vec<Entry>>)
    ensures
        string_map_of(blob@) == match r {
            Some(v) => Some(entries_view(v@)),
            None => None,
        },
        r matches Some(v) ==> keys_distinct(entries_view(v@)),
{
    let m: Result<BTreeMap<String, Option<String>>, serde_json::Error> = serde_json::from_str(blob);
    m.ok().map(|m| m.into_iter().collect())
}

} // verus!
