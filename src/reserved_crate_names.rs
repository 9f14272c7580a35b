//! Package names that may not be registered.

use vstd::prelude::*;

verus! {

/// One row of the reserved-names table.
#[derive(Clone, Debug)]
#[non_exhaustive]
pub struct Row {
    /// PRIMARY KEY
    pub name: String,
}

impl Row {
    /// A reserved name.
    pub fn new(name: String) -> (r: Row)
        ensures
            r.name == name,
    {
        Row { name }
    }
}

} // verus!
