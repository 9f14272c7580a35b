//! Errors of row decoding.

use vstd::prelude::*;

verus! {

/// Why a row could not be decoded.
#[derive(Clone, Copy, Debug, PartialEq, Eq, Structural)]
pub enum Error {
    /// The raw record does not have exactly the expected columns.
    Record,
    /// The owner column does not hold a valid package identifier.
    CrateId,
    /// The attribute blob is not a mapping from names to strings.
    Attributes,
}

} // verus!
