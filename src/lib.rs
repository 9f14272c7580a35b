//! Typed rows of a package registry's database dump, with a verified decoder
//! for badge records.

use vstd::prelude::*;

pub mod attributes;
pub mod badges;

pub mod crates;
pub mod crates_keywords;
pub mod error;
pub mod keywords;
pub mod laws;
pub mod reserved_crate_names;

verus! {

} // verus!
