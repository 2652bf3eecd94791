//! Numeric types shared by the whole crate.

use vstd::prelude::*;

verus! {

/// The value of a character attribute.
pub type AttributeValue = i64;

/// The health of a character.
pub type Health = u64;

} // verus!
