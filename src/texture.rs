//! Texture IDs known to every application.

use vstd::prelude::*;

verus! {

/// Invalid texture ID.
pub const ID_INVALID: u64 = 0;

/// ID of the empty texture, the fallback of every texture lookup.
pub const ID_EMPTY: u64 = 1;

/// ID of the hamburger menu icon.
pub const ID_HAMBURGER: u64 = 2;

} // verus!
