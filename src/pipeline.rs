//! IDs of the render pipelines.

use vstd::prelude::*;

verus! {

/// Invalid pipeline ID.
pub const ID_INVALID: u64 = 0;

/// ID of the general pipeline, which draws buttons and sprites.
pub const ID_GENERAL: u64 = 1;

/// ID of the text pipeline.
pub const ID_TEXT: u64 = 2;

} // verus!
