//! Model identifiers accepted in the `model_id` field of a request.

use vstd::prelude::*;

verus! {

/// The model a request names when the caller chose none.
pub const SCRIBE_V1: &'static str = "scribe_v1";

/// The experimental variant of the default model.
pub const SCRIBE_V1_EXPERIMENTAL: &'static str = "scribe_v1_experimental";

} // verus!
