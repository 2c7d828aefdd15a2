//! What the window asks of the migrations of its data.

use vstd::prelude::*;

verus! {

/// Back to a version.
#[derive(Debug, Clone)]
pub struct RollbackRequest {
    pub version: String,
}

} // verus!
