//! Open platform api responses.

use vstd::prelude::*;

verus! {

/// Response for [`crate::open::requests::OpenEnvClusterRequest`]: one
/// environment and the clusters it holds.
#[derive(Debug, Clone, PartialEq)]
pub struct OpenEnvClusterResponse {
    pub env: String,
    pub clusters: Vec<String>,
}

} // verus!
