//! Names that are reserved in policy documents and in the persistent store.

use vstd::prelude::*;

verus! {

/// Top-level key of a policy document that holds the feature flags.
pub const FEATURES_KEY: &'static str = "features";

/// Store key of the cached directory, a JSON object from login to chat identity.
pub const GITHUB_TO_MATRIX_KEY: &'static str = "GITHUB_TO_MATRIX";

/// Store key of the pending-change state that the rule engine keeps.
pub const LOCAL_STATE_KEY: &'static str = "LOCAL_STATE_KEY";

} // verus!
