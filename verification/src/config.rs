//! The immutable bag of resolved settings, constructed once at process
//! start and passed by reference into every operation.

use vstd::prelude::*;

verus! {

/// Resolved process configuration. The model credential is required for the
/// process to start; every other field tolerates absence individually.
#[derive(Debug, Clone)]
pub struct AppConfig {
    /// Credential for the model endpoint.
    pub openai_api_key: String,
    /// Base URL of the model endpoint.
    pub openai_base_url: String,
    /// Name of the model to invoke.
    pub openai_model: String,
    /// Optional credential for the training platform.
    pub intervals_api_key: Option<String>,
    /// Optional athlete identifier that short-circuits the remote lookup.
    pub default_athlete_id: Option<String>,
}

} // verus!
