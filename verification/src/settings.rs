//! Read-only configuration handed to the router at startup.
//!
//! Loading the values (from a file or the environment) happens outside
//! the crate; the router only reads the model lists and the endpoint
//! strings through these types.

use vstd::prelude::*;

verus! {

/// Per-provider configuration: the chat endpoint URL, the list of model
/// names the provider serves, and the status-check URL.
pub struct ServiceConfig {
    pub endpoint: String,
    pub models: Vec<String>,
    pub status: String,
}

/// The whole configuration: one [`ServiceConfig`] per known provider.
/// Built once at process start and passed by reference into the router;
/// there is no process-wide lazily initialized state.
pub struct Settings {
    pub openai: ServiceConfig,
    pub cohere: ServiceConfig,
}

} // verus!
