//! What a provider plugin is told, and what it tells of itself.
use vstd::prelude::*;

verus! {

/// What a provider plugin needs for one call.
#[derive(Clone, Debug, PartialEq)]
pub struct ProviderCallCtx {
    /// The provider's own name for the model.
    pub provider_model_id: String,
    /// The GTS type identifier that says what the settings are.
    pub provider_type: String,
    /// The provider's settings for the model.
    pub provider_settings: serde_json::Value,
    pub request_id: String,
}

/// How a provider takes images, sound and files.
#[derive(Clone, Copy, Debug, PartialEq, Eq, Structural)]
pub enum MediaInputMode {
    /// By their address.
    UrlForward,
    /// By their content, which has to be fetched first.
    PrefetchRequired,
}

/// What a provider plugin can do.
#[derive(Clone, Copy, Debug, PartialEq, Eq, Structural)]
pub struct ProviderPluginCapabilities {
    pub streaming_transport: bool,
    pub media_input: MediaInputMode,
}

} // verus!
