//! What can go wrong in the gateway.
use vstd::prelude::*;
use vstd::string::*;
use crate::text::join2;
use crate::registry::error::{ModelRegistryError, ModelRegistryErrorView};

verus! {

/// What can go wrong in the gateway.
#[derive(Clone, Debug, PartialEq, Eq)]
pub enum LlmGatewayError {
    /// There is no such model.
    ModelNotFound { model: String },
    /// The model is not approved for the tenant.
    ModelNotApproved { model: String },
    /// The provider cannot be called.
    ProviderError { message: String },
    /// The gateway cannot do this.
    CapabilityNotSupported { message: String },
    /// An unexpected failure.
    Internal { message: String },
}

/// The model of an [`LlmGatewayError`].
pub enum LlmGatewayErrorView {
    ModelNotFound { model: Seq<char> },
    ModelNotApproved { model: Seq<char> },
    ProviderError { message: Seq<char> },
    CapabilityNotSupported { message: Seq<char> },
    Internal { message: Seq<char> },
}

impl View for LlmGatewayError {
    type V = LlmGatewayErrorView;

    open spec fn view(&self) -> LlmGatewayErrorView {
        match *self {
            LlmGatewayError::ModelNotFound { model } => LlmGatewayErrorView::ModelNotFound {
                model: model@,
            },
            LlmGatewayError::ModelNotApproved { model } => LlmGatewayErrorView::ModelNotApproved {
                model: model@,
            },
            LlmGatewayError::ProviderError { message } => LlmGatewayErrorView::ProviderError {
                message: message@,
            },
            LlmGatewayError::CapabilityNotSupported {
                message,
            } => LlmGatewayErrorView::CapabilityNotSupported { message: message@ },
            LlmGatewayError::Internal { message } => LlmGatewayErrorView::Internal {
                message: message@,
            },
        }
    }
}

impl LlmGatewayErrorView {
    /// The error as text.
    pub open spec fn text(self) -> Seq<char> {
        match self {
            LlmGatewayErrorView::ModelNotFound { model } => "model not found: "@ + model,
            LlmGatewayErrorView::ModelNotApproved { model } => "model not approved: "@ + model,
            LlmGatewayErrorView::ProviderError { message } => "provider error: "@ + message,
            LlmGatewayErrorView::CapabilityNotSupported { message } => "capability not supported: "@
                + message,
            LlmGatewayErrorView::Internal { message } => "internal error: "@ + message,
        }
    }
}

impl LlmGatewayError {
    /// The gateway cannot do this.
    pub fn capability_not_supported(message: &str) -> (r: LlmGatewayError)
        ensures
            r@ == (LlmGatewayErrorView::CapabilityNotSupported { message: message@ }),
    {
        LlmGatewayError::CapabilityNotSupported { message: message.to_owned() }
    }

    /// The error as text.
    pub fn to_string(&self) -> (r: String)
        ensures
            r@ == self@.text(),
    {
        match self {
            LlmGatewayError::ModelNotFound { model } => join2("model not found: ", model.as_str()),
            LlmGatewayError::ModelNotApproved { model } => join2(
                "model not approved: ",
                model.as_str(),
            ),
            LlmGatewayError::ProviderError { message } => join2(
                "provider error: ",
                message.as_str(),
            ),
            LlmGatewayError::CapabilityNotSupported { message } => join2(
                "capability not supported: ",
                message.as_str(),
            ),
            LlmGatewayError::Internal { message } => join2("internal error: ", message.as_str()),
        }
    }
}

/// The gateway's error for one of the registry's. A missing and an unapproved model
/// keep their meaning; everything else is an unexpected failure.
pub open spec fn registry_error(e: ModelRegistryErrorView) -> LlmGatewayErrorView {
    match e {
        ModelRegistryErrorView::ModelNotFound { canonical_id } => LlmGatewayErrorView::ModelNotFound {
            model: canonical_id,
        },
        ModelRegistryErrorView::ModelNotApproved {
            canonical_id,
        } => LlmGatewayErrorView::ModelNotApproved { model: canonical_id },
        other => LlmGatewayErrorView::Internal { message: other.text() },
    }
}

/// The gateway's error for one of the registry's.
pub fn map_registry_err(err: ModelRegistryError) -> (r: LlmGatewayError)
    ensures
        r@ == registry_error(err@),
{
    match err {
        ModelRegistryError::ModelNotFound { canonical_id } => LlmGatewayError::ModelNotFound {
            model: canonical_id,
        },
        ModelRegistryError::ModelNotApproved { canonical_id } => LlmGatewayError::ModelNotApproved {
            model: canonical_id,
        },
        other => LlmGatewayError::Internal { message: other.to_string() },
    }
}

} // verus!
