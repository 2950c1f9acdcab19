//! The registry's data: providers, models, and the requests that change them.
use vstd::prelude::*;
use vstd::string::*;
use crate::ids::{Timestamp, Uuid};
use crate::text::same_text;

verus! {

/// A JSON document, carried as it is.
#[verifier::external_type_specification]
#[verifier::external_body]
pub struct ExJsonValue(serde_json::Value);

/// `<serde_json::Value as Clone>::clone`, which `serde_json` derives and which the
/// copies of the types below that hold a document rest on: the copy is the same
/// document.
pub assume_specification[ <serde_json::Value as Clone>::clone ](value: &serde_json::Value) -> (r:
    serde_json::Value)
    ensures
        r == *value,
;

/// Whether a provider serves its models.
#[derive(Clone, Copy, Debug, PartialEq, Eq, Structural, Hash)]
pub enum ProviderStatus {
    Active,
    Disabled,
}

/// Where a model stands in its life.
#[derive(Clone, Copy, Debug, PartialEq, Eq, Structural, Hash)]
pub enum LifecycleStatus {
    Production,
    Preview,
    Experimental,
    Deprecated,
    Sunset,
}

/// Whether a tenant may use a model.
#[derive(Clone, Copy, Debug, PartialEq, Eq, Structural, Hash)]
pub enum ApprovalStatus {
    Pending,
    Approved,
    Rejected,
    Revoked,
}

/// An API a model can be called through.
#[derive(Clone, Copy, Debug, PartialEq, Eq, Structural, Hash)]
pub enum SupportedApi {
    Completion,
}

impl ProviderStatus {
    /// Every status, in the order in which messages list them.
    pub const ALL: [ProviderStatus; 2] = [ProviderStatus::Active, ProviderStatus::Disabled];

    /// The status on the wire.
    pub open spec fn wire(self) -> Seq<char> {
        match self {
            ProviderStatus::Active => "active"@,
            ProviderStatus::Disabled => "disabled"@,
        }
    }

    /// The status on the wire.
    pub fn as_str(self) -> (r: &'static str)
        ensures
            r@ == self.wire(),
    {
        match self {
            ProviderStatus::Active => "active",
            ProviderStatus::Disabled => "disabled",
        }
    }

    /// The status that `raw` stands for on the wire.
    pub fn from_wire(raw: &str) -> (r: Option<ProviderStatus>)
        ensures
            r matches Some(s) ==> s.wire() == raw@,
            r is None ==> forall|s: ProviderStatus| #![trigger s.wire()] s.wire() != raw@,
    {
        if same_text(raw, "active") {
            Some(ProviderStatus::Active)
        } else if same_text(raw, "disabled") {
            Some(ProviderStatus::Disabled)
        } else {
            None
        }
    }
}

impl LifecycleStatus {
    /// Every status, in the order in which messages list them.
    pub const ALL: [LifecycleStatus; 5] = [
        LifecycleStatus::Production,
        LifecycleStatus::Preview,
        LifecycleStatus::Experimental,
        LifecycleStatus::Deprecated,
        LifecycleStatus::Sunset,
    ];

    /// The status on the wire.
    pub open spec fn wire(self) -> Seq<char> {
        match self {
            LifecycleStatus::Production => "production"@,
            LifecycleStatus::Preview => "preview"@,
            LifecycleStatus::Experimental => "experimental"@,
            LifecycleStatus::Deprecated => "deprecated"@,
            LifecycleStatus::Sunset => "sunset"@,
        }
    }

    /// The status's name in messages to developers.
    pub open spec fn debug_name(self) -> Seq<char> {
        match self {
            LifecycleStatus::Production => "Production"@,
            LifecycleStatus::Preview => "Preview"@,
            LifecycleStatus::Experimental => "Experimental"@,
            LifecycleStatus::Deprecated => "Deprecated"@,
            LifecycleStatus::Sunset => "Sunset"@,
        }
    }

    /// Whether the status ends a model's life.
    pub open spec fn terminal(self) -> bool {
        self is Deprecated || self is Sunset
    }

    /// The status on the wire.
    pub fn as_str(self) -> (r: &'static str)
        ensures
            r@ == self.wire(),
    {
        match self {
            LifecycleStatus::Production => "production",
            LifecycleStatus::Preview => "preview",
            LifecycleStatus::Experimental => "experimental",
            LifecycleStatus::Deprecated => "deprecated",
            LifecycleStatus::Sunset => "sunset",
        }
    }

    /// The status's name in messages to developers.
    pub fn name(self) -> (r: &'static str)
        ensures
            r@ == self.debug_name(),
    {
        match self {
            LifecycleStatus::Production => "Production",
            LifecycleStatus::Preview => "Preview",
            LifecycleStatus::Experimental => "Experimental",
            LifecycleStatus::Deprecated => "Deprecated",
            LifecycleStatus::Sunset => "Sunset",
        }
    }

    /// Whether the status ends a model's life.
    pub fn is_terminal(self) -> (r: bool)
        ensures
            r == self.terminal(),
    {
        matches!(self, LifecycleStatus::Deprecated | LifecycleStatus::Sunset)
    }

    /// The status that `raw` stands for on the wire.
    pub fn from_wire(raw: &str) -> (r: Option<LifecycleStatus>)
        ensures
            r matches Some(s) ==> s.wire() == raw@,
            r is None ==> forall|s: LifecycleStatus| #![trigger s.wire()] s.wire() != raw@,
    {
        if same_text(raw, "production") {
            Some(LifecycleStatus::Production)
        } else if same_text(raw, "preview") {
            Some(LifecycleStatus::Preview)
        } else if same_text(raw, "experimental") {
            Some(LifecycleStatus::Experimental)
        } else if same_text(raw, "deprecated") {
            Some(LifecycleStatus::Deprecated)
        } else if same_text(raw, "sunset") {
            Some(LifecycleStatus::Sunset)
        } else {
            None
        }
    }
}

impl ApprovalStatus {
    /// Every status, in the order in which messages list them.
    pub const ALL: [ApprovalStatus; 4] = [
        ApprovalStatus::Pending,
        ApprovalStatus::Approved,
        ApprovalStatus::Rejected,
        ApprovalStatus::Revoked,
    ];

    /// The status on the wire.
    pub open spec fn wire(self) -> Seq<char> {
        match self {
            ApprovalStatus::Pending => "pending"@,
            ApprovalStatus::Approved => "approved"@,
            ApprovalStatus::Rejected => "rejected"@,
            ApprovalStatus::Revoked => "revoked"@,
        }
    }

    /// The status on the wire.
    pub fn as_str(self) -> (r: &'static str)
        ensures
            r@ == self.wire(),
    {
        match self {
            ApprovalStatus::Pending => "pending",
            ApprovalStatus::Approved => "approved",
            ApprovalStatus::Rejected => "rejected",
            ApprovalStatus::Revoked => "revoked",
        }
    }

    /// The status that `raw` stands for on the wire.
    pub fn from_wire(raw: &str) -> (r: Option<ApprovalStatus>)
        ensures
            r matches Some(s) ==> s.wire() == raw@,
            r is None ==> forall|s: ApprovalStatus| #![trigger s.wire()] s.wire() != raw@,
    {
        if same_text(raw, "pending") {
            Some(ApprovalStatus::Pending)
        } else if same_text(raw, "approved") {
            Some(ApprovalStatus::Approved)
        } else if same_text(raw, "rejected") {
            Some(ApprovalStatus::Rejected)
        } else if same_text(raw, "revoked") {
            Some(ApprovalStatus::Revoked)
        } else {
            None
        }
    }
}

impl SupportedApi {
    /// The API on the wire.
    pub open spec fn wire(self) -> Seq<char> {
        match self {
            SupportedApi::Completion => "completion"@,
        }
    }

    /// The API on the wire.
    pub fn as_str(self) -> (r: &'static str)
        ensures
            r@ == self.wire(),
    {
        match self {
            SupportedApi::Completion => "completion",
        }
    }
}

/// A configured source of models.
#[derive(Clone, Debug, PartialEq)]
pub struct ProviderV1 {
    pub id: Uuid,
    pub tenant_id: Uuid,
    pub slug: String,
    pub name: String,
    /// The GTS type identifier of the provider.
    pub gts_type: String,
    pub status: ProviderStatus,
    pub managed: bool,
    pub metadata: Option<serde_json::Value>,
    pub discovery_enabled: bool,
    pub discovery_interval_seconds: Option<u32>,
    pub created_at: Timestamp,
    pub updated_at: Timestamp,
}

/// A description of a model. The nested documents are carried as they are.
#[derive(Clone, Debug, PartialEq)]
pub struct ModelInfoV1 {
    /// The GTS type identifier of the description.
    pub gts_type: String,
    pub display_name: String,
    pub description: Option<String>,
    pub family: Option<String>,
    pub vendor: Option<String>,
    pub managed: bool,
    pub architecture: Option<String>,
    pub size_bytes: Option<u64>,
    pub format: Option<String>,
    pub region: Option<String>,
    pub hosted_by: Option<String>,
    pub last_release_at: Option<Timestamp>,
    pub reasoning_level: Option<String>,
    pub version: Option<String>,
    pub sort_order: Option<i32>,
    pub icon: Option<String>,
    pub multiplier_display: Option<String>,
    pub performance: serde_json::Value,
    pub additional_info: serde_json::Value,
    pub supported_api: Vec<SupportedApi>,
    pub provider_model_id: String,
    pub capabilities: serde_json::Value,
    pub disabled_capabilities: serde_json::Value,
    pub context_window: serde_json::Value,
    pub default_parameters: serde_json::Value,
    pub allow_parameter_override: bool,
    pub allow_extra_params: Vec<String>,
    pub provider_settings: serde_json::Value,
}

/// A model of a provider. `canonical_id` is the provider's slug, `::` and the
/// provider's own name for the model.
#[derive(Clone, Debug, PartialEq)]
pub struct ModelV1 {
    pub id: Uuid,
    pub tenant_id: Uuid,
    pub provider_id: Uuid,
    pub canonical_id: String,
    pub lifecycle_status: LifecycleStatus,
    pub approval_status: ApprovalStatus,
    pub info: ModelInfoV1,
}

/// A model as the administration lists it.
#[derive(Clone, Debug, PartialEq)]
pub struct ModelManagementV1 {
    pub model: ModelV1,
    /// The model's provider is known and not active.
    pub provider_disabled: bool,
    /// The model's provider is active, the model's life has not ended, and the
    /// model is approved.
    pub available_for_eval: bool,
}

/// A request to register a provider.
#[derive(Clone, Debug, PartialEq)]
pub struct CreateProviderRequestV1 {
    slug: String,
    name: String,
    gts_type: String,
    managed: bool,
    metadata: Option<serde_json::Value>,
    discovery_enabled: bool,
    discovery_interval_seconds: Option<u32>,
}

/// What a [`CreateProviderRequestV1`] asks for.
pub struct CreateProviderView {
    pub slug: Seq<char>,
    pub name: Seq<char>,
    pub gts_type: Seq<char>,
    pub managed: bool,
    pub metadata: Option<serde_json::Value>,
    pub discovery_enabled: bool,
    pub discovery_interval_seconds: Option<u32>,
}

impl View for CreateProviderRequestV1 {
    type V = CreateProviderView;

    closed spec fn view(&self) -> CreateProviderView {
        CreateProviderView {
            slug: self.slug@,
            name: self.name@,
            gts_type: self.gts_type@,
            managed: self.managed,
            metadata: self.metadata,
            discovery_enabled: self.discovery_enabled,
            discovery_interval_seconds: self.discovery_interval_seconds,
        }
    }
}

/// A [`CreateProviderRequestV1`] that is being put together.
#[derive(Clone, Debug)]
pub struct CreateProviderRequestBuilder {
    request: CreateProviderRequestV1,
}

impl View for CreateProviderRequestBuilder {
    type V = CreateProviderView;

    closed spec fn view(&self) -> CreateProviderView {
        self.request@
    }
}

impl CreateProviderRequestV1 {
    /// Starts a request: neither managed nor discovered, without metadata.
    pub fn builder(slug: &str, name: &str, gts_type: String) -> (r: CreateProviderRequestBuilder)
        ensures
            r@ == (CreateProviderView {
                slug: slug@,
                name: name@,
                gts_type: gts_type@,
                managed: false,
                metadata: None,
                discovery_enabled: false,
                discovery_interval_seconds: None,
            }),
    {
        CreateProviderRequestBuilder {
            request: CreateProviderRequestV1 {
                slug: slug.to_owned(),
                name: name.to_owned(),
                gts_type,
                managed: false,
                metadata: None,
                discovery_enabled: false,
                discovery_interval_seconds: None,
            },
        }
    }

    /// The provider's slug.
    pub fn slug(&self) -> (r: &str)
        ensures
            r@ == self@.slug,
    {
        self.slug.as_str()
    }

    /// The provider's display name.
    pub fn name(&self) -> (r: &str)
        ensures
            r@ == self@.name,
    {
        self.name.as_str()
    }

    /// The provider's GTS type identifier.
    pub fn gts_type(&self) -> (r: &str)
        ensures
            r@ == self@.gts_type,
    {
        self.gts_type.as_str()
    }

    /// Whether the provider is managed.
    pub fn managed(&self) -> (r: bool)
        ensures
            r == self@.managed,
    {
        self.managed
    }

    /// The provider's metadata.
    pub fn metadata(&self) -> (r: Option<&serde_json::Value>)
        ensures
            r is Some <==> self@.metadata is Some,
            r matches Some(m) ==> self@.metadata == Some(*m),
    {
        self.metadata.as_ref()
    }

    /// Whether the provider's models are discovered.
    pub fn discovery_enabled(&self) -> (r: bool)
        ensures
            r == self@.discovery_enabled,
    {
        self.discovery_enabled
    }

    /// Seconds between two discoveries.
    pub fn discovery_interval_seconds(&self) -> (r: Option<u32>)
        ensures
            r == self@.discovery_interval_seconds,
    {
        self.discovery_interval_seconds
    }
}

impl CreateProviderRequestBuilder {
    /// Sets whether the provider is managed.
    pub fn managed(self, managed: bool) -> (r: CreateProviderRequestBuilder)
        ensures
            r@ == (CreateProviderView { managed, ..self@ }),
    {
        let mut request = self.request;
        request.managed = managed;
        CreateProviderRequestBuilder { request }
    }

    /// Sets the provider's metadata.
    pub fn metadata(self, metadata: serde_json::Value) -> (r: CreateProviderRequestBuilder)
        ensures
            r@ == (CreateProviderView { metadata: Some(metadata), ..self@ }),
    {
        let mut request = self.request;
        request.metadata = Some(metadata);
        CreateProviderRequestBuilder { request }
    }

    /// Sets whether the provider's models are discovered.
    pub fn discovery_enabled(self, discovery_enabled: bool) -> (r: CreateProviderRequestBuilder)
        ensures
            r@ == (CreateProviderView { discovery_enabled, ..self@ }),
    {
        let mut request = self.request;
        request.discovery_enabled = discovery_enabled;
        CreateProviderRequestBuilder { request }
    }

    /// Sets the seconds between two discoveries.
    pub fn discovery_interval_seconds(self, seconds: u32) -> (r: CreateProviderRequestBuilder)
        ensures
            r@ == (CreateProviderView { discovery_interval_seconds: Some(seconds), ..self@ }),
    {
        let mut request = self.request;
        request.discovery_interval_seconds = Some(seconds);
        CreateProviderRequestBuilder { request }
    }

    /// The finished request.
    pub fn build(self) -> (r: CreateProviderRequestV1)
        ensures
            r@ == self@,
    {
        self.request
    }
}

/// A request to change a provider. A field that is `None` is left as it is; of
/// the doubly optional ones, an inner `None` clears the field.
#[derive(Clone, Debug, PartialEq)]
pub struct UpdateProviderRequestV1 {
    pub name: Option<String>,
    pub status: Option<ProviderStatus>,
    pub managed: Option<bool>,
    pub metadata: Option<Option<serde_json::Value>>,
    pub discovery_enabled: Option<bool>,
    pub discovery_interval_seconds: Option<Option<u32>>,
}

/// A request to register a model of the provider `provider_id`.
#[derive(Clone, Debug, PartialEq)]
pub struct CreateModelRequestV1 {
    pub provider_id: Uuid,
    pub lifecycle_status: LifecycleStatus,
    pub approval_status: Option<ApprovalStatus>,
    pub info: ModelInfoV1,
}

/// A request to register a model of the provider with the given slug.
#[derive(Clone, Debug, PartialEq)]
pub struct CreateModelBySlug<I> {
    pub provider_slug: String,
    pub lifecycle_status: LifecycleStatus,
    pub approval_status: Option<ApprovalStatus>,
    pub info: I,
}

impl CreateModelBySlug<ModelInfoV1> {
    /// The request, once the provider that the slug names is known.
    pub fn for_provider(self, provider_id: Uuid) -> (r: CreateModelRequestV1)
        ensures
            r == (CreateModelRequestV1 {
                provider_id,
                lifecycle_status: self.lifecycle_status,
                approval_status: self.approval_status,
                info: self.info,
            }),
    {
        CreateModelRequestV1 {
            provider_id,
            lifecycle_status: self.lifecycle_status,
            approval_status: self.approval_status,
            info: self.info,
        }
    }
}

/// A request to change a model. A field that is `None` is left as it is; of
/// the doubly optional ones, an inner `None` clears the field.
#[derive(Clone, Debug, PartialEq)]
pub struct UpdateModelRequestV1 {
    pub approval_status: Option<ApprovalStatus>,
    pub lifecycle_status: Option<LifecycleStatus>,
    pub display_name: Option<String>,
    pub description: Option<Option<String>>,
    pub family: Option<Option<String>>,
    pub vendor: Option<Option<String>>,
    pub managed: Option<bool>,
    pub architecture: Option<Option<String>>,
    pub size_bytes: Option<Option<u64>>,
    pub format: Option<Option<String>>,
    pub region: Option<Option<String>>,
    pub hosted_by: Option<Option<String>>,
    pub reasoning_level: Option<Option<String>>,
    pub version: Option<Option<String>>,
    pub sort_order: Option<Option<i32>>,
    pub icon: Option<Option<String>>,
    pub multiplier_display: Option<Option<String>>,
    pub performance: Option<serde_json::Value>,
    pub capabilities: Option<serde_json::Value>,
    pub disabled_capabilities: Option<serde_json::Value>,
    pub context_window: Option<serde_json::Value>,
    pub default_parameters: Option<serde_json::Value>,
    pub allow_parameter_override: Option<bool>,
    pub allow_extra_params: Option<Vec<String>>,
    pub provider_settings: Option<serde_json::Value>,
}

} // verus!
