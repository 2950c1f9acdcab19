//! The bodies of requests and responses.
use vstd::prelude::*;
use vstd::string::*;
use crate::ids::{rfc3339, Uuid};
use crate::registry::models::{ModelV1, ProviderV1};

verus! {

/// A field of a change that can be set, cleared or left alone: a field that is
/// there counts as given, though it holds null.
pub fn nullable<T, E>(decoded: Result<Option<T>, E>) -> (r: Result<Option<Option<T>>, E>)
    ensures
        r == match decoded {
            Ok(value) => Ok::<Option<Option<T>>, E>(Some(value)),
            Err(e) => Err::<Option<Option<T>>, E>(e),
        },
{
    match decoded {
        Ok(value) => Ok(Some(value)),
        Err(e) => Err(e),
    }
}

/// A provider in a response.
#[derive(Clone, Debug, PartialEq)]
pub struct ProviderDto {
    pub id: Uuid,
    pub slug: String,
    pub name: String,
    pub gts_type: String,
    pub status: String,
    pub managed: bool,
    pub metadata: Option<serde_json::Value>,
    pub discovery_enabled: bool,
    pub discovery_interval_seconds: Option<u32>,
    pub created_at: String,
    pub updated_at: String,
}

/// Whether `dto` shows `source`: its status by its wire text, its instants by RFC
/// 3339, everything else as it is. The owner is not shown.
pub open spec fn shows_provider(dto: ProviderDto, source: ProviderV1) -> bool {
    &&& dto.id == source.id
    &&& dto.slug == source.slug
    &&& dto.name == source.name
    &&& dto.gts_type == source.gts_type
    &&& dto.status@ == source.status.wire()
    &&& dto.managed == source.managed
    &&& dto.metadata == source.metadata
    &&& dto.discovery_enabled == source.discovery_enabled
    &&& dto.discovery_interval_seconds == source.discovery_interval_seconds
    &&& rfc3339(source.created_at.seconds(), source.created_at.nanos()) == Some(dto.created_at@)
    &&& rfc3339(source.updated_at.seconds(), source.updated_at.nanos()) == Some(dto.updated_at@)
}

impl From<ProviderV1> for ProviderDto {
    fn from(source: ProviderV1) -> (r: Self)
        ensures
            shows_provider(r, source),
    {
        ProviderDto {
            id: source.id,
            slug: source.slug,
            name: source.name,
            gts_type: source.gts_type,
            status: source.status.as_str().to_owned(),
            managed: source.managed,
            metadata: source.metadata,
            discovery_enabled: source.discovery_enabled,
            discovery_interval_seconds: source.discovery_interval_seconds,
            created_at: source.created_at.to_rfc3339(),
            updated_at: source.updated_at.to_rfc3339(),
        }
    }
}

impl vstd::std_specs::convert::FromSpecImpl<ProviderV1> for ProviderDto {
    open spec fn obeys_from_spec() -> bool {
        false
    }

    open spec fn from_spec(source: ProviderV1) -> Self {
        arbitrary()
    }
}

/// The body of a request to register a provider.
#[derive(Clone, Debug, PartialEq)]
pub struct CreateProviderRequestDto {
    pub slug: String,
    pub name: String,
    pub gts_type: String,
    pub managed: bool,
    pub metadata: Option<serde_json::Value>,
    pub discovery_enabled: bool,
    pub discovery_interval_seconds: Option<u32>,
}

/// The body of a request to change a provider.
#[derive(Clone, Debug, PartialEq)]
pub struct UpdateProviderRequestDto {
    pub name: Option<String>,
    pub status: Option<String>,
    pub managed: Option<bool>,
    pub metadata: Option<Option<serde_json::Value>>,
    pub discovery_enabled: Option<bool>,
    pub discovery_interval_seconds: Option<Option<u32>>,
}

impl Default for UpdateProviderRequestDto {
    fn default() -> (r: Self)
        ensures
            r == (UpdateProviderRequestDto {
                name: None,
                status: None,
                managed: None,
                metadata: None,
                discovery_enabled: None,
                discovery_interval_seconds: None,
            }),
    {
        UpdateProviderRequestDto {
            name: None,
            status: None,
            managed: None,
            metadata: None,
            discovery_enabled: None,
            discovery_interval_seconds: None,
        }
    }
}

/// A page of providers.
#[derive(Clone, Debug, PartialEq)]
pub struct ProviderListDto {
    pub items: Vec<ProviderDto>,
    pub page_info: PageInfoDto,
}

/// A model in a response.
#[derive(Clone, Debug, PartialEq)]
pub struct ModelDto {
    pub id: Uuid,
    pub provider_id: Uuid,
    pub canonical_id: String,
    pub lifecycle_status: String,
    pub approval_status: String,
    pub info: serde_json::Value,
}

/// Whether `dto` shows `source`, whose description reads `info` as a document.
pub open spec fn shows_model(dto: ModelDto, source: ModelV1, info: serde_json::Value) -> bool {
    &&& dto.id == source.id
    &&& dto.provider_id == source.provider_id
    &&& dto.canonical_id == source.canonical_id
    &&& dto.lifecycle_status@ == source.lifecycle_status.wire()
    &&& dto.approval_status@ == source.approval_status.wire()
    &&& dto.info == info
}

impl ModelDto {
    /// The response for a model, whose description reads `info` as a document.
    pub fn from_model(source: ModelV1, info: serde_json::Value) -> (r: ModelDto)
        ensures
            shows_model(r, source, info),
    {
        ModelDto {
            id: source.id,
            provider_id: source.provider_id,
            canonical_id: source.canonical_id,
            lifecycle_status: source.lifecycle_status.as_str().to_owned(),
            approval_status: source.approval_status.as_str().to_owned(),
            info,
        }
    }
}

/// The body of a request to register a model. `info` is the description as it was
/// read, or why it could not be.
#[derive(Debug)]
pub struct CreateModelRequestDto<I> {
    pub provider_slug: String,
    pub lifecycle_status: String,
    pub approval_status: Option<String>,
    pub info: Result<I, String>,
}

/// The body of a request to change a model. A nested document is given as it was
/// read, or with why it could not be.
#[derive(Debug)]
pub struct UpdateModelRequestDto {
    pub approval_status: Option<String>,
    pub lifecycle_status: Option<String>,
    pub display_name: Option<String>,
    pub description: Option<Option<String>>,
    pub family: Option<Option<String>>,
    pub vendor: Option<Option<String>>,
    pub managed: Option<bool>,
    pub architecture: Option<Option<String>>,
    pub size_bytes: Option<Option<u64>>,
    pub format: Option<Option<String>>,
    pub region: Option<Option<String>>,
    pub hosted_by: Option<Option<String>>,
    pub reasoning_level: Option<Option<String>>,
    pub version: Option<Option<String>>,
    pub sort_order: Option<Option<i32>>,
    pub icon: Option<Option<String>>,
    pub multiplier_display: Option<Option<String>>,
    pub performance: Option<Result<serde_json::Value, String>>,
    pub capabilities: Option<Result<serde_json::Value, String>>,
    pub disabled_capabilities: Option<Result<serde_json::Value, String>>,
    pub context_window: Option<Result<serde_json::Value, String>>,
    pub default_parameters: Option<Result<serde_json::Value, String>>,
    pub allow_parameter_override: Option<bool>,
    pub allow_extra_params: Option<Vec<String>>,
    pub provider_settings: Option<serde_json::Value>,
}

/// A page of models.
#[derive(Clone, Debug, PartialEq)]
pub struct ModelListDto {
    pub items: Vec<ModelDto>,
    pub page_info: PageInfoDto,
}

/// A model in a response to an administrator.
#[derive(Clone, Debug, PartialEq)]
pub struct ModelManagementDto {
    pub model: ModelDto,
    pub provider_disabled: bool,
    pub available_for_eval: bool,
}

/// A page of models for administration.
#[derive(Clone, Debug, PartialEq)]
pub struct ModelManagementListDto {
    pub items: Vec<ModelManagementDto>,
    pub page_info: PageInfoDto,
}

/// Where a page stands in its listing.
#[derive(Clone, Debug, PartialEq, Eq)]
pub struct PageInfoDto {
    pub next_cursor: Option<String>,
    pub prev_cursor: Option<String>,
    pub limit: u32,
}

} // verus!
