//! The registry's endpoints.
//!
//! There are two zones. What stands under `/model-registry/v1` is for every member
//! of a tenant, and names a model by its canonical id. What stands under
//! `/model-registry/v1/admin` is for administration, and names everything by its
//! identifier: a canonical id means different models to different tenants, so that
//! it cannot name what is to be changed.
use vstd::prelude::*;
use vstd::string::*;
use crate::registry::evaluation::gate;
use crate::registry::inheritance::ChainProvider;
use crate::registry::models::ModelV1;
use crate::registry::security::SecurityContext;

verus! {

/// The licence feature that stands for the endpoints. None of them demands it.
pub const LICENSE_FEATURE: &'static str = "gts.cf.core.lic.feat.v1~cf.core.global.base.v1";

/// How an endpoint is called.
#[derive(Clone, Copy, Debug, PartialEq, Eq, Structural, Hash)]
pub enum Method {
    Get,
    Post,
    Patch,
    Delete,
}

/// What a listing can be filtered and ordered by.
#[derive(Clone, Copy, Debug, PartialEq, Eq, Structural)]
pub enum ListedFields {
    Models,
    Providers,
}

/// The type of a body.
#[derive(Clone, Copy, Debug, PartialEq, Eq, Structural)]
pub enum BodySchema {
    ModelList,
    Model,
    ModelManagementList,
    ProviderList,
    Provider,
    CreateModelRequest,
    UpdateModelRequest,
    CreateProviderRequest,
    UpdateProviderRequest,
}

impl BodySchema {
    /// The type's name in the documentation.
    pub open spec fn spec_name(self) -> Seq<char> {
        match self {
            BodySchema::ModelList => "ModelListDto"@,
            BodySchema::Model => "ModelDto"@,
            BodySchema::ModelManagementList => "ModelManagementListDto"@,
            BodySchema::ProviderList => "ProviderListDto"@,
            BodySchema::Provider => "ProviderDto"@,
            BodySchema::CreateModelRequest => "CreateModelRequestDto"@,
            BodySchema::UpdateModelRequest => "UpdateModelRequestDto"@,
            BodySchema::CreateProviderRequest => "CreateProviderRequestDto"@,
            BodySchema::UpdateProviderRequest => "UpdateProviderRequestDto"@,
        }
    }

    /// The type's name in the documentation.
    pub fn name(self) -> (r: &'static str)
        ensures
            r@ == self.spec_name(),
    {
        match self {
            BodySchema::ModelList => "ModelListDto",
            BodySchema::Model => "ModelDto",
            BodySchema::ModelManagementList => "ModelManagementListDto",
            BodySchema::ProviderList => "ProviderListDto",
            BodySchema::Provider => "ProviderDto",
            BodySchema::CreateModelRequest => "CreateModelRequestDto",
            BodySchema::UpdateModelRequest => "UpdateModelRequestDto",
            BodySchema::CreateProviderRequest => "CreateProviderRequestDto",
            BodySchema::UpdateProviderRequest => "UpdateProviderRequestDto",
        }
    }
}

/// A parameter of a URL, as it is documented.
#[derive(Clone, Copy, Debug, PartialEq, Eq)]
pub struct QueryParam {
    pub name: &'static str,
    pub required: bool,
    pub description: &'static str,
    pub kind: &'static str,
}

/// An endpoint.
#[derive(Clone, Copy, Debug, PartialEq, Eq, Structural, Hash)]
pub enum Endpoint {
    /// The models a tenant may use.
    ListTenantModels,
    /// One model, for use.
    GetTenantModel,
    /// All models, with notes for administration.
    ListManagementModels,
    /// Registering a model.
    CreateModel,
    /// One model, for administration.
    GetModel,
    /// Changing a model.
    UpdateModel,
    /// Taking a model out of service.
    DeleteModel,
    /// The providers.
    ListProviders,
    /// Registering a provider.
    CreateProvider,
    /// One provider.
    GetProvider,
    /// Changing a provider.
    UpdateProvider,
    /// Removing a provider.
    DeleteProvider,
}

/// Every endpoint, in the order in which they are registered.
pub const ENDPOINTS: [Endpoint; 12] = [
    Endpoint::ListTenantModels,
    Endpoint::GetTenantModel,
    Endpoint::ListManagementModels,
    Endpoint::CreateModel,
    Endpoint::GetModel,
    Endpoint::UpdateModel,
    Endpoint::DeleteModel,
    Endpoint::ListProviders,
    Endpoint::CreateProvider,
    Endpoint::GetProvider,
    Endpoint::UpdateProvider,
    Endpoint::DeleteProvider,
];

impl Endpoint {
    /// How the endpoint is called.
    pub open spec fn spec_method(self) -> Method {
        match self {
            Endpoint::ListTenantModels => Method::Get,
            Endpoint::GetTenantModel => Method::Get,
            Endpoint::ListManagementModels => Method::Get,
            Endpoint::CreateModel => Method::Post,
            Endpoint::GetModel => Method::Get,
            Endpoint::UpdateModel => Method::Patch,
            Endpoint::DeleteModel => Method::Delete,
            Endpoint::ListProviders => Method::Get,
            Endpoint::CreateProvider => Method::Post,
            Endpoint::GetProvider => Method::Get,
            Endpoint::UpdateProvider => Method::Patch,
            Endpoint::DeleteProvider => Method::Delete,
        }
    }

    /// The endpoint's path.
    pub open spec fn spec_path(self) -> Seq<char> {
        match self {
            Endpoint::ListTenantModels => "/model-registry/v1/models"@,
            Endpoint::GetTenantModel => "/model-registry/v1/models/{canonical_id}"@,
            Endpoint::ListManagementModels => "/model-registry/v1/admin/models"@,
            Endpoint::CreateModel => "/model-registry/v1/admin/models"@,
            Endpoint::GetModel => "/model-registry/v1/admin/models/{id}"@,
            Endpoint::UpdateModel => "/model-registry/v1/admin/models/{id}"@,
            Endpoint::DeleteModel => "/model-registry/v1/admin/models/{id}"@,
            Endpoint::ListProviders => "/model-registry/v1/admin/providers"@,
            Endpoint::CreateProvider => "/model-registry/v1/admin/providers"@,
            Endpoint::GetProvider => "/model-registry/v1/admin/providers/{id}"@,
            Endpoint::UpdateProvider => "/model-registry/v1/admin/providers/{id}"@,
            Endpoint::DeleteProvider => "/model-registry/v1/admin/providers/{id}"@,
        }
    }

    /// The endpoint's name among operations.
    pub open spec fn spec_operation_id(self) -> Seq<char> {
        match self {
            Endpoint::ListTenantModels => "model_registry.list_tenant_models"@,
            Endpoint::GetTenantModel => "model_registry.get_tenant_model"@,
            Endpoint::ListManagementModels => "model_registry.list_management_models"@,
            Endpoint::CreateModel => "model_registry.create_model"@,
            Endpoint::GetModel => "model_registry.get_model"@,
            Endpoint::UpdateModel => "model_registry.update_model"@,
            Endpoint::DeleteModel => "model_registry.delete_model"@,
            Endpoint::ListProviders => "model_registry.list_providers"@,
            Endpoint::CreateProvider => "model_registry.create_provider"@,
            Endpoint::GetProvider => "model_registry.get_provider"@,
            Endpoint::UpdateProvider => "model_registry.update_provider"@,
            Endpoint::DeleteProvider => "model_registry.delete_provider"@,
        }
    }

    /// The endpoint in a few words.
    pub open spec fn spec_summary(self) -> Seq<char> {
        match self {
            Endpoint::ListTenantModels => "List models available for eval"@,
            Endpoint::GetTenantModel => "Get a model by canonical ID"@,
            Endpoint::ListManagementModels => "List models with management flags"@,
            Endpoint::CreateModel => "Create a model"@,
            Endpoint::GetModel => "Get a model by ID"@,
            Endpoint::UpdateModel => "Update a model"@,
            Endpoint::DeleteModel => "Delete a model"@,
            Endpoint::ListProviders => "List providers"@,
            Endpoint::CreateProvider => "Create a provider"@,
            Endpoint::GetProvider => "Get a provider"@,
            Endpoint::UpdateProvider => "Update a provider"@,
            Endpoint::DeleteProvider => "Delete a provider"@,
        }
    }

    /// Whether the endpoint is for administration.
    pub open spec fn administers(self) -> bool {
        !(self is ListTenantModels || self is GetTenantModel)
    }

    /// Whether the endpoint lists things.
    pub open spec fn lists(self) -> bool {
        self is ListTenantModels || self is ListManagementModels || self is ListProviders
    }

    /// Whether the endpoint takes a body.
    pub open spec fn takes_body(self) -> bool {
        self.spec_method() is Post || self.spec_method() is Patch
    }

    /// Whether the endpoint's path names one thing.
    pub open spec fn names_one(self) -> bool {
        !self.lists() && !(self.spec_method() is Post)
    }

    /// The status of success: 201 for what was made, 204 for what was taken away,
    /// and otherwise 200.
    pub open spec fn spec_success(self) -> u16 {
        match self.spec_method() {
            Method::Post => 201,
            Method::Delete => 204,
            _ => 200,
        }
    }

    /// The statuses of failure. Every endpoint can find the caller unknown or denied
    /// and can fail. What takes a body or a query can be given a bad one, and what
    /// takes a body can meet a conflict. What names one thing, and a model's
    /// provider, can find it missing. A provider with models cannot be removed.
    pub open spec fn spec_errors(self) -> Seq<u16> {
        let bad = if self.lists() || self.takes_body() || self is DeleteProvider {
            seq![400u16]
        } else {
            seq![]
        };
        let missing = if self.names_one() || self is CreateModel {
            seq![404u16]
        } else {
            seq![]
        };
        let conflict = if self.takes_body() {
            seq![409u16]
        } else {
            seq![]
        };
        let unreadable = if self.lists() || self.takes_body() {
            seq![422u16]
        } else {
            seq![]
        };
        bad + seq![401u16, 403u16] + missing + conflict + unreadable + seq![500u16]
    }

    /// What the endpoint's listing can be filtered and ordered by.
    pub open spec fn spec_fields(self) -> Option<ListedFields> {
        match self {
            Endpoint::ListTenantModels => Some(ListedFields::Models),
            Endpoint::ListManagementModels => Some(ListedFields::Models),
            Endpoint::ListProviders => Some(ListedFields::Providers),
            _ => None,
        }
    }

    /// How the endpoint is called.
    pub fn method(self) -> (r: Method)
        ensures
            r == self.spec_method(),
    {
        match self {
            Endpoint::ListTenantModels => Method::Get,
            Endpoint::GetTenantModel => Method::Get,
            Endpoint::ListManagementModels => Method::Get,
            Endpoint::CreateModel => Method::Post,
            Endpoint::GetModel => Method::Get,
            Endpoint::UpdateModel => Method::Patch,
            Endpoint::DeleteModel => Method::Delete,
            Endpoint::ListProviders => Method::Get,
            Endpoint::CreateProvider => Method::Post,
            Endpoint::GetProvider => Method::Get,
            Endpoint::UpdateProvider => Method::Patch,
            Endpoint::DeleteProvider => Method::Delete,
        }
    }

    /// The endpoint's path.
    pub fn path(self) -> (r: &'static str)
        ensures
            r@ == self.spec_path(),
    {
        match self {
            Endpoint::ListTenantModels => "/model-registry/v1/models",
            Endpoint::GetTenantModel => "/model-registry/v1/models/{canonical_id}",
            Endpoint::ListManagementModels => "/model-registry/v1/admin/models",
            Endpoint::CreateModel => "/model-registry/v1/admin/models",
            Endpoint::GetModel => "/model-registry/v1/admin/models/{id}",
            Endpoint::UpdateModel => "/model-registry/v1/admin/models/{id}",
            Endpoint::DeleteModel => "/model-registry/v1/admin/models/{id}",
            Endpoint::ListProviders => "/model-registry/v1/admin/providers",
            Endpoint::CreateProvider => "/model-registry/v1/admin/providers",
            Endpoint::GetProvider => "/model-registry/v1/admin/providers/{id}",
            Endpoint::UpdateProvider => "/model-registry/v1/admin/providers/{id}",
            Endpoint::DeleteProvider => "/model-registry/v1/admin/providers/{id}",
        }
    }

    /// The endpoint's name among operations.
    pub fn operation_id(self) -> (r: &'static str)
        ensures
            r@ == self.spec_operation_id(),
    {
        match self {
            Endpoint::ListTenantModels => "model_registry.list_tenant_models",
            Endpoint::GetTenantModel => "model_registry.get_tenant_model",
            Endpoint::ListManagementModels => "model_registry.list_management_models",
            Endpoint::CreateModel => "model_registry.create_model",
            Endpoint::GetModel => "model_registry.get_model",
            Endpoint::UpdateModel => "model_registry.update_model",
            Endpoint::DeleteModel => "model_registry.delete_model",
            Endpoint::ListProviders => "model_registry.list_providers",
            Endpoint::CreateProvider => "model_registry.create_provider",
            Endpoint::GetProvider => "model_registry.get_provider",
            Endpoint::UpdateProvider => "model_registry.update_provider",
            Endpoint::DeleteProvider => "model_registry.delete_provider",
        }
    }

    /// The endpoint in a few words.
    pub fn summary(self) -> (r: &'static str)
        ensures
            r@ == self.spec_summary(),
    {
        match self {
            Endpoint::ListTenantModels => "List models available for eval",
            Endpoint::GetTenantModel => "Get a model by canonical ID",
            Endpoint::ListManagementModels => "List models with management flags",
            Endpoint::CreateModel => "Create a model",
            Endpoint::GetModel => "Get a model by ID",
            Endpoint::UpdateModel => "Update a model",
            Endpoint::DeleteModel => "Delete a model",
            Endpoint::ListProviders => "List providers",
            Endpoint::CreateProvider => "Create a provider",
            Endpoint::GetProvider => "Get a provider",
            Endpoint::UpdateProvider => "Update a provider",
            Endpoint::DeleteProvider => "Delete a provider",
        }
    }

    /// The endpoint in full.
    pub open spec fn spec_description(self) -> Seq<char> {
        match self {
            Endpoint::ListTenantModels =>
                "List models available for eval to the caller's tenant, with OData filtering. Returns only approved models on active, non-shadowed providers, and excludes deprecated/sunset models; `$filter` narrows within that set and never widens it. For the full catalog see GET /model-registry/v1/admin/models."@,
            Endpoint::GetTenantModel =>
                "Get a model by canonical ID (`{provider_slug}::{provider_model_id}`). Eval-facing: returns the model only when it is approved, live, and on an active winning provider; otherwise 404 (unknown or deprecated) or 403 (provider disabled, or model not approved). For the ungated management read see GET /model-registry/v1/admin/models/{id}."@,
            Endpoint::ListManagementModels =>
                "List every model in the caller's access scope, with no eval gates, plus the provider-visibility flags `provider_disabled` and `available_for_eval`. Intended for admin UIs."@,
            Endpoint::CreateModel =>
                "Manually register a new model in the catalog. `provider_id` is resolved within the caller's access scope; the created model belongs to that provider's tenant. The server derives `canonical_id` from the resolved provider's slug and the supplied `provider_model_id`."@,
            Endpoint::GetModel =>
                "Get a model by UUID with management semantics: no approval, lifecycle, or provider-status gates, resolved within the caller's access scope. The row may be pending, rejected, deprecated, or on a disabled provider; check GET /model-registry/v1/admin/models for `available_for_eval`."@,
            Endpoint::UpdateModel =>
                "Partially update a model (PATCH semantics), including approval status."@,
            Endpoint::DeleteModel => "Soft-delete a model by ID (marks it `deprecated`)"@,
            Endpoint::ListProviders =>
                "List the providers in the caller's access scope, with OData filtering"@,
            Endpoint::CreateProvider =>
                "Register a new provider for the caller's tenant. `slug` is the tenant-unique natural key and is immutable after creation; every later operation addresses the provider by the returned `id`."@,
            Endpoint::GetProvider => "Get a provider by ID within the caller's access scope"@,
            Endpoint::UpdateProvider =>
                "Partially update a provider (PATCH semantics). `slug` is immutable and ignored if present."@,
            Endpoint::DeleteProvider =>
                "Delete a provider by ID. Refused with 400 `failed_precondition` while any model still references it; soft-deleted (deprecated) models count."@,
        }
    }

    /// The endpoint in full.
    pub fn description(self) -> (r: &'static str)
        ensures
            r@ == self.spec_description(),
    {
        match self {
            Endpoint::ListTenantModels =>
                "List models available for eval to the caller's tenant, with OData filtering. Returns only approved models on active, non-shadowed providers, and excludes deprecated/sunset models; `$filter` narrows within that set and never widens it. For the full catalog see GET /model-registry/v1/admin/models.",
            Endpoint::GetTenantModel =>
                "Get a model by canonical ID (`{provider_slug}::{provider_model_id}`). Eval-facing: returns the model only when it is approved, live, and on an active winning provider; otherwise 404 (unknown or deprecated) or 403 (provider disabled, or model not approved). For the ungated management read see GET /model-registry/v1/admin/models/{id}.",
            Endpoint::ListManagementModels =>
                "List every model in the caller's access scope, with no eval gates, plus the provider-visibility flags `provider_disabled` and `available_for_eval`. Intended for admin UIs.",
            Endpoint::CreateModel =>
                "Manually register a new model in the catalog. `provider_id` is resolved within the caller's access scope; the created model belongs to that provider's tenant. The server derives `canonical_id` from the resolved provider's slug and the supplied `provider_model_id`.",
            Endpoint::GetModel =>
                "Get a model by UUID with management semantics: no approval, lifecycle, or provider-status gates, resolved within the caller's access scope. The row may be pending, rejected, deprecated, or on a disabled provider; check GET /model-registry/v1/admin/models for `available_for_eval`.",
            Endpoint::UpdateModel =>
                "Partially update a model (PATCH semantics), including approval status.",
            Endpoint::DeleteModel => "Soft-delete a model by ID (marks it `deprecated`)",
            Endpoint::ListProviders =>
                "List the providers in the caller's access scope, with OData filtering",
            Endpoint::CreateProvider =>
                "Register a new provider for the caller's tenant. `slug` is the tenant-unique natural key and is immutable after creation; every later operation addresses the provider by the returned `id`.",
            Endpoint::GetProvider => "Get a provider by ID within the caller's access scope",
            Endpoint::UpdateProvider =>
                "Partially update a provider (PATCH semantics). `slug` is immutable and ignored if present.",
            Endpoint::DeleteProvider =>
                "Delete a provider by ID. Refused with 400 `failed_precondition` while any model still references it; soft-deleted (deprecated) models count.",
        }
    }

    /// What a successful response holds.
    pub open spec fn spec_response(self) -> Seq<char> {
        match self {
            Endpoint::ListTenantModels => "Paginated model list"@,
            Endpoint::GetTenantModel => "Model details"@,
            Endpoint::ListManagementModels => "Paginated model management list"@,
            Endpoint::CreateModel => "Model created"@,
            Endpoint::GetModel => "Model details"@,
            Endpoint::UpdateModel => "Model updated"@,
            Endpoint::DeleteModel => "Model deleted"@,
            Endpoint::ListProviders => "Paginated provider list"@,
            Endpoint::CreateProvider => "Provider created"@,
            Endpoint::GetProvider => "Provider details"@,
            Endpoint::UpdateProvider => "Provider updated"@,
            Endpoint::DeleteProvider => "Provider deleted"@,
        }
    }

    /// What a successful response holds.
    pub fn response(self) -> (r: &'static str)
        ensures
            r@ == self.spec_response(),
    {
        match self {
            Endpoint::ListTenantModels => "Paginated model list",
            Endpoint::GetTenantModel => "Model details",
            Endpoint::ListManagementModels => "Paginated model management list",
            Endpoint::CreateModel => "Model created",
            Endpoint::GetModel => "Model details",
            Endpoint::UpdateModel => "Model updated",
            Endpoint::DeleteModel => "Model deleted",
            Endpoint::ListProviders => "Paginated provider list",
            Endpoint::CreateProvider => "Provider created",
            Endpoint::GetProvider => "Provider details",
            Endpoint::UpdateProvider => "Provider updated",
            Endpoint::DeleteProvider => "Provider deleted",
        }
    }

    /// The type of the body of a successful response. A removal is answered without one.
    pub open spec fn spec_response_schema(self) -> Option<BodySchema> {
        match self {
            Endpoint::ListTenantModels => Some(BodySchema::ModelList),
            Endpoint::GetTenantModel => Some(BodySchema::Model),
            Endpoint::ListManagementModels => Some(BodySchema::ModelManagementList),
            Endpoint::CreateModel => Some(BodySchema::Model),
            Endpoint::GetModel => Some(BodySchema::Model),
            Endpoint::UpdateModel => Some(BodySchema::Model),
            Endpoint::ListProviders => Some(BodySchema::ProviderList),
            Endpoint::CreateProvider => Some(BodySchema::Provider),
            Endpoint::GetProvider => Some(BodySchema::Provider),
            Endpoint::UpdateProvider => Some(BodySchema::Provider),
            _ => None,
        }
    }

    /// The type of the body that the endpoint takes.
    pub open spec fn spec_request_schema(self) -> Option<BodySchema> {
        match self {
            Endpoint::CreateModel => Some(BodySchema::CreateModelRequest),
            Endpoint::UpdateModel => Some(BodySchema::UpdateModelRequest),
            Endpoint::CreateProvider => Some(BodySchema::CreateProviderRequest),
            Endpoint::UpdateProvider => Some(BodySchema::UpdateProviderRequest),
            _ => None,
        }
    }

    /// What the body that the endpoint takes holds.
    pub open spec fn spec_request_description(self) -> Option<Seq<char>> {
        match self {
            Endpoint::CreateModel => Some("Model creation data"@),
            Endpoint::UpdateModel => Some("Model update data"@),
            Endpoint::CreateProvider => Some("Provider creation data"@),
            Endpoint::UpdateProvider => Some("Provider update data"@),
            _ => None,
        }
    }

    /// The type of the body of a successful response.
    pub fn response_schema(self) -> (r: Option<BodySchema>)
        ensures
            r == self.spec_response_schema(),
            r is None <==> self.spec_success() == 204,
    {
        match self {
            Endpoint::ListTenantModels => Some(BodySchema::ModelList),
            Endpoint::GetTenantModel => Some(BodySchema::Model),
            Endpoint::ListManagementModels => Some(BodySchema::ModelManagementList),
            Endpoint::CreateModel => Some(BodySchema::Model),
            Endpoint::GetModel => Some(BodySchema::Model),
            Endpoint::UpdateModel => Some(BodySchema::Model),
            Endpoint::ListProviders => Some(BodySchema::ProviderList),
            Endpoint::CreateProvider => Some(BodySchema::Provider),
            Endpoint::GetProvider => Some(BodySchema::Provider),
            Endpoint::UpdateProvider => Some(BodySchema::Provider),
            _ => None,
        }
    }

    /// The type of the body that the endpoint takes.
    pub fn request_schema(self) -> (r: Option<BodySchema>)
        ensures
            r == self.spec_request_schema(),
            r is Some <==> self.takes_body(),
    {
        match self {
            Endpoint::CreateModel => Some(BodySchema::CreateModelRequest),
            Endpoint::UpdateModel => Some(BodySchema::UpdateModelRequest),
            Endpoint::CreateProvider => Some(BodySchema::CreateProviderRequest),
            Endpoint::UpdateProvider => Some(BodySchema::UpdateProviderRequest),
            _ => None,
        }
    }

    /// What the body that the endpoint takes holds.
    pub fn request_description(self) -> (r: Option<&'static str>)
        ensures
            match r {
                Some(text) => self.spec_request_description() == Some(text@),
                None => self.spec_request_description() is None,
            },
            r is Some <==> self.takes_body(),
    {
        match self {
            Endpoint::CreateModel => Some("Model creation data"),
            Endpoint::UpdateModel => Some("Model update data"),
            Endpoint::CreateProvider => Some("Provider creation data"),
            Endpoint::UpdateProvider => Some("Provider update data"),
            _ => None,
        }
    }

    /// The parameter of the endpoint's URL, beside those of a listing: only the
    /// administration's listing of models has one.
    pub fn query_param(self) -> (r: Option<QueryParam>)
        ensures
            match r {
                Some(param) => {
                    &&& self is ListManagementModels
                    &&& param.name@ == "include_deprecated"@
                    &&& !param.required
                    &&& param.description@
                        == "Include deprecated and sunset models in the response (default: false)"@
                    &&& param.kind@ == "boolean"@
                },
                None => !(self is ListManagementModels),
            },
    {
        match self {
            Endpoint::ListManagementModels => Some(
                QueryParam {
                    name: "include_deprecated",
                    required: false,
                    description:
                        "Include deprecated and sunset models in the response (default: false)",
                    kind: "boolean",
                },
            ),
            _ => None,
        }
    }

    /// The group that the endpoint is shown in.
    pub fn tag(self) -> (r: &'static str)
        ensures
            r@ == if self.administers() {
                "Admin"@
            } else {
                "Models"@
            },
    {
        match self {
            Endpoint::ListTenantModels | Endpoint::GetTenantModel => "Models",
            _ => "Admin",
        }
    }

    /// The status of success.
    pub fn success(self) -> (r: u16)
        ensures
            r == self.spec_success(),
    {
        match self.method() {
            Method::Post => 201,
            Method::Delete => 204,
            _ => 200,
        }
    }

    /// The statuses of failure, in ascending order.
    pub fn errors(self) -> (r: Vec<u16>)
        ensures
            r@ == self.spec_errors(),
            forall|i: int, j: int| 0 <= i < j < r@.len() ==> r@[i] < r@[j],
    {
        let method = self.method();
        let lists = matches!(
            self,
            Endpoint::ListTenantModels | Endpoint::ListManagementModels | Endpoint::ListProviders
        );
        let body = matches!(method, Method::Post | Method::Patch);
        let mut r: Vec<u16> = Vec::new();
        if lists || body || self == Endpoint::DeleteProvider {
            r.push(400);
        }
        r.push(401);
        r.push(403);
        if (!lists && method != Method::Post) || self == Endpoint::CreateModel {
            r.push(404);
        }
        if body {
            r.push(409);
        }
        if lists || body {
            r.push(422);
        }
        r.push(500);
        assert(r@ =~= self.spec_errors());
        r
    }

    /// What the endpoint's listing can be filtered and ordered by.
    pub fn fields(self) -> (r: Option<ListedFields>)
        ensures
            r == self.spec_fields(),
    {
        match self {
            Endpoint::ListTenantModels => Some(ListedFields::Models),
            Endpoint::ListManagementModels => Some(ListedFields::Models),
            Endpoint::ListProviders => Some(ListedFields::Providers),
            _ => None,
        }
    }
}

/// Lets a caller into an endpoint. No endpoint is open: a caller that is not known is
/// refused with 401, whatever the endpoint, and one that is known goes on.
pub fn authenticate(e: Endpoint, caller: Option<SecurityContext>) -> (r: Result<
    SecurityContext,
    u16,
>)
    ensures
        match caller {
            Some(ctx) => r == Ok::<SecurityContext, u16>(ctx),
            None => r == Err::<SecurityContext, u16>(401) && e.spec_errors().contains(401),
        },
{
    proof {
        let errors = e.spec_errors();
        assert(errors[0] == 401 || errors[1] == 401);
    }
    match caller {
        Some(ctx) => Ok(ctx),
        None => Err(401),
    }
}

/// Every endpoint is registered, once, and there are twelve.
pub proof fn law_endpoints_complete(e: Endpoint)
    ensures
        ENDPOINTS@.len() == 12,
        ENDPOINTS@.contains(e),
        ENDPOINTS@.no_duplicates(),
{
    assert(ENDPOINTS@[0] == Endpoint::ListTenantModels);
    assert(ENDPOINTS@[1] == Endpoint::GetTenantModel);
    assert(ENDPOINTS@[2] == Endpoint::ListManagementModels);
    assert(ENDPOINTS@[3] == Endpoint::CreateModel);
    assert(ENDPOINTS@[4] == Endpoint::GetModel);
    assert(ENDPOINTS@[5] == Endpoint::UpdateModel);
    assert(ENDPOINTS@[6] == Endpoint::DeleteModel);
    assert(ENDPOINTS@[7] == Endpoint::ListProviders);
    assert(ENDPOINTS@[8] == Endpoint::CreateProvider);
    assert(ENDPOINTS@[9] == Endpoint::GetProvider);
    assert(ENDPOINTS@[10] == Endpoint::UpdateProvider);
    assert(ENDPOINTS@[11] == Endpoint::DeleteProvider);
}

/// No two endpoints share their method and their path.
pub proof fn law_routes_distinct(a: Endpoint, b: Endpoint)
    ensures
        a.spec_method() == b.spec_method() && a.spec_path() == b.spec_path() ==> a == b,
{
    reveal_strlit("/model-registry/v1/models");
    reveal_strlit("/model-registry/v1/admin/models");
    reveal_strlit("/model-registry/v1/admin/providers");
    reveal_strlit("/model-registry/v1/admin/models/{id}");
    reveal_strlit("/model-registry/v1/admin/providers/{id}");
    reveal_strlit("/model-registry/v1/models/{canonical_id}");
    assert("/model-registry/v1/models"@.len() == 25);
    assert("/model-registry/v1/admin/models"@.len() == 31);
    assert("/model-registry/v1/admin/providers"@.len() == 34);
    assert("/model-registry/v1/admin/models/{id}"@.len() == 36);
    assert("/model-registry/v1/admin/providers/{id}"@.len() == 39);
    assert("/model-registry/v1/models/{canonical_id}"@.len() == 40);
}

/// No two endpoints share their operation name.
pub proof fn law_operations_distinct(a: Endpoint, b: Endpoint)
    ensures
        a.spec_operation_id() == b.spec_operation_id() ==> a == b,
{
    reveal_strlit("model_registry.list_tenant_models");
    reveal_strlit("model_registry.get_tenant_model");
    reveal_strlit("model_registry.list_management_models");
    reveal_strlit("model_registry.create_model");
    reveal_strlit("model_registry.get_model");
    reveal_strlit("model_registry.update_model");
    reveal_strlit("model_registry.delete_model");
    reveal_strlit("model_registry.list_providers");
    reveal_strlit("model_registry.create_provider");
    reveal_strlit("model_registry.get_provider");
    reveal_strlit("model_registry.update_provider");
    reveal_strlit("model_registry.delete_provider");
    assert("model_registry.list_tenant_models"@.len() == 33 && "model_registry.list_tenant_models"@[15] == 'l');
    assert("model_registry.get_tenant_model"@.len() == 31 && "model_registry.get_tenant_model"@[15] == 'g');
    assert("model_registry.list_management_models"@.len() == 37 && "model_registry.list_management_models"@[15] == 'l');
    assert("model_registry.create_model"@.len() == 27 && "model_registry.create_model"@[15] == 'c');
    assert("model_registry.get_model"@.len() == 24 && "model_registry.get_model"@[15] == 'g');
    assert("model_registry.update_model"@.len() == 27 && "model_registry.update_model"@[15] == 'u');
    assert("model_registry.delete_model"@.len() == 27 && "model_registry.delete_model"@[15] == 'd');
    assert("model_registry.list_providers"@.len() == 29 && "model_registry.list_providers"@[15] == 'l');
    assert("model_registry.create_provider"@.len() == 30 && "model_registry.create_provider"@[15] == 'c');
    assert("model_registry.get_provider"@.len() == 27 && "model_registry.get_provider"@[15] == 'g');
    assert("model_registry.update_provider"@.len() == 30 && "model_registry.update_provider"@[15] == 'u');
    assert("model_registry.delete_provider"@.len() == 30 && "model_registry.delete_provider"@[15] == 'd');
}

/// The endpoints for administration are those under the administration's path.
pub proof fn law_zones(e: Endpoint)
    ensures
        e.administers() <==> "/model-registry/v1/admin/"@.is_prefix_of(e.spec_path()),
{
    reveal_strlit("/model-registry/v1/admin/");
    reveal_strlit("/model-registry/v1/models");
    reveal_strlit("/model-registry/v1/admin/models");
    reveal_strlit("/model-registry/v1/admin/providers");
    reveal_strlit("/model-registry/v1/admin/models/{id}");
    reveal_strlit("/model-registry/v1/admin/providers/{id}");
    reveal_strlit("/model-registry/v1/models/{canonical_id}");
    let zone = "/model-registry/v1/admin/"@;
    if e.administers() {
        assert(zone =~= e.spec_path().subrange(0, zone.len() as int));
    } else {
        assert(zone[19] == 'a');
        assert(e.spec_path()[19] == 'm');
    }
}

/// Outside administration nothing is changed: its endpoints only read.
pub proof fn law_members_only_read(e: Endpoint)
    ensures
        !e.administers() ==> e.spec_method() is Get,
{
}

/// A read of a model for use is refused as its endpoint says: with 404 where the
/// model is unknown or out of service, with 403 where its provider is disabled or it
/// is not approved.
pub proof fn law_read_refusals_as_documented(
    canonical_id: Seq<char>,
    winner: ChainProvider,
    model: ModelV1,
)
    ensures
        gate(canonical_id, winner, model) matches Some(e) ==> {
            &&& Endpoint::GetTenantModel.spec_errors().contains(e.to_problem().status())
            &&& e.to_problem().status() == if model.provider_id != winner.id
                || model.lifecycle_status.terminal() {
                404u16
            } else {
                403u16
            }
        },
{
    let errors = Endpoint::GetTenantModel.spec_errors();
    assert(errors[1] == 403 && errors[2] == 404);
}

} // verus!
