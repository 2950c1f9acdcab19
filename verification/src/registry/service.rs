//! The registry's service. Each method checks what it is given, and begins an
//! operation with the access decision that it needs.
use vstd::prelude::*;
use vstd::string::*;
use crate::ids::Uuid;
use crate::registry::config::{clamped, ModelRegistryConfig, PageLimits};
use crate::registry::error::{DomainError, DomainErrorView};
use crate::registry::evaluation::GetTenantModel;
use crate::registry::listing::ListTenantModels;
use crate::registry::management::ListTenantModelsManagement;
use crate::registry::model_writes::{
    check_creation, terminal_creation, CreateModel, CreateModelForSlug, UpdateModel,
};
use crate::registry::models::{
    CreateModelBySlug, CreateModelRequestV1, CreateProviderRequestV1, CreateProviderView,
    ModelInfoV1, ModelManagementV1, ModelV1, ProviderV1, UpdateModelRequestV1, UpdateProviderRequestV1,
};
use crate::registry::operation::{begins, Action, Request, ResourceType, Step};
use crate::registry::query::{ODataQuery, Page};
use crate::registry::security::SecurityContext;
use crate::registry::single_call::{
    CreateProvider, DeleteModel, DeleteProvider, GetModel, GetProvider, ListProviders,
    UpdateProvider,
};
use crate::registry::validate::{
    reject_select, select_error, slug_error, valid_slug, validate_discovery_interval, validate_name,
    validate_slug,
};
use crate::text::decimal_of;

verus! {

/// The registry's service.
#[derive(Clone, Copy, Debug)]
pub struct Service {
    pub config: ModelRegistryConfig,
}

/// Whether `step` waits in `state` for the given access decision.
pub open spec fn asks_leave<S, T>(
    step: Step<S, T>,
    state: S,
    ctx: SecurityContext,
    resource: ResourceType,
    action: Action,
    resource_id: Option<Uuid>,
) -> bool {
    step == (Step::<S, T>::Ask {
        state,
        request: Request::Authorize { ctx, resource, action, resource_id },
    })
}

/// Whether `limits` are the page bounds of the configuration.
pub open spec fn resolved_from(limits: PageLimits, config: ModelRegistryConfig) -> bool {
    &&& limits.max_limit() == clamped(config.max_page_size as int, 1, u32::MAX as int)
    &&& limits.default_limit() == clamped(
        config.default_page_size as int,
        1,
        limits.max_limit() as int,
    )
}

/// Whether `step` ends an operation with the error `e`.
pub open spec fn refuses<S, T>(step: Step<S, T>, e: DomainErrorView) -> bool {
    step matches Step::Done { result: Err(d) } && d@ == e
}

/// The error for a display name of the wrong length, if it is one.
pub open spec fn name_error(name: Seq<char>) -> Option<DomainErrorView> {
    if 1 <= name.len() <= 255 {
        None
    } else {
        Some(
            DomainErrorView::Validation {
                message: if name.len() == 0 {
                    "provider name cannot be empty"@
                } else {
                    "provider name must be at most 255 characters"@
                },
            },
        )
    }
}

/// The error for a discovery interval that cannot be stored, if it is one.
pub open spec fn interval_error(interval: Option<u32>) -> Option<DomainErrorView> {
    match interval {
        Some(v) => if v <= i32::MAX {
            None
        } else {
            Some(
                DomainErrorView::Validation {
                    message:
                        "discovery_interval_seconds must not exceed 2147483647 (i32::MAX), got "@
                        + decimal_of(v as nat),
                },
            )
        },
        None => None,
    }
}

/// Why a provider may not be registered as asked, if it may not: its slug, then its
/// name, then its discovery interval.
pub open spec fn creation_error(request: CreateProviderView) -> Option<DomainErrorView> {
    if !valid_slug(request.slug) {
        Some(slug_error(request.slug))
    } else if name_error(request.name) is Some {
        name_error(request.name)
    } else {
        interval_error(request.discovery_interval_seconds)
    }
}

/// Why a provider may not be changed as asked, if it may not: its new name, then
/// its new discovery interval.
pub open spec fn change_error(request: UpdateProviderRequestV1) -> Option<DomainErrorView> {
    if request.name is Some && name_error(request.name->0@) is Some {
        name_error(request.name->0@)
    } else if request.discovery_interval_seconds is Some {
        interval_error(request.discovery_interval_seconds->0)
    } else {
        None
    }
}

/// Checks a request to register a provider.
fn check_provider(request: &CreateProviderRequestV1) -> (r: Result<(), DomainError>)
    ensures
        match r {
            Ok(_) => creation_error(request@) is None,
            Err(e) => creation_error(request@) == Some(e@),
        },
{
    match validate_slug(request.slug()) {
        Ok(_) => {},
        Err(e) => {
            return Err(e);
        },
    }
    match validate_name(request.name()) {
        Ok(_) => {},
        Err(e) => {
            return Err(e);
        },
    }
    validate_discovery_interval(request.discovery_interval_seconds())
}

/// Checks a request to change a provider.
fn check_provider_change(request: &UpdateProviderRequestV1) -> (r: Result<(), DomainError>)
    ensures
        match r {
            Ok(_) => change_error(*request) is None,
            Err(e) => change_error(*request) == Some(e@),
        },
{
    if let Some(name) = &request.name {
        match validate_name(name.as_str()) {
            Ok(_) => {},
            Err(e) => {
                return Err(e);
            },
        }
    }
    match request.discovery_interval_seconds {
        Some(interval) => validate_discovery_interval(interval),
        None => Ok(()),
    }
}

impl Service {
    /// The service with the given configuration.
    pub fn new(config: ModelRegistryConfig) -> (r: Service)
        ensures
            r.config == config,
    {
        Service { config }
    }

    /// Begins to read a provider.
    pub fn get_provider(
        &self,
        ctx: &SecurityContext,
        id: Uuid,
    ) -> (step: Step<GetProvider, ProviderV1>)
        ensures
            begins(step),
            asks_leave(
                step,
                GetProvider::Authorizing { id },
                *ctx,
                ResourceType::Provider,
                Action::Get,
                Some(id),
            ),
    {
        Step::Ask {
            state: GetProvider::Authorizing { id },
            request: Request::Authorize {
                ctx: *ctx,
                resource: ResourceType::Provider,
                action: Action::Get,
                resource_id: Some(id),
            },
        }
    }

    /// Begins to list providers. A projection is refused before anything is asked.
    pub fn list_providers(
        &self,
        ctx: &SecurityContext,
        query: ODataQuery,
    ) -> (step: Step<ListProviders, Page<ProviderV1>>)
        ensures
            begins(step),
            if query.select is Some {
                refuses(step, select_error())
            } else {
                asks_leave(
                    step,
                    ListProviders::Authorizing { query },
                    *ctx,
                    ResourceType::Provider,
                    Action::List,
                    None,
                )
            },
    {
        match reject_select(&query) {
            Ok(_) => Step::Ask {
                state: ListProviders::Authorizing { query },
                request: Request::Authorize {
                    ctx: *ctx,
                    resource: ResourceType::Provider,
                    action: Action::List,
                    resource_id: None,
                },
            },
            Err(e) => Step::Done { result: Err(e) },
        }
    }

    /// Begins to register a provider, for the caller's own tenant. A request that
    /// breaks a rule is refused before anything is asked.
    pub fn create_provider(
        &self,
        ctx: &SecurityContext,
        request: CreateProviderRequestV1,
    ) -> (step: Step<CreateProvider, ProviderV1>)
        ensures
            begins(step),
            match creation_error(request@) {
                Some(e) => refuses(step, e),
                None => asks_leave(
                    step,
                    CreateProvider::Authorizing { tenant_id: ctx.subject_tenant_id, request },
                    *ctx,
                    ResourceType::Provider,
                    Action::Create,
                    None,
                ),
            },
    {
        match check_provider(&request) {
            Ok(_) => Step::Ask {
                state: CreateProvider::Authorizing { tenant_id: ctx.subject_tenant_id(), request },
                request: Request::Authorize {
                    ctx: *ctx,
                    resource: ResourceType::Provider,
                    action: Action::Create,
                    resource_id: None,
                },
            },
            Err(e) => Step::Done { result: Err(e) },
        }
    }

    /// Begins to change a provider. A request that breaks a rule is refused before
    /// anything is asked.
    pub fn update_provider(
        &self,
        ctx: &SecurityContext,
        id: Uuid,
        request: UpdateProviderRequestV1,
    ) -> (step: Step<UpdateProvider, ProviderV1>)
        ensures
            begins(step),
            match change_error(request) {
                Some(e) => refuses(step, e),
                None => asks_leave(
                    step,
                    UpdateProvider::Authorizing { id, request },
                    *ctx,
                    ResourceType::Provider,
                    Action::Update,
                    Some(id),
                ),
            },
    {
        match check_provider_change(&request) {
            Ok(_) => Step::Ask {
                state: UpdateProvider::Authorizing { id, request },
                request: Request::Authorize {
                    ctx: *ctx,
                    resource: ResourceType::Provider,
                    action: Action::Update,
                    resource_id: Some(id),
                },
            },
            Err(e) => Step::Done { result: Err(e) },
        }
    }

    /// Begins to remove a provider.
    pub fn delete_provider(
        &self,
        ctx: &SecurityContext,
        id: Uuid,
    ) -> (step: Step<DeleteProvider, ()>)
        ensures
            begins(step),
            asks_leave(
                step,
                DeleteProvider::Authorizing { id },
                *ctx,
                ResourceType::Provider,
                Action::Delete,
                Some(id),
            ),
    {
        Step::Ask {
            state: DeleteProvider::Authorizing { id },
            request: Request::Authorize {
                ctx: *ctx,
                resource: ResourceType::Provider,
                action: Action::Delete,
                resource_id: Some(id),
            },
        }
    }

    /// Begins to read a model for use.
    pub fn get_tenant_model(
        &self,
        ctx: &SecurityContext,
        canonical_id: &str,
    ) -> (step: Step<GetTenantModel, ModelV1>)
        ensures
            begins(step),
            step matches Step::Ask {
                state: GetTenantModel::Authorizing { ctx: kept, canonical_id: asked },
                request: Request::Authorize {
                    ctx: asker,
                    resource: ResourceType::Model,
                    action: Action::Get,
                    resource_id: None,
                },
            } && asker == *ctx && kept == *ctx && asked@ == canonical_id@,
    {
        Step::Ask {
            state: GetTenantModel::Authorizing { ctx: *ctx, canonical_id: canonical_id.to_owned() },
            request: Request::Authorize {
                ctx: *ctx,
                resource: ResourceType::Model,
                action: Action::Get,
                resource_id: None,
            },
        }
    }

    /// Begins to list the models that the caller's tenant may use. A projection is
    /// refused before anything is asked.
    pub fn list_tenant_models(
        &self,
        ctx: &SecurityContext,
        query: ODataQuery,
    ) -> (step: Step<ListTenantModels, Page<ModelV1>>)
        ensures
            begins(step),
            if query.select is Some {
                refuses(step, select_error())
            } else {
                step matches Step::Ask {
                    state: ListTenantModels::Authorizing { ctx: kept, query: asked, limits },
                    request: Request::Authorize {
                        ctx: asker,
                        resource: ResourceType::Model,
                        action: Action::List,
                        resource_id: None,
                    },
                } && asker == *ctx && kept == *ctx && asked == query && resolved_from(
                    limits,
                    self.config,
                )
            },
    {
        match reject_select(&query) {
            Ok(_) => Step::Ask {
                state: ListTenantModels::Authorizing {
                    ctx: *ctx,
                    query,
                    limits: self.config.page_limits(),
                },
                request: Request::Authorize {
                    ctx: *ctx,
                    resource: ResourceType::Model,
                    action: Action::List,
                    resource_id: None,
                },
            },
            Err(e) => Step::Done { result: Err(e) },
        }
    }

    /// Begins to list models for administration. A projection is refused before
    /// anything is asked.
    pub fn list_tenant_models_management(
        &self,
        ctx: &SecurityContext,
        query: ODataQuery,
        include_deprecated: bool,
    ) -> (step: Step<ListTenantModelsManagement, Page<ModelManagementV1>>)
        ensures
            begins(step),
            if query.select is Some {
                refuses(step, select_error())
            } else {
                asks_leave(
                    step,
                    ListTenantModelsManagement::Authorizing { query, include_deprecated },
                    *ctx,
                    ResourceType::Model,
                    Action::ListManagement,
                    None,
                )
            },
    {
        match reject_select(&query) {
            Ok(_) => Step::Ask {
                state: ListTenantModelsManagement::Authorizing { query, include_deprecated },
                request: Request::Authorize {
                    ctx: *ctx,
                    resource: ResourceType::Model,
                    action: Action::ListManagement,
                    resource_id: None,
                },
            },
            Err(e) => Step::Done { result: Err(e) },
        }
    }

    /// Begins to read a model for administration.
    pub fn get_model(&self, ctx: &SecurityContext, id: Uuid) -> (step: Step<GetModel, ModelV1>)
        ensures
            begins(step),
            asks_leave(
                step,
                GetModel::Authorizing { id },
                *ctx,
                ResourceType::Model,
                Action::GetManagement,
                Some(id),
            ),
    {
        Step::Ask {
            state: GetModel::Authorizing { id },
            request: Request::Authorize {
                ctx: *ctx,
                resource: ResourceType::Model,
                action: Action::GetManagement,
                resource_id: Some(id),
            },
        }
    }

    /// Begins to register a model. One whose life would have ended already is
    /// refused before anything is asked.
    pub fn create_model(
        &self,
        ctx: &SecurityContext,
        request: CreateModelRequestV1,
    ) -> (step: Step<CreateModel, ModelV1>)
        ensures
            begins(step),
            if request.lifecycle_status.terminal() {
                refuses(step, terminal_creation(request.lifecycle_status))
            } else {
                asks_leave(
                    step,
                    CreateModel::AuthorizingModel { ctx: *ctx, request },
                    *ctx,
                    ResourceType::Model,
                    Action::Create,
                    None,
                )
            },
    {
        match check_creation(request.lifecycle_status) {
            Ok(_) => Step::Ask {
                state: CreateModel::AuthorizingModel { ctx: *ctx, request },
                request: Request::Authorize {
                    ctx: *ctx,
                    resource: ResourceType::Model,
                    action: Action::Create,
                    resource_id: None,
                },
            },
            Err(e) => Step::Done { result: Err(e) },
        }
    }

    /// Begins to register a model of the provider that a slug names. One whose life
    /// would have ended already is refused before anything is asked.
    pub fn create_model_by_slug(
        &self,
        ctx: &SecurityContext,
        request: CreateModelBySlug<ModelInfoV1>,
    ) -> (step: Step<CreateModelForSlug, ModelV1>)
        ensures
            begins(step),
            if request.lifecycle_status.terminal() {
                refuses(step, terminal_creation(request.lifecycle_status))
            } else {
                asks_leave(
                    step,
                    CreateModelForSlug::AuthorizingModel { ctx: *ctx, request },
                    *ctx,
                    ResourceType::Model,
                    Action::Create,
                    None,
                )
            },
    {
        match check_creation(request.lifecycle_status) {
            Ok(_) => Step::Ask {
                state: CreateModelForSlug::AuthorizingModel { ctx: *ctx, request },
                request: Request::Authorize {
                    ctx: *ctx,
                    resource: ResourceType::Model,
                    action: Action::Create,
                    resource_id: None,
                },
            },
            Err(e) => Step::Done { result: Err(e) },
        }
    }

    /// Begins to change a model.
    pub fn update_model(
        &self,
        ctx: &SecurityContext,
        id: Uuid,
        request: UpdateModelRequestV1,
    ) -> (step: Step<UpdateModel, ModelV1>)
        ensures
            begins(step),
            asks_leave(
                step,
                UpdateModel::Authorizing { id, request },
                *ctx,
                ResourceType::Model,
                Action::Update,
                Some(id),
            ),
    {
        Step::Ask {
            state: UpdateModel::Authorizing { id, request },
            request: Request::Authorize {
                ctx: *ctx,
                resource: ResourceType::Model,
                action: Action::Update,
                resource_id: Some(id),
            },
        }
    }

    /// Begins to take a model out of service.
    pub fn delete_model(&self, ctx: &SecurityContext, id: Uuid) -> (step: Step<DeleteModel, ()>)
        ensures
            begins(step),
            asks_leave(
                step,
                DeleteModel::Authorizing { id },
                *ctx,
                ResourceType::Model,
                Action::Delete,
                Some(id),
            ),
    {
        Step::Ask {
            state: DeleteModel::Authorizing { id },
            request: Request::Authorize {
                ctx: *ctx,
                resource: ResourceType::Model,
                action: Action::Delete,
                resource_id: Some(id),
            },
        }
    }
}

} // verus!
