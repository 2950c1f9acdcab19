//! Registering and changing models.
use vstd::prelude::*;
use crate::ids::Uuid;
use crate::text::{join3, same_text};
use crate::registry::error::{enforcer_to_domain, DomainError, DomainErrorView};
use crate::registry::models::{
    CreateModelBySlug, CreateModelRequestV1, LifecycleStatus, ModelInfoV1, ModelV1, ProviderStatus,
    ProviderV1, UpdateModelRequestV1,
};
use crate::registry::operation::{Action, Operation, Reply, Request, RequestKind, ResourceType, Step};
use crate::registry::security::{AccessScope, SecurityContext};
use crate::registry::validate::validate_lifecycle_transition;

verus! {

/// The error for a model that is to be registered with its life already ended.
pub open spec fn terminal_creation(status: LifecycleStatus) -> DomainErrorView {
    DomainErrorView::Validation {
        message: "cannot create a model with terminal lifecycle status `"@ + status.debug_name()
            + "`"@,
    }
}

/// Checks that a model may be registered with the given lifecycle status.
pub fn check_creation(status: LifecycleStatus) -> (r: Result<(), DomainError>)
    ensures
        r is Ok <==> !status.terminal(),
        r matches Err(e) ==> e@ == terminal_creation(status),
{
    if status.is_terminal() {
        return Err(
            DomainError::Validation {
                message: join3(
                    "cannot create a model with terminal lifecycle status `",
                    status.name(),
                    "`",
                ),
            },
        );
    }
    Ok(())
}

/// Registers a model of a provider. One decision grants the writing of the model,
/// a second one the reading of its provider.
#[derive(Debug)]
pub enum CreateModel {
    /// Waits for the decision on the model.
    AuthorizingModel { ctx: SecurityContext, request: CreateModelRequestV1 },
    /// Waits for the decision on the provider.
    AuthorizingProvider { model_scope: AccessScope, request: CreateModelRequestV1 },
    /// Waits for the provider.
    FindingProvider { model_scope: AccessScope, request: CreateModelRequestV1 },
    /// Waits for the new model.
    Creating,
}

impl Operation for CreateModel {
    type Output = ModelV1;

    open spec fn pending(self) -> RequestKind {
        match self {
            CreateModel::AuthorizingModel { .. } => RequestKind::AuthorizeModel,
            CreateModel::AuthorizingProvider { .. } => RequestKind::AuthorizeProvider,
            CreateModel::FindingProvider { .. } => RequestKind::FindProvider,
            CreateModel::Creating => RequestKind::CreateModel,
        }
    }

    open spec fn resolves_chain() -> bool {
        false
    }

    open spec fn leads_to(self, reply: Reply, step: Step<Self, ModelV1>) -> bool {
        match (self, reply) {
            (CreateModel::AuthorizingModel { ctx, request }, Reply::Scope(Ok(model_scope))) => step
                == (Step::<CreateModel, ModelV1>::Ask {
                state: CreateModel::AuthorizingProvider { model_scope, request },
                request: Request::Authorize {
                    ctx,
                    resource: ResourceType::Provider,
                    action: Action::Get,
                    resource_id: Some(request.provider_id),
                },
            }),
            (
                CreateModel::AuthorizingProvider { model_scope, request },
                Reply::Scope(Ok(scope)),
            ) => step == (Step::<CreateModel, ModelV1>::Ask {
                state: CreateModel::FindingProvider { model_scope, request },
                request: Request::FindProvider { scope, id: request.provider_id },
            }),
            (_, Reply::Scope(Err(e))) => step matches Step::Done { result: Err(d) } && d@
                == enforcer_to_domain(e),
            (
                CreateModel::FindingProvider { model_scope, request },
                Reply::Provider(Ok(provider)),
            ) => if provider.status is Active {
                step == (Step::<CreateModel, ModelV1>::Ask {
                    state: CreateModel::Creating,
                    request: Request::CreateModel {
                        scope: model_scope,
                        tenant_id: provider.tenant_id,
                        provider,
                        request,
                    },
                })
            } else {
                step matches Step::Done { result: Err(d) } && d@ == (
                DomainErrorView::ProviderDisabled { id: provider.id })
            },
            (CreateModel::FindingProvider { .. }, Reply::Provider(Err(e))) => step == (Step::<
                CreateModel,
                ModelV1,
            >::Done { result: Err(e) }),
            (CreateModel::Creating, Reply::Model(result)) => step == (Step::<
                CreateModel,
                ModelV1,
            >::Done { result }),
            _ => false,
        }
    }

    fn awaits(&self) -> (kind: RequestKind) {
        match self {
            CreateModel::AuthorizingModel { .. } => RequestKind::AuthorizeModel,
            CreateModel::AuthorizingProvider { .. } => RequestKind::AuthorizeProvider,
            CreateModel::FindingProvider { .. } => RequestKind::FindProvider,
            CreateModel::Creating => RequestKind::CreateModel,
        }
    }

    fn resume(self, reply: Reply) -> (step: Step<Self, ModelV1>) {
        match (self, reply) {
            (CreateModel::AuthorizingModel { ctx, request }, Reply::Scope(decision)) => match decision {
                Ok(model_scope) => {
                    let provider_id = request.provider_id;
                    Step::Ask {
                        state: CreateModel::AuthorizingProvider { model_scope, request },
                        request: Request::Authorize {
                    ctx,
                            resource: ResourceType::Provider,
                            action: Action::Get,
                            resource_id: Some(provider_id),
                        },
                    }
                },
                Err(e) => Step::Done { result: Err(DomainError::from(e)) },
            },
            (
                CreateModel::AuthorizingProvider { model_scope, request },
                Reply::Scope(decision),
            ) => match decision {
                Ok(scope) => {
                    let id = request.provider_id;
                    Step::Ask {
                        state: CreateModel::FindingProvider { model_scope, request },
                        request: Request::FindProvider { scope, id },
                    }
                },
                Err(e) => Step::Done { result: Err(DomainError::from(e)) },
            },
            (
                CreateModel::FindingProvider { model_scope, request },
                Reply::Provider(found),
            ) => match found {
                Ok(provider) => if provider.status == ProviderStatus::Active {
                    let tenant_id = provider.tenant_id;
                    Step::Ask {
                        state: CreateModel::Creating,
                        request: Request::CreateModel {
                            scope: model_scope,
                            tenant_id,
                            provider,
                            request,
                        },
                    }
                } else {
                    Step::Done { result: Err(DomainError::provider_disabled(provider.id)) }
                },
                Err(e) => Step::Done { result: Err(e) },
            },
            (CreateModel::Creating, Reply::Model(result)) => Step::Done { result },
            _ => vstd::pervasive::unreached(),
        }
    }

    proof fn law_step(self, reply: Reply, step: Step<Self, ModelV1>) {
    }
}

/// Whether the row at `i` is there and has the slug.
pub open spec fn has_slug(rows: Seq<ProviderV1>, slug: Seq<char>, i: int) -> bool {
    0 <= i < rows.len() && rows[i].slug@ == slug
}

/// Whether the row at `i` may be what a caller of `tenant` means by `slug`: a row with
/// the slug that the caller's own tenant owns, and where there is none, any row with
/// the slug.
pub open spec fn may_mean(rows: Seq<ProviderV1>, slug: Seq<char>, tenant: Uuid, i: int) -> bool {
    has_slug(rows, slug, i) && (rows[i].tenant_id == tenant || forall|j: int|
        has_slug(rows, slug, j) ==> (#[trigger] rows[j]).tenant_id != tenant)
}

/// Whether the row at `i`, and no other, may be what a caller means by `slug`.
pub open spec fn meant_by(rows: Seq<ProviderV1>, slug: Seq<char>, tenant: Uuid, i: int) -> bool {
    may_mean(rows, slug, tenant, i) && forall|j: int|
        may_mean(rows, slug, tenant, j) ==> j == i
}

/// The error for a slug that names several providers.
pub open spec fn ambiguous_slug(slug: Seq<char>) -> DomainErrorView {
    DomainErrorView::Validation {
        message: "provider slug `"@ + slug + "` names several providers"@,
    }
}

/// Why a slug names no provider, if it names none: nothing has it, or several rows do
/// and none of them is meant before the others.
pub open spec fn slug_refusal(rows: Seq<ProviderV1>, slug: Seq<char>, tenant: Uuid) -> Option<
    DomainErrorView,
> {
    if forall|i: int| !has_slug(rows, slug, i) {
        Some(DomainErrorView::ProviderNotFoundBySlug { slug })
    } else if exists|i: int| meant_by(rows, slug, tenant, i) {
        None
    } else {
        Some(ambiguous_slug(slug))
    }
}

/// The provider that a caller of `tenant` means by `slug`. The order of the rows plays
/// no part.
pub fn provider_meant(rows: Vec<ProviderV1>, slug: &str, tenant: Uuid) -> (r: Result<
    ProviderV1,
    DomainError,
>)
    ensures
        match r {
            Ok(provider) => slug_refusal(rows@, slug@, tenant) is None && exists|i: int|
                meant_by(rows@, slug@, tenant, i) && provider == #[trigger] rows@[i],
            Err(e) => slug_refusal(rows@, slug@, tenant) == Some(e@),
        },
{
    let ghost all = rows@;
    let mut left = rows;
    let mut own: Option<usize> = None;
    let mut second_own: Option<usize> = None;
    let mut any: Option<usize> = None;
    let mut second_any: Option<usize> = None;
    let mut i: usize = 0;
    while i < left.len()
        invariant
            i <= left.len(),
            left@ == all,
            all == rows@,
            first_two(all, slug@, Some(tenant), i as int, own, second_own),
            first_two(all, slug@, None, i as int, any, second_any),
        decreases left.len() - i,
    {
        if same_text(left[i].slug.as_str(), slug) {
            if any.is_none() {
                any = Some(i);
            } else if second_any.is_none() {
                second_any = Some(i);
            }
            if left[i].tenant_id == tenant {
                if own.is_none() {
                    own = Some(i);
                } else if second_own.is_none() {
                    second_own = Some(i);
                }
            }
        }
        i += 1;
    }
    proof {
        if own.is_none() {
            assert forall|j: int| has_slug(all, slug@, j) implies (#[trigger] all[j]).tenant_id
                != tenant by {
                assert(!counts(all, slug@, Some(tenant), j));
            }
        }
    }
    let (found, second) = if own.is_some() {
        (own, second_own)
    } else {
        (any, second_any)
    };
    match found {
        None => {
            assert forall|j: int| !has_slug(all, slug@, j) by {
                assert(!counts(all, slug@, None, j));
            }
            Err(DomainError::provider_not_found_by_slug(slug))
        },
        Some(f) => {
            assert(has_slug(all, slug@, f as int));
            match second {
                Some(g) => {
                    proof {
                        assert(has_slug(all, slug@, g as int));
                        assert(may_mean(all, slug@, tenant, f as int));
                        assert(may_mean(all, slug@, tenant, g as int));
                        assert forall|k: int| !meant_by(all, slug@, tenant, k) by {
                            if meant_by(all, slug@, tenant, k) {
                                assert(f as int == k && g as int == k);
                            }
                        }
                    }
                    Err(
                        DomainError::Validation {
                            message: join3("provider slug `", slug, "` names several providers"),
                        },
                    )
                },
                None => {
                    proof {
                        assert forall|j: int| may_mean(all, slug@, tenant, j) implies j == f by {
                            if own.is_some() {
                                assert(all[f as int].tenant_id == tenant);
                                assert(all[j].tenant_id == tenant);
                                assert(counts(all, slug@, Some(tenant), j));
                            } else {
                                assert(counts(all, slug@, None, j));
                            }
                        }
                        assert(meant_by(all, slug@, tenant, f as int));
                    }
                    Ok(left.swap_remove(f))
                },
            }
        },
    }
}

/// Whether the row at `i` has the slug and, where a tenant is given, that owner.
spec fn counts(rows: Seq<ProviderV1>, slug: Seq<char>, owner: Option<Uuid>, i: int) -> bool {
    has_slug(rows, slug, i) && (owner is Some ==> rows[i].tenant_id == owner->0)
}

/// Whether `first` and `second` are two of the first `n` rows that count, as far as
/// there are two.
spec fn first_two(
    rows: Seq<ProviderV1>,
    slug: Seq<char>,
    owner: Option<Uuid>,
    n: int,
    first: Option<usize>,
    second: Option<usize>,
) -> bool {
    match (first, second) {
        (None, None) => forall|j: int| 0 <= j < n ==> !counts(rows, slug, owner, j),
        (Some(f), None) => f < n && counts(rows, slug, owner, f as int) && forall|j: int|
            0 <= j < n && counts(rows, slug, owner, j) ==> j == f,
        (Some(f), Some(g)) => f < n && g < n && f != g && counts(rows, slug, owner, f as int)
            && counts(rows, slug, owner, g as int),
        (None, Some(_)) => false,
    }
}

/// Registers a model of the provider that a slug names. The decisions and the rules
/// are those of [`CreateModel`]; only the provider is looked up by its slug.
#[derive(Debug)]
pub enum CreateModelForSlug {
    /// Waits for the decision on the model.
    AuthorizingModel { ctx: SecurityContext, request: CreateModelBySlug<ModelInfoV1> },
    /// Waits for the decision on the provider.
    AuthorizingProvider {
        ctx: SecurityContext,
        model_scope: AccessScope,
        request: CreateModelBySlug<ModelInfoV1>,
    },
    /// Waits for the providers with the slug.
    FindingProviders {
        ctx: SecurityContext,
        model_scope: AccessScope,
        request: CreateModelBySlug<ModelInfoV1>,
    },
    /// Waits for the new model.
    Creating,
}

/// Where the registration goes once the providers with the slug are known: to the
/// model, for the one that the caller means, in that provider's tenant. Where there
/// is none, or more than one, or it is disabled, nothing is written.
pub open spec fn slug_rows_known(
    tenant: Uuid,
    model_scope: AccessScope,
    request: CreateModelBySlug<ModelInfoV1>,
    rows: Seq<ProviderV1>,
    step: Step<CreateModelForSlug, ModelV1>,
) -> bool {
    if slug_refusal(rows, request.provider_slug@, tenant) is Some {
        step matches Step::Done { result: Err(d) } && Some(d@) == slug_refusal(
            rows,
            request.provider_slug@,
            tenant,
        )
    } else {
        exists|i: int|
            meant_by(rows, request.provider_slug@, tenant, i) && {
                let provider = #[trigger] rows[i];
                if provider.status is Active {
                    step == (Step::<CreateModelForSlug, ModelV1>::Ask {
                        state: CreateModelForSlug::Creating,
                        request: Request::CreateModel {
                            scope: model_scope,
                            tenant_id: provider.tenant_id,
                            provider,
                            request: CreateModelRequestV1 {
                                provider_id: provider.id,
                                lifecycle_status: request.lifecycle_status,
                                approval_status: request.approval_status,
                                info: request.info,
                            },
                        },
                    })
                } else {
                    step matches Step::Done { result: Err(d) } && d@ == (
                    DomainErrorView::ProviderDisabled { id: provider.id })
                }
            }
    }
}

impl CreateModelForSlug {
    /// Takes the registration on once the providers with the slug are known.
    fn with_providers(
        tenant: Uuid,
        model_scope: AccessScope,
        request: CreateModelBySlug<ModelInfoV1>,
        rows: Vec<ProviderV1>,
    ) -> (step: Step<CreateModelForSlug, ModelV1>)
        ensures
            slug_rows_known(tenant, model_scope, request, rows@, step),
    {
        match provider_meant(rows, request.provider_slug.as_str(), tenant) {
            Err(e) => Step::Done { result: Err(e) },
            Ok(provider) => {
                if provider.status == ProviderStatus::Active {
                    let tenant_id = provider.tenant_id;
                    let request = request.for_provider(provider.id);
                    Step::Ask {
                        state: CreateModelForSlug::Creating,
                        request: Request::CreateModel {
                            scope: model_scope,
                            tenant_id,
                            provider,
                            request,
                        },
                    }
                } else {
                    Step::Done { result: Err(DomainError::provider_disabled(provider.id)) }
                }
            },
        }
    }
}

impl Operation for CreateModelForSlug {
    type Output = ModelV1;

    open spec fn pending(self) -> RequestKind {
        match self {
            CreateModelForSlug::AuthorizingModel { .. } => RequestKind::AuthorizeModel,
            CreateModelForSlug::AuthorizingProvider { .. } => RequestKind::AuthorizeProvider,
            CreateModelForSlug::FindingProviders { .. } => RequestKind::FindProvidersBySlug,
            CreateModelForSlug::Creating => RequestKind::CreateModel,
        }
    }

    open spec fn resolves_chain() -> bool {
        false
    }

    open spec fn leads_to(self, reply: Reply, step: Step<Self, ModelV1>) -> bool {
        match (self, reply) {
            (
                CreateModelForSlug::AuthorizingModel { ctx, request },
                Reply::Scope(Ok(model_scope)),
            ) => step == (Step::<CreateModelForSlug, ModelV1>::Ask {
                state: CreateModelForSlug::AuthorizingProvider { ctx, model_scope, request },
                request: Request::Authorize {
                    ctx,
                    resource: ResourceType::Provider,
                    action: Action::Get,
                    resource_id: None,
                },
            }),
            (
                CreateModelForSlug::AuthorizingProvider { ctx, model_scope, request },
                Reply::Scope(Ok(provider_scope)),
            ) => step == (Step::<CreateModelForSlug, ModelV1>::Ask {
                state: CreateModelForSlug::FindingProviders { ctx, model_scope, request },
                request: Request::FindProvidersBySlug {
                    scope: provider_scope,
                    slug: request.provider_slug,
                },
            }),
            (_, Reply::Scope(Err(e))) => step matches Step::Done { result: Err(d) } && d@
                == enforcer_to_domain(e),
            (
                CreateModelForSlug::FindingProviders { ctx, model_scope, request },
                Reply::Providers(Ok(rows)),
            ) => slug_rows_known(ctx.subject_tenant_id, model_scope, request, rows@, step),
            (CreateModelForSlug::FindingProviders { .. }, Reply::Providers(Err(e))) => step
                == (Step::<CreateModelForSlug, ModelV1>::Done { result: Err(e) }),
            (CreateModelForSlug::Creating, Reply::Model(result)) => step == (Step::<
                CreateModelForSlug,
                ModelV1,
            >::Done { result }),
            _ => false,
        }
    }

    fn awaits(&self) -> (kind: RequestKind) {
        match self {
            CreateModelForSlug::AuthorizingModel { .. } => RequestKind::AuthorizeModel,
            CreateModelForSlug::AuthorizingProvider { .. } => RequestKind::AuthorizeProvider,
            CreateModelForSlug::FindingProviders { .. } => RequestKind::FindProvidersBySlug,
            CreateModelForSlug::Creating => RequestKind::CreateModel,
        }
    }

    fn resume(self, reply: Reply) -> (step: Step<Self, ModelV1>) {
        match (self, reply) {
            (
                CreateModelForSlug::AuthorizingModel { ctx, request },
                Reply::Scope(decision),
            ) => match decision {
                Ok(model_scope) => Step::Ask {
                    state: CreateModelForSlug::AuthorizingProvider { ctx, model_scope, request },
                    request: Request::Authorize {
                        ctx,
                        resource: ResourceType::Provider,
                        action: Action::Get,
                        resource_id: None,
                    },
                },
                Err(e) => Step::Done { result: Err(DomainError::from(e)) },
            },
            (
                CreateModelForSlug::AuthorizingProvider { ctx, model_scope, request },
                Reply::Scope(decision),
            ) => match decision {
                Ok(scope) => {
                    let slug = request.provider_slug.clone();
                    Step::Ask {
                        state: CreateModelForSlug::FindingProviders { ctx, model_scope, request },
                        request: Request::FindProvidersBySlug { scope, slug },
                    }
                },
                Err(e) => Step::Done { result: Err(DomainError::from(e)) },
            },
            (
                CreateModelForSlug::FindingProviders { ctx, model_scope, request },
                Reply::Providers(found),
            ) => match found {
                Ok(rows) => CreateModelForSlug::with_providers(
                    ctx.subject_tenant_id(),
                    model_scope,
                    request,
                    rows,
                ),
                Err(e) => Step::Done { result: Err(e) },
            },
            (CreateModelForSlug::Creating, Reply::Model(result)) => Step::Done { result },
            _ => vstd::pervasive::unreached(),
        }
    }

    proof fn law_step(self, reply: Reply, step: Step<Self, ModelV1>) {
    }
}

/// Why a model with the given lifecycle status may not be changed as asked, if it
/// may not: a model whose life has ended keeps its lifecycle and its approval.
pub open spec fn update_refusal(
    status: LifecycleStatus,
    request: UpdateModelRequestV1,
) -> Option<DomainErrorView> {
    if !status.terminal() {
        None
    } else if request.lifecycle_status is Some {
        Some(
            DomainErrorView::InvalidTransition {
                detail: "cannot transition from terminal status "@ + status.debug_name() + " to "@
                    + request.lifecycle_status->0.debug_name(),
            },
        )
    } else if request.approval_status is Some {
        Some(
            DomainErrorView::InvalidTransition {
                detail: "cannot modify approval status on a deprecated or sunset model"@,
            },
        )
    } else {
        None
    }
}

/// Checks that a model with the given lifecycle status may be changed as asked.
pub fn check_update(status: LifecycleStatus, request: &UpdateModelRequestV1) -> (r: Result<
    (),
    DomainError,
>)
    ensures
        match r {
            Ok(_) => update_refusal(status, *request) is None,
            Err(e) => update_refusal(status, *request) == Some(e@),
        },
{
    if let Some(to) = request.lifecycle_status {
        match validate_lifecycle_transition(status, to) {
            Ok(_) => {},
            Err(e) => {
                return Err(e);
            },
        }
    }
    if request.approval_status.is_some() && status.is_terminal() {
        return Err(
            DomainError::invalid_transition(
                "cannot modify approval status on a deprecated or sunset model",
            ),
        );
    }
    Ok(())
}

/// Changes a model. The model is read first, under the same scope, to see whether
/// its state allows the change.
#[derive(Debug)]
pub enum UpdateModel {
    /// Waits for the access decision.
    Authorizing { id: Uuid, request: UpdateModelRequestV1 },
    /// Waits for the model as it is.
    Reading { scope: AccessScope, id: Uuid, request: UpdateModelRequestV1 },
    /// Waits for the changed model.
    Updating,
}

impl Operation for UpdateModel {
    type Output = ModelV1;

    open spec fn pending(self) -> RequestKind {
        match self {
            UpdateModel::Authorizing { .. } => RequestKind::AuthorizeModel,
            UpdateModel::Reading { .. } => RequestKind::FindModel,
            UpdateModel::Updating => RequestKind::UpdateModel,
        }
    }

    open spec fn resolves_chain() -> bool {
        false
    }

    open spec fn leads_to(self, reply: Reply, step: Step<Self, ModelV1>) -> bool {
        match (self, reply) {
            (UpdateModel::Authorizing { id, request }, Reply::Scope(Ok(scope))) => {
                &&& step matches Step::Ask {
                    state: UpdateModel::Reading { scope: kept, id: kept_id, request: kept_request },
                    request: Request::FindModel { scope: read_scope, id: read_id },
                }
                &&& kept@ == scope@
                &&& kept_id == id
                &&& kept_request == request
                &&& read_scope@ == scope@
                &&& read_id == id
            },
            (UpdateModel::Authorizing { .. }, Reply::Scope(Err(e))) => step matches Step::Done {
                result: Err(d),
            } && d@ == enforcer_to_domain(e),
            (UpdateModel::Reading { scope, id, request }, Reply::Model(Ok(model))) => {
                match update_refusal(model.lifecycle_status, request) {
                    Some(refusal) => step matches Step::Done { result: Err(d) } && d@ == refusal,
                    None => step == (Step::<UpdateModel, ModelV1>::Ask {
                        state: UpdateModel::Updating,
                        request: Request::UpdateModel { scope, id, request },
                    }),
                }
            },
            (UpdateModel::Reading { .. }, Reply::Model(Err(e))) => step == (Step::<
                UpdateModel,
                ModelV1,
            >::Done { result: Err(e) }),
            (UpdateModel::Updating, Reply::Model(result)) => step == (Step::<
                UpdateModel,
                ModelV1,
            >::Done { result }),
            _ => false,
        }
    }

    fn awaits(&self) -> (kind: RequestKind) {
        match self {
            UpdateModel::Authorizing { .. } => RequestKind::AuthorizeModel,
            UpdateModel::Reading { .. } => RequestKind::FindModel,
            UpdateModel::Updating => RequestKind::UpdateModel,
        }
    }

    fn resume(self, reply: Reply) -> (step: Step<Self, ModelV1>) {
        match (self, reply) {
            (UpdateModel::Authorizing { id, request }, Reply::Scope(decision)) => match decision {
                Ok(scope) => {
                    let read_scope = scope.clone();
                    Step::Ask {
                        state: UpdateModel::Reading { scope, id, request },
                        request: Request::FindModel { scope: read_scope, id },
                    }
                },
                Err(e) => Step::Done { result: Err(DomainError::from(e)) },
            },
            (UpdateModel::Reading { scope, id, request }, Reply::Model(found)) => match found {
                Ok(model) => match check_update(model.lifecycle_status, &request) {
                    Ok(_) => Step::Ask {
                        state: UpdateModel::Updating,
                        request: Request::UpdateModel { scope, id, request },
                    },
                    Err(e) => Step::Done { result: Err(e) },
                },
                Err(e) => Step::Done { result: Err(e) },
            },
            (UpdateModel::Updating, Reply::Model(result)) => Step::Done { result },
            _ => vstd::pervasive::unreached(),
        }
    }

    proof fn law_step(self, reply: Reply, step: Step<Self, ModelV1>) {
    }
}

/// A model whose life has ended stays where it is: no request that names a
/// lifecycle status or an approval status passes the check.
pub proof fn law_terminal_is_final(status: LifecycleStatus, request: UpdateModelRequestV1)
    requires
        status.terminal(),
    ensures
        request.lifecycle_status is Some || request.approval_status is Some <==> update_refusal(
            status,
            request,
        ) is Some,
{
}

/// A model in service may be changed in every way, to any lifecycle status.
pub proof fn law_live_is_open(status: LifecycleStatus, request: UpdateModelRequestV1)
    requires
        !status.terminal(),
    ensures
        update_refusal(status, request) is None,
{
}

/// A model is only ever written to the tenant that owns its provider, and only
/// while that provider is active.
pub proof fn law_model_belongs_to_provider_tenant(
    state: CreateModel,
    reply: Reply,
    step: Step<CreateModel, ModelV1>,
)
    requires
        reply.answers(state.pending()),
        state.leads_to(reply, step),
        step matches Step::Ask { request, .. } && request.kind() is CreateModel,
    ensures
        step->request matches Request::CreateModel { tenant_id, provider, .. } && tenant_id
            == provider.tenant_id && provider.status is Active && reply == Reply::Provider(
            Ok(provider),
        ),
{
}

/// No change is written to a model that may not be changed as asked: a request that
/// names a status never reaches a model whose life has ended.
pub proof fn law_no_write_to_the_retired(
    state: UpdateModel,
    reply: Reply,
    step: Step<UpdateModel, ModelV1>,
)
    requires
        reply.answers(state.pending()),
        state.leads_to(reply, step),
        step matches Step::Ask { request, .. } && request.kind() is UpdateModel,
    ensures
        step->request matches Request::UpdateModel { request: change, .. } && reply matches Reply::Model(
            Ok(model),
        ) && update_refusal(model.lifecycle_status, change) is None,
{
}

/// A model that is registered by a slug goes to a provider that has the slug and is
/// active, and to that provider's tenant. The caller's own provider comes before
/// every other.
pub proof fn law_slug_leads_to_its_provider(
    state: CreateModelForSlug,
    reply: Reply,
    step: Step<CreateModelForSlug, ModelV1>,
)
    requires
        reply.answers(state.pending()),
        state.leads_to(reply, step),
        step matches Step::Ask { request, .. } && request.kind() is CreateModel,
    ensures
        state matches CreateModelForSlug::FindingProviders { ctx, request: asked, .. }
            && reply matches Reply::Providers(Ok(rows))
            && step->request matches Request::CreateModel { tenant_id, provider, .. } && {
            &&& tenant_id == provider.tenant_id
            &&& provider.status is Active
            &&& provider.slug@ == asked.provider_slug@
            &&& provider.tenant_id == ctx.subject_tenant_id || forall|j: int|
                has_slug(rows@, asked.provider_slug@, j) ==> (#[trigger] rows@[j]).tenant_id
                    != ctx.subject_tenant_id
        },
{
}

} // verus!
