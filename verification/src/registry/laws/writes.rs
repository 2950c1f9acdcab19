//! Registering and changing models, from the call to the stored row.
use vstd::prelude::*;
use crate::ids::Uuid;
use crate::registry::error::DomainErrorView;
use crate::registry::laws::{asks, asks_whether, fails_with, refuses_request, turns_away};
use crate::registry::model_writes::{
    has_slug, may_mean, meant_by, slug_refusal, CreateModel, CreateModelForSlug, UpdateModel,
};
use crate::registry::models::{
    CreateModelBySlug, CreateModelRequestV1, LifecycleStatus, ModelInfoV1, ModelV1, ProviderV1,
    UpdateModelRequestV1,
};
use crate::registry::operation::{is_run, Action, Operation, Reply, Request, ResourceType, Step};
use crate::registry::security::SecurityContext;
use crate::registry::service::Service;

verus! {

/// Whether a model's life has ended.
pub open spec fn life_ended(status: LifecycleStatus) -> bool {
    status is Deprecated || status is Sunset
}

/// Registering a model. A model cannot begin with its life ended. Else two decisions are
/// taken, on the model and on its provider, the provider is read, and what is written is
/// the request as the caller made it, for the provider's tenant, within the scope that
/// the decision on the model granted. Nothing is written for a disabled provider.
pub proof fn law_create_model(
    service: Service,
    ctx: SecurityContext,
    request: CreateModelRequestV1,
    steps: Seq<Step<CreateModel, ModelV1>>,
    replies: Seq<Reply>,
)
    requires
        call_ensures(Service::create_model, (&service, &ctx, request), steps[0]),
        is_run(steps, replies),
    ensures
        life_ended(request.lifecycle_status) ==> refuses_request(steps[0]) && replies.len() == 0,
        !life_ended(request.lifecycle_status) ==> asks_whether(
            steps[0],
            ctx,
            ResourceType::Model,
            Action::Create,
            None,
        ),
        replies.len() <= 4,
        replies.len() >= 1 ==> match replies[0] {
            Reply::Scope(Ok(_)) => asks_whether(
                steps[1],
                ctx,
                ResourceType::Provider,
                Action::Get,
                Some(request.provider_id),
            ),
            Reply::Scope(Err(e)) => replies.len() == 1 && turns_away(steps[1], e),
            _ => false,
        },
        replies.len() >= 2 ==> match replies[1] {
            Reply::Scope(Ok(scope)) => asks(
                steps[2],
                Request::FindProvider { scope, id: request.provider_id },
            ),
            Reply::Scope(Err(e)) => replies.len() == 2 && turns_away(steps[2], e),
            _ => false,
        },
        replies.len() >= 3 ==> match replies[2] {
            Reply::Provider(Ok(provider)) => if provider.status is Active {
                replies[0] matches Reply::Scope(Ok(granted)) && asks(
                    steps[3],
                    Request::CreateModel {
                        scope: granted,
                        tenant_id: provider.tenant_id,
                        provider,
                        request,
                    },
                )
            } else {
                replies.len() == 3 && fails_with(
                    steps[3],
                    DomainErrorView::ProviderDisabled { id: provider.id },
                )
            },
            Reply::Provider(Err(e)) => replies.len() == 3 && steps[3] == (Step::<
                CreateModel,
                ModelV1,
            >::Done { result: Err(e) }),
            _ => false,
        },
        replies.len() == 4 ==> (replies[3] matches Reply::Model(result) && steps[4] == (Step::<
            CreateModel,
            ModelV1,
        >::Done { result })),
{
    if replies.len() >= 1 {
        assert(steps[0] is Ask);
        assert(steps[0]->state.leads_to(replies[0], steps[1]));
    }
    if replies.len() >= 2 {
        assert(steps[1] is Ask);
        assert(steps[1]->state.leads_to(replies[1], steps[2]));
    }
    if replies.len() >= 3 {
        assert(steps[2] is Ask);
        assert(steps[2]->state.leads_to(replies[2], steps[3]));
    }
    if replies.len() >= 4 {
        assert(steps[3] is Ask);
        assert(steps[3]->state.leads_to(replies[3], steps[4]));
    }
    if replies.len() >= 5 {
        assert(steps[4] is Ask);
    }
}

/// Whether the row at `i` is the only one with the slug that `tenant` owns.
pub open spec fn only_own(rows: Seq<ProviderV1>, slug: Seq<char>, tenant: Uuid, i: int) -> bool {
    &&& 0 <= i < rows.len()
    &&& rows[i].slug@ == slug
    &&& rows[i].tenant_id == tenant
    &&& forall|j: int|
        0 <= j < rows.len() && (#[trigger] rows[j]).slug@ == slug && rows[j].tenant_id == tenant
            ==> j == i
}

/// Whether the row at `i` is the only one with the slug, and of another tenant.
pub open spec fn only_other(rows: Seq<ProviderV1>, slug: Seq<char>, tenant: Uuid, i: int) -> bool {
    &&& 0 <= i < rows.len()
    &&& rows[i].slug@ == slug
    &&& rows[i].tenant_id != tenant
    &&& forall|j: int| 0 <= j < rows.len() && (#[trigger] rows[j]).slug@ == slug ==> j == i
}

/// Whether the slug names the row at `i` and no other: the only one that `tenant` owns,
/// and where it owns none, the only one there is.
pub open spec fn names_only(rows: Seq<ProviderV1>, slug: Seq<char>, tenant: Uuid, i: int) -> bool {
    only_own(rows, slug, tenant, i) || only_other(rows, slug, tenant, i)
}

/// Whether the step goes on to register the model of the provider, as the caller asked.
pub open spec fn registers_for(
    step: Step<CreateModelForSlug, ModelV1>,
    replies: Seq<Reply>,
    provider: ProviderV1,
    request: CreateModelBySlug<ModelInfoV1>,
) -> bool {
    if provider.status is Active {
        &&& step matches Step::Ask {
            request: Request::CreateModel {
                scope,
                tenant_id,
                provider: written_for,
                request: written,
            },
            ..
        }
        &&& replies[0] matches Reply::Scope(Ok(granted))
        &&& scope == granted
        &&& tenant_id == provider.tenant_id
        &&& written_for == provider
        &&& written.provider_id == provider.id
        &&& written.lifecycle_status == request.lifecycle_status
        &&& written.approval_status == request.approval_status
        &&& written.info == request.info
    } else {
        &&& replies.len() == 3
        &&& fails_with(step, DomainErrorView::ProviderDisabled { id: provider.id })
    }
}

/// What a slug means is what it names alone.
pub proof fn lemma_meant(rows: Seq<ProviderV1>, slug: Seq<char>, tenant: Uuid, i: int)
    ensures
        meant_by(rows, slug, tenant, i) <==> names_only(rows, slug, tenant, i),
{
    if meant_by(rows, slug, tenant, i) {
        assert(may_mean(rows, slug, tenant, i));
        assert forall|j: int|
            0 <= j < rows.len() && (#[trigger] rows[j]).slug@ == slug && (rows[j].tenant_id
                == tenant || rows[i].tenant_id != tenant) implies j == i by {
            assert(has_slug(rows, slug, j));
            if rows[i].tenant_id == tenant {
                assert(may_mean(rows, slug, tenant, j));
            } else {
                assert(rows[j].tenant_id != tenant);
                assert(may_mean(rows, slug, tenant, j));
            }
        }
    }
    if only_own(rows, slug, tenant, i) {
        assert(has_slug(rows, slug, i));
        assert(may_mean(rows, slug, tenant, i));
        assert forall|j: int| may_mean(rows, slug, tenant, j) implies j == i by {
            assert(rows[i].tenant_id == tenant);
            assert(rows[j].tenant_id == tenant);
        }
    }
    if only_other(rows, slug, tenant, i) {
        assert(has_slug(rows, slug, i));
        assert forall|j: int| has_slug(rows, slug, j) implies (#[trigger] rows[j]).tenant_id
            != tenant by {
            assert(j == i);
        }
        assert(may_mean(rows, slug, tenant, i));
        assert forall|j: int| may_mean(rows, slug, tenant, j) implies j == i by {
            assert(rows[j].slug@ == slug);
        }
    }
}

/// Registering a model of the provider that a slug names. The decisions are those of
/// [`law_create_model`]. The caller's own provider is meant before all others, and
/// where several could be meant none is. What is written is the request as the caller
/// made it, for the provider that is meant.
#[verifier::rlimit(40)]
pub proof fn law_create_model_by_slug(
    service: Service,
    ctx: SecurityContext,
    request: CreateModelBySlug<ModelInfoV1>,
    steps: Seq<Step<CreateModelForSlug, ModelV1>>,
    replies: Seq<Reply>,
)
    requires
        call_ensures(Service::create_model_by_slug, (&service, &ctx, request), steps[0]),
        is_run(steps, replies),
    ensures
        life_ended(request.lifecycle_status) ==> refuses_request(steps[0]) && replies.len() == 0,
        !life_ended(request.lifecycle_status) ==> asks_whether(
            steps[0],
            ctx,
            ResourceType::Model,
            Action::Create,
            None,
        ),
        replies.len() <= 4,
        replies.len() >= 1 ==> match replies[0] {
            Reply::Scope(Ok(_)) => asks_whether(
                steps[1],
                ctx,
                ResourceType::Provider,
                Action::Get,
                None,
            ),
            Reply::Scope(Err(e)) => replies.len() == 1 && turns_away(steps[1], e),
            _ => false,
        },
        replies.len() >= 2 ==> match replies[1] {
            Reply::Scope(Ok(scope)) => asks(
                steps[2],
                Request::FindProvidersBySlug { scope, slug: request.provider_slug },
            ),
            Reply::Scope(Err(e)) => replies.len() == 2 && turns_away(steps[2], e),
            _ => false,
        },
        replies.len() >= 3 ==> match replies[2] {
            Reply::Providers(Ok(rows)) => {
                let slug = request.provider_slug@;
                let own = ctx.subject_tenant_id;
                &&& (forall|i: int| 0 <= i < rows@.len() ==> (#[trigger] rows@[i]).slug@ != slug)
                    ==> replies.len() == 3 && fails_with(
                    steps[3],
                    DomainErrorView::ProviderNotFoundBySlug { slug },
                )
                &&& forall|i: int| #[trigger]
                    names_only(rows@, slug, own, i) ==> registers_for(
                        steps[3],
                        replies,
                        rows@[i],
                        request,
                    )
                &&& (exists|i: int| 0 <= i < rows@.len() && (#[trigger] rows@[i]).slug@ == slug)
                    && (forall|i: int| !#[trigger] names_only(rows@, slug, own, i))
                    ==> replies.len() == 3 && fails_with(
                    steps[3],
                    DomainErrorView::Validation {
                        message: "provider slug `"@ + slug + "` names several providers"@,
                    },
                )
            },
            Reply::Providers(Err(e)) => replies.len() == 3 && steps[3] == (Step::<
                CreateModelForSlug,
                ModelV1,
            >::Done { result: Err(e) }),
            _ => false,
        },
        replies.len() == 4 ==> (replies[3] matches Reply::Model(result) && steps[4] == (Step::<
            CreateModelForSlug,
            ModelV1,
        >::Done { result })),
{
    if replies.len() >= 1 {
        assert(steps[0] is Ask);
        assert(steps[0]->state.leads_to(replies[0], steps[1]));
    }
    if replies.len() >= 2 {
        assert(steps[1] is Ask);
        assert(steps[1]->state.leads_to(replies[1], steps[2]));
    }
    if replies.len() >= 3 {
        assert(steps[2] is Ask);
        assert(steps[2]->state.leads_to(replies[2], steps[3]));
    }
    if replies.len() >= 4 {
        assert(steps[3] is Ask);
        assert(steps[3]->state.leads_to(replies[3], steps[4]));
    }
    if replies.len() >= 5 {
        assert(steps[4] is Ask);
    }
    if replies.len() >= 3 && replies[2] matches Reply::Providers(Ok(_)) {
        let rows = replies[2]->Providers_0->Ok_0@;
        let slug = request.provider_slug@;
        let own = ctx.subject_tenant_id;
        assert forall|i: int| #[trigger] names_only(rows, slug, own, i) implies registers_for(
            steps[3],
            replies,
            rows[i],
            request,
        ) by {
            lemma_meant(rows, slug, own, i);
            assert(has_slug(rows, slug, i));
            assert(slug_refusal(rows, slug, own) is None);
        }
        if forall|i: int| !#[trigger] names_only(rows, slug, own, i) {
            assert forall|i: int| !meant_by(rows, slug, own, i) by {
                lemma_meant(rows, slug, own, i);
            }
        }
        if exists|i: int| 0 <= i < rows.len() && (#[trigger] rows[i]).slug@ == slug {
            let i = choose|i: int| 0 <= i < rows.len() && (#[trigger] rows[i]).slug@ == slug;
            assert(has_slug(rows, slug, i));
        }
    }
}

/// Changing a model. The model is read within the granted scope, and the change is
/// written as the caller made it, to that model, within the same scope. It is refused
/// exactly where the model's life has ended and the change names its lifecycle or its
/// approval.
pub proof fn law_update_model(
    service: Service,
    ctx: SecurityContext,
    id: Uuid,
    request: UpdateModelRequestV1,
    steps: Seq<Step<UpdateModel, ModelV1>>,
    replies: Seq<Reply>,
)
    requires
        call_ensures(Service::update_model, (&service, &ctx, id, request), steps[0]),
        is_run(steps, replies),
    ensures
        asks_whether(steps[0], ctx, ResourceType::Model, Action::Update, Some(id)),
        replies.len() <= 3,
        replies.len() >= 1 ==> match replies[0] {
            Reply::Scope(Ok(granted)) => steps[1] matches Step::Ask {
                request: Request::FindModel { scope, id: read },
                ..
            } && scope@ == granted@ && read == id,
            Reply::Scope(Err(e)) => replies.len() == 1 && turns_away(steps[1], e),
            _ => false,
        },
        replies.len() >= 2 ==> match replies[1] {
            Reply::Model(Ok(model)) => if life_ended(model.lifecycle_status) && (
            request.lifecycle_status is Some || request.approval_status is Some) {
                &&& replies.len() == 2
                &&& steps[2] matches Step::Done { result: Err(d) }
                &&& d@ is InvalidTransition
            } else {
                &&& steps[2] matches Step::Ask {
                    request: Request::UpdateModel { scope, id: changed, request: change },
                    ..
                }
                &&& replies[0] matches Reply::Scope(Ok(granted))
                &&& scope@ == granted@
                &&& changed == id
                &&& change == request
            },
            Reply::Model(Err(e)) => replies.len() == 2 && steps[2] == (Step::<
                UpdateModel,
                ModelV1,
            >::Done { result: Err(e) }),
            _ => false,
        },
        replies.len() == 3 ==> (replies[2] matches Reply::Model(result) && steps[3] == (Step::<
            UpdateModel,
            ModelV1,
        >::Done { result })),
{
    if replies.len() >= 1 {
        assert(steps[0] is Ask);
        assert(steps[0]->state.leads_to(replies[0], steps[1]));
    }
    if replies.len() >= 2 {
        assert(steps[1] is Ask);
        assert(steps[1]->state.leads_to(replies[1], steps[2]));
    }
    if replies.len() >= 3 {
        assert(steps[2] is Ask);
        assert(steps[2]->state.leads_to(replies[2], steps[3]));
    }
    if replies.len() >= 4 {
        assert(steps[3] is Ask);
    }
}

} // verus!
