//! Operations that take one decision and make one storage request.
use vstd::prelude::*;
use crate::ids::Uuid;
use crate::registry::laws::{
    asks, asks_whether, interval_rule, letter_digit_or_hyphen, name_rule, refuses_request,
    slug_rule, turns_away,
};
use crate::registry::models::{
    CreateProviderRequestV1, ModelV1, ProviderV1, UpdateProviderRequestV1,
};
use crate::registry::operation::{is_run, Action, Reply, Request, ResourceType, Step};
use crate::registry::query::{ODataQuery, Page};
use crate::registry::security::SecurityContext;
use crate::registry::service::Service;
use crate::registry::single_call::{
    CreateProvider, DeleteModel, DeleteProvider, GetModel, GetProvider, ListProviders,
    UpdateProvider,
};
use crate::registry::validate::{slug_char, valid_slug};

verus! {

/// The rule for slugs holds of exactly the slugs that are taken.
pub proof fn lemma_slug_rule(slug: Seq<char>)
    ensures
        valid_slug(slug) <==> slug_rule(slug),
{
    if valid_slug(slug) {
        assert forall|i: int| 0 <= i < slug.len() implies letter_digit_or_hyphen(#[trigger] slug[i]) by {
            assert(slug_char(slug[i]));
        }
    }
    if slug_rule(slug) {
        assert forall|i: int| 0 <= i < slug.len() implies slug_char(#[trigger] slug[i]) by {
            assert(letter_digit_or_hyphen(slug[i]));
        }
    }
}

/// Reading a provider asks for that provider, within the scope that the decision grants,
/// and gives back what storage holds.
pub proof fn law_get_provider(
    service: Service,
    ctx: SecurityContext,
    id: Uuid,
    steps: Seq<Step<GetProvider, ProviderV1>>,
    replies: Seq<Reply>,
)
    requires
        call_ensures(Service::get_provider, (&service, &ctx, id), steps[0]),
        is_run(steps, replies),
    ensures
        asks_whether(steps[0], ctx, ResourceType::Provider, Action::Get, Some(id)),
        replies.len() <= 2,
        replies.len() >= 1 ==> match replies[0] {
            Reply::Scope(Ok(scope)) => asks(
                steps[1],
                Request::FindProvider { scope, id },
            ),
            Reply::Scope(Err(e)) => replies.len() == 1 && turns_away(steps[1], e),
            _ => false,
        },
        replies.len() == 2 ==> (replies[1] matches Reply::Provider(result) && steps[2] == (Step::<
            GetProvider,
            ProviderV1,
        >::Done { result })),
{
    if replies.len() >= 1 {
        assert(steps[0] is Ask);
    }
    if replies.len() >= 2 {
        assert(steps[1] is Ask);
    }
    if replies.len() >= 3 {
        assert(steps[2] is Ask);
    }
}

/// Listing providers hands the caller's query to storage as it is, within the scope that
/// the decision grants, and gives back storage's page. Only a projection is refused.
pub proof fn law_list_providers(
    service: Service,
    ctx: SecurityContext,
    query: ODataQuery,
    steps: Seq<Step<ListProviders, Page<ProviderV1>>>,
    replies: Seq<Reply>,
)
    requires
        call_ensures(Service::list_providers, (&service, &ctx, query), steps[0]),
        is_run(steps, replies),
    ensures
        !(query.select is None) ==> refuses_request(steps[0]) && replies.len() == 0,
        query.select is None ==> asks_whether(
            steps[0],
            ctx,
            ResourceType::Provider,
            Action::List,
            None,
        ),
        replies.len() <= 2,
        replies.len() >= 1 ==> match replies[0] {
            Reply::Scope(Ok(scope)) => asks(
                steps[1],
                Request::ListProviders { scope, query },
            ),
            Reply::Scope(Err(e)) => replies.len() == 1 && turns_away(steps[1], e),
            _ => false,
        },
        replies.len() == 2 ==> (replies[1] matches Reply::ProviderPage(result) && steps[2] == (Step::<
            ListProviders,
            Page<ProviderV1>,
        >::Done { result })),
{
    if replies.len() >= 1 {
        assert(steps[0] is Ask);
    }
    if replies.len() >= 2 {
        assert(steps[1] is Ask);
    }
    if replies.len() >= 3 {
        assert(steps[2] is Ask);
    }
}

/// Registering a provider writes what the caller asked for, to the caller's own tenant.
/// It is refused exactly where the slug, the name or the interval breaks its rule.
pub proof fn law_create_provider(
    service: Service,
    ctx: SecurityContext,
    request: CreateProviderRequestV1,
    steps: Seq<Step<CreateProvider, ProviderV1>>,
    replies: Seq<Reply>,
)
    requires
        call_ensures(Service::create_provider, (&service, &ctx, request), steps[0]),
        is_run(steps, replies),
    ensures
        !(slug_rule(request@.slug) && name_rule(request@.name) && interval_rule(
            request@.discovery_interval_seconds,
        )) ==> refuses_request(steps[0]) && replies.len() == 0,
        slug_rule(request@.slug) && name_rule(request@.name) && interval_rule(
            request@.discovery_interval_seconds,
        ) ==> asks_whether(
            steps[0],
            ctx,
            ResourceType::Provider,
            Action::Create,
            None,
        ),
        replies.len() <= 2,
        replies.len() >= 1 ==> match replies[0] {
            Reply::Scope(Ok(scope)) => asks(
                steps[1],
                Request::CreateProvider {
                    scope,
                    tenant_id: ctx.subject_tenant_id,
                    request,
                },
            ),
            Reply::Scope(Err(e)) => replies.len() == 1 && turns_away(steps[1], e),
            _ => false,
        },
        replies.len() == 2 ==> (replies[1] matches Reply::Provider(result) && steps[2] == (Step::<
            CreateProvider,
            ProviderV1,
        >::Done { result })),
{
    lemma_slug_rule(request@.slug);
    if replies.len() >= 1 {
        assert(steps[0] is Ask);
    }
    if replies.len() >= 2 {
        assert(steps[1] is Ask);
    }
    if replies.len() >= 3 {
        assert(steps[2] is Ask);
    }
}

/// Changing a provider writes the change that the caller asked for, every field of it, to
/// the provider that the caller named. It is refused exactly where a name or an interval
/// that it sets breaks its rule.
pub proof fn law_update_provider(
    service: Service,
    ctx: SecurityContext,
    id: Uuid,
    request: UpdateProviderRequestV1,
    steps: Seq<Step<UpdateProvider, ProviderV1>>,
    replies: Seq<Reply>,
)
    requires
        call_ensures(Service::update_provider, (&service, &ctx, id, request), steps[0]),
        is_run(steps, replies),
    ensures
        !((request.name matches Some(name) ==> name_rule(name@)) && (
        request.discovery_interval_seconds matches Some(v) ==> interval_rule(v))) ==> refuses_request(steps[0]) && replies.len() == 0,
        (request.name matches Some(name) ==> name_rule(name@)) && (
        request.discovery_interval_seconds matches Some(v) ==> interval_rule(v)) ==> asks_whether(
            steps[0],
            ctx,
            ResourceType::Provider,
            Action::Update,
            Some(id),
        ),
        replies.len() <= 2,
        replies.len() >= 1 ==> match replies[0] {
            Reply::Scope(Ok(scope)) => asks(
                steps[1],
                Request::UpdateProvider { scope, id, request },
            ),
            Reply::Scope(Err(e)) => replies.len() == 1 && turns_away(steps[1], e),
            _ => false,
        },
        replies.len() == 2 ==> (replies[1] matches Reply::Provider(result) && steps[2] == (Step::<
            UpdateProvider,
            ProviderV1,
        >::Done { result })),
{
    if replies.len() >= 1 {
        assert(steps[0] is Ask);
    }
    if replies.len() >= 2 {
        assert(steps[1] is Ask);
    }
    if replies.len() >= 3 {
        assert(steps[2] is Ask);
    }
}

/// Removing a provider removes the one that the caller named.
pub proof fn law_delete_provider(
    service: Service,
    ctx: SecurityContext,
    id: Uuid,
    steps: Seq<Step<DeleteProvider, ()>>,
    replies: Seq<Reply>,
)
    requires
        call_ensures(Service::delete_provider, (&service, &ctx, id), steps[0]),
        is_run(steps, replies),
    ensures
        asks_whether(steps[0], ctx, ResourceType::Provider, Action::Delete, Some(id)),
        replies.len() <= 2,
        replies.len() >= 1 ==> match replies[0] {
            Reply::Scope(Ok(scope)) => asks(
                steps[1],
                Request::DeleteProvider { scope, id },
            ),
            Reply::Scope(Err(e)) => replies.len() == 1 && turns_away(steps[1], e),
            _ => false,
        },
        replies.len() == 2 ==> (replies[1] matches Reply::Deleted(result) && steps[2] == (Step::<
            DeleteProvider,
            (),
        >::Done { result })),
{
    if replies.len() >= 1 {
        assert(steps[0] is Ask);
    }
    if replies.len() >= 2 {
        assert(steps[1] is Ask);
    }
    if replies.len() >= 3 {
        assert(steps[2] is Ask);
    }
}

/// Reading a model for administration has a decision of its own, asks for that model and
/// gives it back whatever its state.
pub proof fn law_get_model(
    service: Service,
    ctx: SecurityContext,
    id: Uuid,
    steps: Seq<Step<GetModel, ModelV1>>,
    replies: Seq<Reply>,
)
    requires
        call_ensures(Service::get_model, (&service, &ctx, id), steps[0]),
        is_run(steps, replies),
    ensures
        asks_whether(steps[0], ctx, ResourceType::Model, Action::GetManagement, Some(id)),
        replies.len() <= 2,
        replies.len() >= 1 ==> match replies[0] {
            Reply::Scope(Ok(scope)) => asks(
                steps[1],
                Request::FindModel { scope, id },
            ),
            Reply::Scope(Err(e)) => replies.len() == 1 && turns_away(steps[1], e),
            _ => false,
        },
        replies.len() == 2 ==> (replies[1] matches Reply::Model(result) && steps[2] == (Step::<
            GetModel,
            ModelV1,
        >::Done { result })),
{
    if replies.len() >= 1 {
        assert(steps[0] is Ask);
    }
    if replies.len() >= 2 {
        assert(steps[1] is Ask);
    }
    if replies.len() >= 3 {
        assert(steps[2] is Ask);
    }
}

/// Taking a model out of service does so to the one that the caller named.
pub proof fn law_delete_model(
    service: Service,
    ctx: SecurityContext,
    id: Uuid,
    steps: Seq<Step<DeleteModel, ()>>,
    replies: Seq<Reply>,
)
    requires
        call_ensures(Service::delete_model, (&service, &ctx, id), steps[0]),
        is_run(steps, replies),
    ensures
        asks_whether(steps[0], ctx, ResourceType::Model, Action::Delete, Some(id)),
        replies.len() <= 2,
        replies.len() >= 1 ==> match replies[0] {
            Reply::Scope(Ok(scope)) => asks(
                steps[1],
                Request::DeleteModel { scope, id },
            ),
            Reply::Scope(Err(e)) => replies.len() == 1 && turns_away(steps[1], e),
            _ => false,
        },
        replies.len() == 2 ==> (replies[1] matches Reply::Deleted(result) && steps[2] == (Step::<
            DeleteModel,
            (),
        >::Done { result })),
{
    if replies.len() >= 1 {
        assert(steps[0] is Ask);
    }
    if replies.len() >= 2 {
        assert(steps[1] is Ask);
    }
    if replies.len() >= 3 {
        assert(steps[2] is Ask);
    }
}

} // verus!
