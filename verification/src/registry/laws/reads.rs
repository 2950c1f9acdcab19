//! Reading a model for use, from the call to the result.
use vstd::prelude::*;
use vstd::string::*;
use crate::ids::Uuid;
use crate::registry::error::{DomainError, DomainErrorView};
use crate::registry::evaluation::{chain_known, providers_known, slug_winner, GetTenantModel};
use crate::registry::inheritance::{kept, seen, wins, ChainProvider, InheritanceContext};
use crate::registry::laws::chain::{
    law_every_row_of_the_chain_is_kept, law_the_closest_owner_wins, lemma_closest_exists,
    lemma_of_tenants,
};
use crate::registry::laws::{
    admits_rows_of, asks, asks_whether, closest_owner, distinct_ids, fails_with, owned_in_chain,
    turns_away,
};
use crate::registry::models::{ModelV1, ProviderV1};
use crate::registry::operation::{
    is_run, Action, BarrierMode, Operation, Reply, Request, ResourceType, Step,
};
use crate::registry::resolve::{resolve_ancestors, ResolveAncestors};
use crate::registry::security::{AccessScope, AccessScopeView, SecurityContext};
use crate::registry::service::Service;
use crate::registry::validate::{first_separator, slug_part};

verus! {

/// The first reply after which the tenant chain is known, and the ancestors of the
/// caller's tenant: those that the cache has, or else those that the directory gave.
/// Counted from the reply at `from`, which is that of the cache.
pub open spec fn ancestors_known(replies: Seq<Reply>, from: int) -> Option<(int, Seq<Uuid>)> {
    if replies.len() > from && replies[from] matches Reply::CachedChain(Some(_)) {
        Some((from + 1, replies[from]->CachedChain_0->0@))
    } else if replies.len() > from + 2 && replies[from + 1] matches Reply::Ancestors(Ok(_)) {
        Some((from + 3, replies[from + 1]->Ancestors_0->Ok_0@))
    } else {
        None
    }
}

/// How the chain is come by from the step at `from` on: the cache is asked for the
/// caller's tenant; on a miss the directory is, for the same tenant, stopping at tenants
/// that manage themselves; what it gives is offered to the cache; where it fails, the
/// operation does.
pub open spec fn comes_by_chain<S, T>(
    ctx: SecurityContext,
    steps: Seq<Step<S, T>>,
    replies: Seq<Reply>,
    from: int,
) -> bool {
    &&& asks(steps[from], Request::CachedChain { tenant_id: ctx.subject_tenant_id })
    &&& replies.len() > from ==> replies[from] is CachedChain
    &&& replies.len() > from && replies[from] == Reply::CachedChain(None) ==> asks(
        steps[from + 1],
        Request::Ancestors {
            ctx,
            tenant_id: ctx.subject_tenant_id,
            barrier_mode: BarrierMode::Respect,
        },
    )
    &&& replies.len() > from + 1 && replies[from] == Reply::CachedChain(None) ==> match replies[from
        + 1] {
        Reply::Ancestors(Err(message)) => replies.len() == from + 2 && fails_with(
            steps[from + 2],
            DomainErrorView::Internal {
                detail: "tenant-resolver ancestors call failed"@,
                source: Some(message@),
            },
        ),
        Reply::Ancestors(Ok(ids)) => {
            &&& steps[from + 2] matches Step::Ask {
                request: Request::StoreChain { tenant_id, ancestor_ids },
                ..
            }
            &&& tenant_id == ctx.subject_tenant_id
            &&& ancestor_ids@ == ids@
        },
        _ => false,
    }
}

/// Resolving a chain: see [`comes_by_chain`]. The result begins with the caller's tenant
/// and goes on with all ancestors that were found.
pub proof fn law_resolve_ancestors(
    ctx: SecurityContext,
    steps: Seq<Step<ResolveAncestors, InheritanceContext>>,
    replies: Seq<Reply>,
)
    requires
        call_ensures(resolve_ancestors, (&ctx,), steps[0]),
        is_run(steps, replies),
    ensures
        comes_by_chain(ctx, steps, replies, 0),
        match ancestors_known(replies, 0) {
            Some((k, ids)) => replies.len() == k && (steps[k] matches Step::Done {
                result: Ok(context),
            } && context.chain() == seq![ctx.subject_tenant_id] + ids),
            None => !(steps.last() matches Step::Done { result: Ok(_) }),
        },
{
    if replies.len() >= 1 {
        assert(steps[0] is Ask);
    }
    if replies.len() >= 2 {
        assert(steps[1] is Ask);
    }
    if replies.len() >= 3 {
        assert(steps[2] is Ask);
    }
    if replies.len() >= 4 {
        assert(steps[3] is Ask);
    }
}

/// What stands before the first `::` of an id, said by what is there: the slug, `::`,
/// and something more; and no `::` begins within the slug.
pub open spec fn id_begins_with(id: Seq<char>, slug: Seq<char>) -> bool {
    &&& slug.len() + 2 <= id.len()
    &&& slug == id.subrange(0, slug.len() as int)
    &&& id[slug.len() as int] == ':'
    &&& id[slug.len() as int + 1] == ':'
    &&& forall|j: int| 0 <= j < slug.len() ==> !(id[j] == ':' && #[trigger] id[j + 1] == ':')
}

/// Whether an id has no `::` in it.
pub open spec fn without_separator(id: Seq<char>) -> bool {
    forall|j: int| 0 <= j < id.len() - 1 ==> !(id[j] == ':' && #[trigger] id[j + 1] == ':')
}

pub proof fn lemma_separator(id: Seq<char>)
    ensures
        match slug_part(id) {
            Some(slug) => id_begins_with(id, slug) && !without_separator(id),
            None => without_separator(id),
        },
    decreases id.len(),
{
    if slug_part(id) is Some {
        let k = choose|k: int| first_separator(id, k);
        assert(id.subrange(0, k).len() == k);
        assert(id[k + 1] == ':');
    } else {
        if !without_separator(id) {
            lemma_first_separator(id, id.len() as int);
        }
    }
}

proof fn lemma_first_separator(id: Seq<char>, n: int)
    requires
        n <= id.len(),
        exists|j: int| 0 <= j < n - 1 && id[j] == ':' && #[trigger] id[j + 1] == ':',
    ensures
        exists|k: int| first_separator(id, k),
    decreases n,
{
    let j = choose|j: int| 0 <= j < n - 1 && id[j] == ':' && #[trigger] id[j + 1] == ':';
    if first_separator(id, j) {
    } else {
        let i = choose|i: int| 0 <= i < j && id[i] == ':' && #[trigger] id[i + 1] == ':';
        assert(0 <= i < j + 1 - 1 && id[i] == ':' && id[i + 1] == ':');
        lemma_first_separator(id, j + 1);
    }
}

/// Whether `result` is how a read ends that found the closest owner's row `owner` and was
/// told `found` of the model. The model comes back exactly where it is the owner's, in
/// service and approved, and the owner is active; else the first of these that is not so
/// is told.
pub open spec fn read_ends_with(
    id: Seq<char>,
    owner: ProviderV1,
    found: Result<ModelV1, DomainError>,
    result: Result<ModelV1, DomainError>,
) -> bool {
    match found {
        Ok(model) => {
            let live = model.lifecycle_status is Production || model.lifecycle_status is Preview
                || model.lifecycle_status is Experimental;
            if model.provider_id == owner.id && live && owner.status is Active
                && model.approval_status is Approved {
                result == Ok::<ModelV1, DomainError>(model)
            } else {
                result matches Err(e) && e@ == (if model.provider_id != owner.id {
                    DomainErrorView::ModelNotFound { canonical_id: id }
                } else if !live {
                    DomainErrorView::ModelDeprecated { canonical_id: id }
                } else if !(owner.status is Active) {
                    DomainErrorView::ProviderDisabled { id: owner.id }
                } else {
                    DomainErrorView::ModelNotApproved { canonical_id: id }
                })
            }
        },
        Err(e) => if e@ is ModelNotFound {
            result matches Err(d) && d@ == (DomainErrorView::ModelNotFound { canonical_id: id })
        } else {
            result == Err::<ModelV1, DomainError>(e)
        },
    }
}

/// Whether a scope is the one for reading the model of `owner`: what was granted, where
/// the caller's own tenant is the owner, and else the owner's rows.
pub open spec fn reads_for_owner(
    scope: AccessScopeView,
    granted: AccessScopeView,
    ctx: SecurityContext,
    owner: ProviderV1,
) -> bool {
    if owner.tenant_id == ctx.subject_tenant_id {
        scope == granted
    } else {
        admits_rows_of(scope, seq![owner.tenant_id])
    }
}

/// How a read goes on once the chain is known after the reply before `k`: the providers
/// with the id's slug are asked for, in every tenant of the chain and no other; then the
/// model is asked for, as the provider of the closest owner has it.
pub open spec fn reads_along_chain(
    ctx: SecurityContext,
    id: Seq<char>,
    granted: AccessScopeView,
    chain: Seq<Uuid>,
    steps: Seq<Step<GetTenantModel, ModelV1>>,
    replies: Seq<Reply>,
    k: int,
) -> bool {
    if without_separator(id) {
        replies.len() == k && fails_with(
            steps[k],
            DomainErrorView::ModelNotFound { canonical_id: id },
        )
    } else {
        &&& steps[k] matches Step::Ask {
            request: Request::FindProvidersBySlug { scope, slug },
            ..
        }
        &&& admits_rows_of(scope@, chain)
        &&& id_begins_with(id, slug@)
        &&& replies.len() > k ==> match replies[k] {
            Reply::Providers(Ok(rows)) => providers_decide(
                ctx,
                id,
                slug@,
                granted,
                chain,
                rows@,
                steps,
                replies,
                k + 1,
            ),
            Reply::Providers(Err(e)) => replies.len() == k + 1 && (steps[k + 1] matches Step::Done {
                result: Err(d),
            } && match e@ {
                DomainErrorView::ModelNotFound { .. } => d@ == e@,
                DomainErrorView::ModelNotFoundById { .. } => d@ == e@,
                DomainErrorView::ProviderNotFound { .. } => d@ == e@,
                DomainErrorView::ProviderNotFoundBySlug { .. } => d@ == e@,
                DomainErrorView::Internal { .. } => d@ == e@,
                _ => d@ == (DomainErrorView::Internal { detail: e@.text(), source: None }),
            }),
            _ => false,
        }
    }
}

/// How a read goes on once the providers with the slug are known. Where no two rows share
/// their identifier, a slug that any tenant of the chain owns leads to a model.
pub open spec fn providers_decide(
    ctx: SecurityContext,
    id: Seq<char>,
    slug: Seq<char>,
    granted: AccessScopeView,
    chain: Seq<Uuid>,
    rows: Seq<ProviderV1>,
    steps: Seq<Step<GetTenantModel, ModelV1>>,
    replies: Seq<Reply>,
    k: int,
) -> bool {
    &&& steps[k] is Done ==> replies.len() == k && fails_with(
        steps[k],
        DomainErrorView::ProviderNotFoundBySlug { slug },
    ) && (distinct_ids(rows) ==> !owned_in_chain(chain, rows, slug))
    &&& steps[k] is Ask ==> {
        &&& steps[k]->request matches Request::FindModelByCanonical { scope, canonical_id }
        &&& canonical_id@ == id
        &&& exists|w: int|
            {
                &&& #[trigger] closest_owner(chain, rows, slug, w)
                &&& reads_for_owner(scope@, granted, ctx, rows[w])
                &&& replies.len() > k ==> replies.len() == k + 1 && (
                replies[k] matches Reply::Model(found) && (steps[k + 1] matches Step::Done {
                    result,
                } && read_ends_with(id, rows[w], found, result)))
            }
    }
}

/// The chain that the last reply about it gives, and where the read goes with it.
proof fn lemma_chain_comes(
    ctx: SecurityContext,
    granted: AccessScope,
    asked: String,
    state: GetTenantModel,
    reply: Reply,
    step: Step<GetTenantModel, ModelV1>,
) -> (context: InheritanceContext)
    requires
        state.leads_to(reply, step),
        state matches GetTenantModel::ResolvingChain { own_scope, canonical_id, chain }
            && own_scope == granted && canonical_id == asked && match chain {
            ResolveAncestors::ReadingCache { .. } => reply matches Reply::CachedChain(Some(_)),
            ResolveAncestors::StoringChain { .. } => reply is Stored,
            _ => false,
        },
    ensures
        chain_known(granted, asked, context, step),
        match state->ResolvingChain_chain {
            ResolveAncestors::ReadingCache { ctx } => context.chain() == seq![
                ctx.subject_tenant_id,
            ] + reply->CachedChain_0->0@,
            ResolveAncestors::StoringChain { inheritance } => context == inheritance,
            _ => true,
        },
{
    let chain = state->ResolvingChain_chain;
    let inner = choose|inner: Step<ResolveAncestors, InheritanceContext>| #[trigger]
        chain.leads_to(reply, inner) && match inner {
            Step::Ask { state, request } => step == (Step::<GetTenantModel, ModelV1>::Ask {
                state: GetTenantModel::ResolvingChain {
                    own_scope: granted,
                    canonical_id: asked,
                    chain: state,
                },
                request,
            }),
            Step::Done { result: Err(e) } => step == (Step::<GetTenantModel, ModelV1>::Done {
                result: Err(e),
            }),
            Step::Done { result: Ok(inheritance) } => chain_known(
                granted,
                asked,
                inheritance,
                step,
            ),
        };
    inner->result->Ok_0
}

/// A winner is a row of the closest owner.
/// A winner of a slug is a closest owner's row.
pub proof fn lemma_winner_is_closest(
    chain: Seq<Uuid>,
    rows: Seq<ProviderV1>,
    slug: Seq<char>,
    winner: ChainProvider,
) -> (w: int)
    requires
        slug_winner(chain, rows, slug, winner),
    ensures
        closest_owner(chain, rows, slug, w),
        winner == seen(chain, rows, w),
{
    let w = choose|w: int|
        #[trigger] kept(chain, rows, w) && wins(chain, rows, w) && rows[w].slug@ == slug && winner
            == seen(chain, rows, w);
    law_the_closest_owner_wins(chain, rows, w);
    w
}

proof fn lemma_reads_along_chain(
    ctx: SecurityContext,
    granted: AccessScope,
    asked: String,
    context: InheritanceContext,
    steps: Seq<Step<GetTenantModel, ModelV1>>,
    replies: Seq<Reply>,
    k: int,
)
    requires
        is_run(steps, replies),
        0 <= k <= replies.len(),
        chain_known(granted, asked, context, steps[k]),
        context.chain().len() >= 1,
        context.chain()[0] == ctx.subject_tenant_id,
    ensures
        reads_along_chain(ctx, asked@, granted@, context.chain(), steps, replies, k),
{
    let chain = context.chain();
    lemma_separator(asked@);
    lemma_of_tenants(chain);
    if replies.len() > k {
        assert(steps[k] is Ask);
        assert(steps[k]->state.leads_to(replies[k], steps[k + 1]));
    }
    if replies.len() > k + 1 {
        assert(steps[k + 1] is Ask);
        assert(steps[k + 1]->state.leads_to(replies[k + 1], steps[k + 2]));
    }
    if replies.len() > k + 2 {
        assert(steps[k + 2] is Ask);
    }
    if replies.len() > k && replies[k] matches Reply::Providers(Ok(_)) {
        let rows = replies[k]->Providers_0->Ok_0@;
        let slug = steps[k]->request->FindProvidersBySlug_slug@;
        assert(providers_known(granted, asked, slug, chain, rows, steps[k + 1]));
        if steps[k + 1] is Ask {
            let winner = steps[k + 1]->state->FindingModel_winner;
            let w = lemma_winner_is_closest(chain, rows, slug, winner);
            lemma_of_tenants(seq![winner.owner_tenant]);
            assert(closest_owner(chain, rows, slug, w));
        } else if distinct_ids(rows) && owned_in_chain(chain, rows, slug) {
            let w = lemma_closest_exists(chain, rows, slug);
            law_every_row_of_the_chain_is_kept(chain, rows, w);
            assert(kept(chain, rows, w));
            assert(slug_winner(chain, rows, slug, seen(chain, rows, w)));
        }
    }
}

/// Reading a model for use. The slug of the canonical id is looked for along the whole
/// chain, from the caller's tenant through every ancestor that the cache or the directory
/// gave. The closest owner decides, and the model is yielded exactly where it is that
/// owner's, in service and approved, and the owner active.
#[verifier::rlimit(60)]
pub proof fn law_get_tenant_model(
    service: Service,
    ctx: SecurityContext,
    canonical_id: &str,
    steps: Seq<Step<GetTenantModel, ModelV1>>,
    replies: Seq<Reply>,
)
    requires
        call_ensures(Service::get_tenant_model, (&service, &ctx, canonical_id), steps[0]),
        is_run(steps, replies),
    ensures
        asks_whether(steps[0], ctx, ResourceType::Model, Action::Get, None),
        replies.len() >= 1 ==> match replies[0] {
            Reply::Scope(Ok(granted)) => {
                &&& comes_by_chain(ctx, steps, replies, 1)
                &&& ancestors_known(replies, 1) matches Some((k, ids)) ==> reads_along_chain(
                    ctx,
                    canonical_id@,
                    granted@,
                    seq![ctx.subject_tenant_id] + ids,
                    steps,
                    replies,
                    k,
                )
            },
            Reply::Scope(Err(e)) => replies.len() == 1 && turns_away(steps[1], e),
            _ => false,
        },
{
    if replies.len() >= 1 {
        assert(steps[0] is Ask);
        assert(steps[0]->state.leads_to(replies[0], steps[1]));
    }
    if replies.len() >= 2 {
        assert(steps[1] is Ask);
        assert(steps[1]->state.leads_to(replies[1], steps[2]));
    }
    if replies.len() >= 3 {
        assert(steps[2] is Ask);
        assert(steps[2]->state.leads_to(replies[2], steps[3]));
    }
    if replies.len() >= 4 {
        assert(steps[3] is Ask);
        assert(steps[3]->state.leads_to(replies[3], steps[4]));
    }
    if replies.len() >= 1 && replies[0] matches Reply::Scope(Ok(_)) {
        let granted = replies[0]->Scope_0->Ok_0;
        if let Some((k, ids)) = ancestors_known(replies, 1) {
            let chain = seq![ctx.subject_tenant_id] + ids;
            let asked = steps[0]->state->Authorizing_canonical_id;
            let context = if k == 2 {
                lemma_chain_comes(ctx, granted, asked, steps[1]->state, replies[1], steps[2])
            } else {
                lemma_chain_comes(ctx, granted, asked, steps[3]->state, replies[3], steps[4])
            };
            assert(context.chain() =~= chain);
            lemma_reads_along_chain(ctx, granted, asked, context, steps, replies, k);
        }
    }
}

} // verus!
