//! Requests and the replies to them.
use vstd::prelude::*;
use crate::ids::Uuid;
use crate::registry::cache::NoopResolutionCache;
use crate::registry::error::{DomainError, DomainErrorView};
use crate::registry::evaluation::{check_gates, resolve_slug};
use crate::registry::inheritance::{
    build_chain_providers, inherited, kept, seen, ChainProvider, ChainProviders, InheritanceContext,
};
use crate::registry::laws::chain::{
    law_chain_knows_its_rows, law_every_row_of_the_chain_is_kept, law_the_closest_owner_wins,
    lemma_closest_exists,
};
use crate::registry::laws::reads::lemma_winner_is_closest;
use crate::registry::laws::writes::{lemma_meant, life_ended, names_only};
use crate::registry::laws::{closest_owner, distinct_ids, owned_in_chain};
use crate::registry::model_writes::{has_slug, meant_by, provider_meant};
use crate::registry::models::{ModelV1, ProviderV1};
use crate::registry::operation::{is_run, Operation, Reply, Request, RequestKind, Step};

verus! {

/// Whether a reply is one to the request: a decision, a chain, rows, one row or a page,
/// as goes with what was asked for.
pub open spec fn fits(reply: Reply, request: Request) -> bool {
    match request {
        Request::Authorize { .. } => reply is Scope,
        Request::CachedChain { .. } => reply is CachedChain,
        Request::Ancestors { .. } => reply is Ancestors,
        Request::StoreChain { .. } => reply is Stored,
        Request::FindProvider { .. } => reply is Provider,
        Request::FindProvidersBySlug { .. } => reply is Providers,
        Request::ListProvidersOfTenants { .. } => reply is Providers,
        Request::FindProvidersByIds { .. } => reply is Providers,
        Request::ListProviders { .. } => reply is ProviderPage,
        Request::CreateProvider { .. } => reply is Provider,
        Request::UpdateProvider { .. } => reply is Provider,
        Request::DeleteProvider { .. } => reply is Deleted,
        Request::FindModel { .. } => reply is Model,
        Request::FindModelByCanonical { .. } => reply is Model,
        Request::ListModels { .. } => reply is ModelPage,
        Request::CreateModel { .. } => reply is Model,
        Request::UpdateModel { .. } => reply is Model,
        Request::DeleteModel { .. } => reply is Deleted,
    }
}

/// A reply is taken for one to a request exactly where it fits it.
pub proof fn law_replies_fit(reply: Reply, request: Request, r: bool)
    requires
        call_ensures(Reply::is_answer_to, (&reply, request.kind()), r),
    ensures
        r <==> fits(reply, request),
{
}

/// An operation waits for the reply to what it has asked for, and no other.
pub proof fn law_operations_await_replies<O: Operation>(
    steps: Seq<Step<O, O::Output>>,
    replies: Seq<Reply>,
    i: int,
    kind: RequestKind,
    reply: Reply,
    r: bool,
)
    requires
        is_run(steps, replies),
        0 <= i < steps.len(),
        steps[i] is Ask,
        call_ensures(O::awaits, (&steps[i]->state,), kind),
        call_ensures(Reply::is_answer_to, (&reply, kind), r),
    ensures
        r <==> fits(reply, steps[i]->request),
{
    if i > 0 {
        assert(steps[i - 1] is Ask);
        assert(steps[i - 1]->state.leads_to(replies[i - 1], steps[i - 1 + 1]));
        O::law_step(steps[i - 1]->state, replies[i - 1], steps[i]);
    }
    assert(kind == steps[i]->request.kind());
    law_replies_fit(reply, steps[i]->request, r);
}

/// The cache that holds nothing misses, whatever was stored.
pub proof fn law_empty_cache_misses(
    cache: NoopResolutionCache,
    tenant_id: Uuid,
    found: Option<Vec<Uuid>>,
)
    requires
        call_ensures(NoopResolutionCache::get_chain, (&cache, tenant_id), found),
    ensures
        found is None,
{
}

/// A model may be used exactly where it is the provider's, its life has not ended, the
/// provider is active and it is approved; else the first of these that is not so is told.
pub proof fn law_gates(
    canonical_id: &str,
    winner: ChainProvider,
    model: ModelV1,
    r: Result<(), DomainError>,
)
    requires
        call_ensures(check_gates, (canonical_id, &winner, &model), r),
    ensures
        r is Ok <==> model.provider_id == winner.id && !life_ended(model.lifecycle_status)
            && winner.status is Active && model.approval_status is Approved,
        r matches Err(e) ==> e@ == (if model.provider_id != winner.id {
            DomainErrorView::ModelNotFound { canonical_id: canonical_id@ }
        } else if life_ended(model.lifecycle_status) {
            DomainErrorView::ModelDeprecated { canonical_id: canonical_id@ }
        } else if winner.status is Disabled {
            DomainErrorView::ProviderDisabled { id: winner.id }
        } else {
            DomainErrorView::ModelNotApproved { canonical_id: canonical_id@ }
        }),
{
}

/// A slug leads to the row of its closest owner along the chain, as the row says, and to
/// nothing exactly where no tenant of the chain owns it.
pub proof fn law_slugs_resolved(
    context: InheritanceContext,
    rows: Vec<ProviderV1>,
    slug: &str,
    r: Option<ChainProvider>,
)
    requires
        call_ensures(resolve_slug, (&context, rows, slug), r),
    ensures
        r matches Some(p) ==> exists|w: int|
            {
                &&& #[trigger] closest_owner(context.chain(), rows@, slug@, w)
                &&& p.id == rows@[w].id
                &&& p.owner_tenant == rows@[w].tenant_id
                &&& p.slug@ == slug@
                &&& p.status == rows@[w].status
                &&& p.winner
            },
        r is None && distinct_ids(rows@) ==> !owned_in_chain(context.chain(), rows@, slug@),
{
    let chain = context.chain();
    if let Some(p) = r {
        let w = lemma_winner_is_closest(chain, rows@, slug@, p);
        law_the_closest_owner_wins(chain, rows@, w);
    }
    if r is None && distinct_ids(rows@) && owned_in_chain(chain, rows@, slug@) {
        let w = lemma_closest_exists(chain, rows@, slug@);
        law_every_row_of_the_chain_is_kept(chain, rows@, w);
        assert(crate::registry::evaluation::slug_winner(
            chain,
            rows@,
            slug@,
            seen(chain, rows@, w),
        ));
    }
}

/// What a chain tells of a provider is what its row says.
pub proof fn law_known_providers_told(
    context: InheritanceContext,
    rows: Vec<ProviderV1>,
    providers: ChainProviders,
    i: int,
    found: Option<&ChainProvider>,
    allowed: bool,
)
    requires
        call_ensures(build_chain_providers, (&context, rows), providers),
        distinct_ids(rows@),
        0 <= i < rows@.len(),
        call_ensures(ChainProviders::get, (&providers, rows@[i].id), found),
        call_ensures(ChainProviders::is_allowed, (&providers, rows@[i].id), allowed),
    ensures
        found is Some <==> context.chain().contains(rows@[i].tenant_id),
        found matches Some(p) ==> {
            &&& p.id == rows@[i].id
            &&& p.owner_tenant == rows@[i].tenant_id
            &&& p.slug@ == rows@[i].slug@
            &&& p.status == rows@[i].status
            &&& p.winner <==> closest_owner(context.chain(), rows@, rows@[i].slug@, i)
        },
        allowed <==> rows@[i].status is Active && closest_owner(
            context.chain(),
            rows@,
            rows@[i].slug@,
            i,
        ),
{
    law_chain_knows_its_rows(context, rows, providers, i);
    if closest_owner(context.chain(), rows@, rows@[i].slug@, i) {
        law_the_closest_owner_wins(context.chain(), rows@, i);
        assert(inherited(context.chain(), rows@, i));
    }
}

/// A chain begins with the caller's tenant.
pub proof fn law_chain_begins_with_the_caller(
    tenant: Uuid,
    ancestors: Vec<Uuid>,
    context: InheritanceContext,
    first: Uuid,
    ids: &[Uuid],
)
    requires
        call_ensures(InheritanceContext::new, (tenant, ancestors), context),
        call_ensures(InheritanceContext::tenant_id, (&context,), first),
        call_ensures(InheritanceContext::chain_ids, (&context,), ids),
    ensures
        first == tenant,
        ids@.len() == ancestors@.len() + 1,
        ids@[0] == tenant,
        forall|k: int| 0 <= k < ancestors@.len() ==> #[trigger] ancestors@[k] == ids@[k + 1],
{
}

/// The provider that a slug means is the caller's own, or else the only one there is; and
/// none where there is no such one.
pub proof fn law_provider_meant(
    rows: Vec<ProviderV1>,
    slug: &str,
    tenant: Uuid,
    r: Result<ProviderV1, DomainError>,
)
    requires
        call_ensures(provider_meant, (rows, slug, tenant), r),
    ensures
        forall|i: int| #[trigger]
            names_only(rows@, slug@, tenant, i) ==> r == Ok::<ProviderV1, DomainError>(rows@[i]),
        (forall|i: int| !#[trigger] names_only(rows@, slug@, tenant, i)) ==> r is Err,
        (forall|i: int| 0 <= i < rows@.len() ==> (#[trigger] rows@[i]).slug@ != slug@) ==> (
        r matches Err(e) && e@ == (DomainErrorView::ProviderNotFoundBySlug { slug: slug@ })),
{
    assert forall|i: int| #[trigger] names_only(rows@, slug@, tenant, i) implies r == Ok::<
        ProviderV1,
        DomainError,
    >(rows@[i]) by {
        lemma_meant(rows@, slug@, tenant, i);
        assert(has_slug(rows@, slug@, i));
    }
    if r is Ok {
        let i = choose|i: int|
            meant_by(rows@, slug@, tenant, i) && r->Ok_0 == #[trigger] rows@[i];
        lemma_meant(rows@, slug@, tenant, i);
        assert(names_only(rows@, slug@, tenant, i));
    }
}

/// The winner that a chain tells for a slug is its closest owner's row, and there is none
/// exactly where no tenant of the chain owns the slug.
pub proof fn law_winners_told(
    context: InheritanceContext,
    rows: Vec<ProviderV1>,
    providers: ChainProviders,
    slug: &str,
    r: Option<&ChainProvider>,
)
    requires
        call_ensures(build_chain_providers, (&context, rows), providers),
        call_ensures(ChainProviders::winner_for_slug, (&providers, slug), r),
        distinct_ids(rows@),
    ensures
        r is Some <==> owned_in_chain(context.chain(), rows@, slug@),
        r matches Some(p) ==> exists|w: int|
            {
                &&& #[trigger] closest_owner(context.chain(), rows@, slug@, w)
                &&& p.id == rows@[w].id
                &&& p.owner_tenant == rows@[w].tenant_id
                &&& p.status == rows@[w].status
            },
{
    let chain = context.chain();
    if let Some(p) = r {
        assert(providers.entry(p.id) is Some);
        let w = choose|w: int| #[trigger] kept(chain, rows@, w) && rows@[w].id == p.id;
        assert(providers.entry(rows@[w].id) == Some(seen(chain, rows@, w)));
        law_the_closest_owner_wins(chain, rows@, w);
        assert(closest_owner(chain, rows@, slug@, w));
        assert(chain.contains(rows@[w].tenant_id));
    } else if owned_in_chain(chain, rows@, slug@) {
        let w = lemma_closest_exists(chain, rows@, slug@);
        law_every_row_of_the_chain_is_kept(chain, rows@, w);
        assert(providers.entry(rows@[w].id) == Some(seen(chain, rows@, w)));
    }
}

/// The identifiers of the rows that tenants of the chain own.
pub open spec fn ids_in_chain(chain: Seq<Uuid>, rows: Seq<ProviderV1>) -> Seq<Uuid>
    decreases rows.len(),
{
    if rows.len() == 0 {
        Seq::empty()
    } else if chain.contains(rows.last().tenant_id) {
        ids_in_chain(chain, rows.drop_last()).push(rows.last().id)
    } else {
        ids_in_chain(chain, rows.drop_last())
    }
}

proof fn lemma_ids_in_chain(chain: Seq<Uuid>, rows: Seq<ProviderV1>)
    requires
        distinct_ids(rows),
    ensures
        ids_in_chain(chain, rows).no_duplicates(),
        forall|id: Uuid| #[trigger]
            ids_in_chain(chain, rows).contains(id) <==> exists|i: int|
                0 <= i < rows.len() && (#[trigger] rows[i]).id == id && chain.contains(
                    rows[i].tenant_id,
                ),
    decreases rows.len(),
{
    let ids = ids_in_chain(chain, rows);
    if rows.len() > 0 {
        let front = rows.drop_last();
        let before = ids_in_chain(chain, front);
        assert(distinct_ids(front)) by {
            assert forall|i: int, j: int|
                0 <= i < front.len() && 0 <= j < front.len() && (#[trigger] front[i]).id == (
                #[trigger] front[j]).id implies i == j by {
                assert(rows[i].id == rows[j].id);
            }
        }
        lemma_ids_in_chain(chain, front);
        assert(!before.contains(rows.last().id)) by {
            if before.contains(rows.last().id) {
                let i = choose|i: int|
                    0 <= i < front.len() && (#[trigger] front[i]).id == rows.last().id
                        && chain.contains(front[i].tenant_id);
                assert(rows[i].id == rows[rows.len() - 1].id);
            }
        }
        assert forall|id: Uuid| #[trigger] ids.contains(id) <==> exists|i: int|
            0 <= i < rows.len() && (#[trigger] rows[i]).id == id && chain.contains(
                rows[i].tenant_id,
            ) by {
            if ids.contains(id) {
                let k = choose|k: int| 0 <= k < ids.len() && ids[k] == id;
                if k < before.len() {
                    assert(before[k] == id);
                    assert(before.contains(id));
                    let i = choose|i: int|
                        0 <= i < front.len() && (#[trigger] front[i]).id == id && chain.contains(
                            front[i].tenant_id,
                        );
                    assert(rows[i].id == id && chain.contains(rows[i].tenant_id));
                } else {
                    assert(rows[rows.len() - 1].id == id);
                }
            }
            if exists|i: int|
                0 <= i < rows.len() && (#[trigger] rows[i]).id == id && chain.contains(
                    rows[i].tenant_id,
                ) {
                let i = choose|i: int|
                    0 <= i < rows.len() && (#[trigger] rows[i]).id == id && chain.contains(
                        rows[i].tenant_id,
                    );
                if i < front.len() {
                    assert(front[i].id == id && chain.contains(front[i].tenant_id));
                    assert(before.contains(id));
                    let k = choose|k: int| 0 <= k < before.len() && before[k] == id;
                    assert(ids[k] == id);
                } else {
                    assert(ids[ids.len() - 1] == id);
                }
            }
        }
    }
}

/// As many providers are known as the tenants of the chain own.
pub proof fn law_providers_counted(
    context: InheritanceContext,
    rows: Vec<ProviderV1>,
    providers: ChainProviders,
    n: usize,
)
    requires
        call_ensures(build_chain_providers, (&context, rows), providers),
        call_ensures(ChainProviders::len, (&providers,), n),
        distinct_ids(rows@),
    ensures
        n == ids_in_chain(context.chain(), rows@).len(),
{
    let chain = context.chain();
    let ids = ids_in_chain(chain, rows@);
    lemma_ids_in_chain(chain, rows@);
    let known = Set::new(|id: Uuid| providers.entry(id) is Some);
    assert forall|id: Uuid| known.contains(id) <==> ids.contains(id) by {
        if providers.entry(id) is Some {
            let i = choose|i: int| #[trigger] kept(chain, rows@, i) && rows@[i].id == id;
            law_every_row_of_the_chain_is_kept(chain, rows@, i);
            assert(rows@[i].id == id);
        }
        if ids.contains(id) {
            let i = choose|i: int|
                0 <= i < rows@.len() && (#[trigger] rows@[i]).id == id && chain.contains(
                    rows@[i].tenant_id,
                );
            law_every_row_of_the_chain_is_kept(chain, rows@, i);
            assert(kept(chain, rows@, i));
            assert(providers.entry(rows@[i].id) == Some(seen(chain, rows@, i)));
        }
    }
    assert(known =~= ids.to_set());
    ids.unique_seq_to_set();
}

} // verus!
