//! Listing the models that a tenant may use.
use vstd::prelude::*;
use crate::ids::Uuid;
use crate::registry::config::{clamped, PageLimits};
use crate::registry::error::{enforcer_to_domain, DomainError};
use crate::registry::evaluation::gate;
use crate::registry::inheritance::{
    build_chain_providers, chain_read_scope, chain_read_view, kept, law_one_winner_per_slug,
    no_later, seen, wins, InheritanceContext,
};
use crate::registry::models::{ModelV1, ProviderV1};
use crate::registry::operation::{is_run, Operation, Reply, Request, RequestKind, Step};
use crate::registry::query::{ListVisibility, ODataQuery, Page, PageInfo};
use crate::registry::resolve::{copy_ids, resolve_ancestors, ResolveAncestors};
use crate::registry::security::{AccessScope, AccessScopeView, SecurityContext};

verus! {

/// Whether the models of the provider `id` may be used: it wins its slug along
/// `chain` and is active.
pub open spec fn usable(chain: Seq<Uuid>, rows: Seq<ProviderV1>, id: Uuid) -> bool {
    exists|i: int|
        #[trigger] kept(chain, rows, i) && wins(chain, rows, i) && rows[i].id == id
            && rows[i].status is Active
}

/// Whether `allow_list` lists, once each, the providers whose models may be used.
pub open spec fn lists_usable(
    chain: Seq<Uuid>,
    rows: Seq<ProviderV1>,
    allow_list: Seq<Uuid>,
) -> bool {
    &&& allow_list.no_duplicates()
    &&& forall|id: Uuid| #[trigger] allow_list.contains(id) <==> usable(chain, rows, id)
}

/// The providers whose models may be used, from the rows of one query.
pub fn usable_providers(inheritance: &InheritanceContext, rows: Vec<ProviderV1>) -> (r: Vec<Uuid>)
    ensures
        lists_usable(inheritance.chain(), rows@, r@),
{
    let ghost chain = inheritance.chain();
    let providers = build_chain_providers(inheritance, rows);
    let allowed = providers.allow_list();
    let r = copy_ids(allowed);
    proof {
        assert forall|id: Uuid| #[trigger] r@.contains(id) <==> usable(chain, rows@, id) by {
            if r@.contains(id) {
                assert(providers.entry(id) is Some);
                let i = choose|i: int| #[trigger] kept(chain, rows@, i) && rows@[i].id == id;
                assert(providers.entry(rows@[i].id) == Some(seen(chain, rows@, i)));
            }
            if usable(chain, rows@, id) {
                let i = choose|i: int|
                    #[trigger] kept(chain, rows@, i) && wins(chain, rows@, i) && rows@[i].id == id
                        && rows@[i].status is Active;
                assert(providers.entry(rows@[i].id) == Some(seen(chain, rows@, i)));
            }
        }
    }
    r
}

/// Lists the models that the caller's tenant may use, its own and inherited ones
/// alike. One query over the whole chain filters, orders and pages them.
#[derive(Debug)]
pub enum ListTenantModels {
    /// Waits for the access decision.
    Authorizing { ctx: SecurityContext, query: ODataQuery, limits: PageLimits },
    /// Waits for the caller's tenant chain.
    ResolvingChain {
        own_scope: AccessScope,
        query: ODataQuery,
        limits: PageLimits,
        chain: ResolveAncestors,
    },
    /// Waits for the providers of the chain.
    ListingProviders {
        own_scope: AccessScope,
        query: ODataQuery,
        limits: PageLimits,
        inheritance: InheritanceContext,
    },
    /// Waits for the page of models.
    ListingModels,
}

/// Whether `page` is the empty page of a listing with the given page size.
pub open spec fn empty_page(page: Page<ModelV1>, limit: int) -> bool {
    &&& page.items@.len() == 0
    &&& page.page_info.limit == limit
    &&& page.page_info.next_cursor is None
    &&& page.page_info.prev_cursor is None
}

/// The page size of a listing for a requested one.
pub open spec fn page_limit(limits: PageLimits, requested: Option<u64>) -> int {
    clamped(
        match requested {
            Some(n) => n as int,
            None => limits.default_limit() as int,
        },
        1,
        limits.max_limit() as int,
    )
}

/// Where the listing goes once the chain is known: to all providers of the chain.
pub open spec fn list_chain_known(
    own_scope: AccessScope,
    query: ODataQuery,
    limits: PageLimits,
    inheritance: InheritanceContext,
    step: Step<ListTenantModels, Page<ModelV1>>,
) -> bool {
    &&& step matches Step::Ask { state, request: Request::ListProvidersOfTenants { scope } }
    &&& state == (ListTenantModels::ListingProviders { own_scope, query, limits, inheritance })
    &&& scope@ == AccessScopeView::of_tenants(inheritance.chain())
}

/// Where the listing goes once the providers are known: to the models of those
/// that may be used. Where there is none, the page is empty, with the size that a
/// query would have had, and no query is made.
pub open spec fn list_providers_known(
    own_scope: AccessScope,
    query: ODataQuery,
    limits: PageLimits,
    chain: Seq<Uuid>,
    rows: Seq<ProviderV1>,
    step: Step<ListTenantModels, Page<ModelV1>>,
) -> bool {
    match step {
        Step::Ask {
            state: ListTenantModels::ListingModels,
            request: Request::ListModels {
                scope,
                query: asked,
                visibility: ListVisibility::Eval { allow_list },
            },
        } => {
            &&& lists_usable(chain, rows, allow_list@)
            &&& allow_list@.len() > 0
            &&& scope@ == chain_read_view(own_scope@, chain)
            &&& asked == query
        },
        Step::Done { result: Ok(page) } => {
            &&& forall|id: Uuid| !usable(chain, rows, id)
            &&& empty_page(page, page_limit(limits, query.limit))
        },
        _ => false,
    }
}

impl ListTenantModels {
    /// Takes the listing on once the chain is known.
    fn with_chain(
        own_scope: AccessScope,
        query: ODataQuery,
        limits: PageLimits,
        inheritance: InheritanceContext,
    ) -> (step: Step<ListTenantModels, Page<ModelV1>>)
        ensures
            list_chain_known(own_scope, query, limits, inheritance, step),
    {
        let scope = AccessScope::for_tenants(copy_ids(inheritance.chain_ids()));
        Step::Ask {
            state: ListTenantModels::ListingProviders { own_scope, query, limits, inheritance },
            request: Request::ListProvidersOfTenants { scope },
        }
    }

    /// Takes the listing on once the providers are known.
    fn with_providers(
        own_scope: AccessScope,
        query: ODataQuery,
        limits: PageLimits,
        inheritance: InheritanceContext,
        rows: Vec<ProviderV1>,
    ) -> (step: Step<ListTenantModels, Page<ModelV1>>)
        ensures
            list_providers_known(own_scope, query, limits, inheritance.chain(), rows@, step),
    {
        let allow_list = usable_providers(&inheritance, rows);
        if allow_list.len() == 0 {
            proof {
                assert forall|id: Uuid| !usable(inheritance.chain(), rows@, id) by {
                    assert(!allow_list@.contains(id));
                }
            }
            return Step::Done {
                result: Ok(
                    Page {
                        items: Vec::new(),
                        page_info: PageInfo {
                            next_cursor: None,
                            prev_cursor: None,
                            limit: limits.clamp(query.limit),
                        },
                    },
                ),
            };
        }
        let scope = chain_read_scope(&own_scope, &inheritance);
        Step::Ask {
            state: ListTenantModels::ListingModels,
            request: Request::ListModels {
                scope,
                query,
                visibility: ListVisibility::Eval { allow_list },
            },
        }
    }
}

/// Where an inner step of the chain's resolution takes the listing.
pub open spec fn list_chain_step(
    own_scope: AccessScope,
    query: ODataQuery,
    limits: PageLimits,
    inner: Step<ResolveAncestors, InheritanceContext>,
    step: Step<ListTenantModels, Page<ModelV1>>,
) -> bool {
    match inner {
        Step::Ask { state, request } => step == (Step::<ListTenantModels, Page<ModelV1>>::Ask {
            state: ListTenantModels::ResolvingChain { own_scope, query, limits, chain: state },
            request,
        }),
        Step::Done { result: Err(e) } => step == (Step::<
            ListTenantModels,
            Page<ModelV1>,
        >::Done { result: Err(e) }),
        Step::Done { result: Ok(inheritance) } => list_chain_known(
            own_scope,
            query,
            limits,
            inheritance,
            step,
        ),
    }
}

impl Operation for ListTenantModels {
    type Output = Page<ModelV1>;

    open spec fn pending(self) -> RequestKind {
        match self {
            ListTenantModels::Authorizing { .. } => RequestKind::AuthorizeModel,
            ListTenantModels::ResolvingChain { chain, .. } => chain.pending(),
            ListTenantModels::ListingProviders { .. } => RequestKind::ListProvidersOfTenants,
            ListTenantModels::ListingModels => RequestKind::ListModels,
        }
    }

    open spec fn resolves_chain() -> bool {
        true
    }

    open spec fn leads_to(self, reply: Reply, step: Step<Self, Page<ModelV1>>) -> bool {
        match (self, reply) {
            (
                ListTenantModels::Authorizing { ctx, query, limits },
                Reply::Scope(Ok(own_scope)),
            ) => step == (Step::<ListTenantModels, Page<ModelV1>>::Ask {
                state: ListTenantModels::ResolvingChain {
                    own_scope,
                    query,
                    limits,
                    chain: ResolveAncestors::ReadingCache { ctx },
                },
                request: Request::CachedChain { tenant_id: ctx.subject_tenant_id },
            }),
            (ListTenantModels::Authorizing { .. }, Reply::Scope(Err(e))) => step matches Step::Done {
                result: Err(d),
            } && d@ == enforcer_to_domain(e),
            (
                ListTenantModels::ResolvingChain { own_scope, query, limits, chain },
                reply,
            ) => exists|inner: Step<ResolveAncestors, InheritanceContext>| #[trigger]
                chain.leads_to(reply, inner) && list_chain_step(
                    own_scope,
                    query,
                    limits,
                    inner,
                    step,
                ),
            (
                ListTenantModels::ListingProviders { own_scope, query, limits, inheritance },
                Reply::Providers(Ok(rows)),
            ) => list_providers_known(own_scope, query, limits, inheritance.chain(), rows@, step),
            (ListTenantModels::ListingProviders { .. }, Reply::Providers(Err(e))) => step == (Step::<
                ListTenantModels,
                Page<ModelV1>,
            >::Done { result: Err(e) }),
            (ListTenantModels::ListingModels, Reply::ModelPage(result)) => step == (Step::<
                ListTenantModels,
                Page<ModelV1>,
            >::Done { result }),
            _ => false,
        }
    }

    fn awaits(&self) -> (kind: RequestKind) {
        match self {
            ListTenantModels::Authorizing { .. } => RequestKind::AuthorizeModel,
            ListTenantModels::ResolvingChain { chain, .. } => chain.awaits(),
            ListTenantModels::ListingProviders { .. } => RequestKind::ListProvidersOfTenants,
            ListTenantModels::ListingModels => RequestKind::ListModels,
        }
    }

    fn resume(self, reply: Reply) -> (step: Step<Self, Page<ModelV1>>) {
        match (self, reply) {
            (
                ListTenantModels::Authorizing { ctx, query, limits },
                Reply::Scope(decision),
            ) => match decision {
                Ok(own_scope) => match resolve_ancestors(&ctx) {
                    Step::Ask { state, request } => Step::Ask {
                        state: ListTenantModels::ResolvingChain {
                            own_scope,
                            query,
                            limits,
                            chain: state,
                        },
                        request,
                    },
                    Step::Done { .. } => vstd::pervasive::unreached(),
                },
                Err(e) => Step::Done { result: Err(DomainError::from(e)) },
            },
            (
                ListTenantModels::ResolvingChain { own_scope, query, limits, chain },
                reply,
            ) => match chain.resume(reply) {
                Step::Ask { state, request } => Step::Ask {
                    state: ListTenantModels::ResolvingChain {
                        own_scope,
                        query,
                        limits,
                        chain: state,
                    },
                    request,
                },
                Step::Done { result } => match result {
                    Ok(inheritance) => ListTenantModels::with_chain(
                        own_scope,
                        query,
                        limits,
                        inheritance,
                    ),
                    Err(e) => Step::Done { result: Err(e) },
                },
            },
            (
                ListTenantModels::ListingProviders { own_scope, query, limits, inheritance },
                Reply::Providers(found),
            ) => match found {
                Ok(rows) => ListTenantModels::with_providers(
                    own_scope,
                    query,
                    limits,
                    inheritance,
                    rows,
                ),
                Err(e) => Step::Done { result: Err(e) },
            },
            (ListTenantModels::ListingModels, Reply::ModelPage(result)) => Step::Done { result },
            _ => vstd::pervasive::unreached(),
        }
    }

    proof fn law_step(self, reply: Reply, step: Step<Self, Page<ModelV1>>) {
        if let ListTenantModels::ResolvingChain { own_scope, query, limits, chain } = self {
            let inner = choose|inner: Step<ResolveAncestors, InheritanceContext>| #[trigger]
                chain.leads_to(reply, inner) && list_chain_step(
                    own_scope,
                    query,
                    limits,
                    inner,
                    step,
                );
            chain.law_step(reply, inner);
        }
    }
}

/// A listing admits one provider per slug at most: two providers with the same
/// slug whose models may be used belong to the same tenant, and are one provider
/// where no tenant owns a slug twice.
pub proof fn law_one_usable_provider_per_slug(
    chain: Seq<Uuid>,
    rows: Seq<ProviderV1>,
    i: int,
    j: int,
)
    requires
        kept(chain, rows, i) && wins(chain, rows, i) && rows[i].status is Active,
        kept(chain, rows, j) && wins(chain, rows, j) && rows[j].status is Active,
        rows[i].slug@ == rows[j].slug@,
    ensures
        usable(chain, rows, rows[i].id),
        usable(chain, rows, rows[j].id),
        rows[i].tenant_id == rows[j].tenant_id,
        (forall|a: int, b: int|
            0 <= a < rows.len() && 0 <= b < rows.len() && rows[a].tenant_id == rows[b].tenant_id
                && (#[trigger] rows[a]).slug@ == (#[trigger] rows[b]).slug@ ==> a == b)
            ==> rows[i].id == rows[j].id,
{
    law_one_winner_per_slug(chain, rows, i, j);
}

/// A slug won by a disabled provider lists nothing: neither the models of the
/// winner nor those of the providers it shadows.
pub proof fn law_disabled_winner_hides_its_slug(
    chain: Seq<Uuid>,
    rows: Seq<ProviderV1>,
    w: int,
    j: int,
)
    requires
        wins(chain, rows, w),
        !(rows[w].status is Active),
        forall|a: int, b: int|
            0 <= a < rows.len() && 0 <= b < rows.len() && rows[a].tenant_id == rows[b].tenant_id
                && (#[trigger] rows[a]).slug@ == (#[trigger] rows[b]).slug@ ==> a == b,
        forall|a: int, b: int|
            0 <= a < rows.len() && 0 <= b < rows.len() && (#[trigger] rows[a]).id == (
            #[trigger] rows[b]).id ==> a == b,
        0 <= j < rows.len(),
        rows[j].slug@ == rows[w].slug@,
    ensures
        !usable(chain, rows, rows[j].id),
{
    if usable(chain, rows, rows[j].id) {
        let i = choose|i: int|
            #[trigger] kept(chain, rows, i) && wins(chain, rows, i) && rows[i].id == rows[j].id
                && rows[i].status is Active;
        assert(i == j);
        law_one_winner_per_slug(chain, rows, w, j);
    }
}

/// Reading and listing agree: a model in service and approved passes the read under
/// the winner of its slug exactly where the listing admits its provider.
pub proof fn law_read_agrees_with_listing(
    canonical_id: Seq<char>,
    chain: Seq<Uuid>,
    rows: Seq<ProviderV1>,
    i: int,
    model: ModelV1,
)
    requires
        kept(chain, rows, i),
        wins(chain, rows, i),
        model.provider_id == rows[i].id,
        !model.lifecycle_status.terminal(),
        model.approval_status is Approved,
    ensures
        gate(canonical_id, seen(chain, rows, i), model) is None <==> usable(
            chain,
            rows,
            model.provider_id,
        ),
{
    if usable(chain, rows, model.provider_id) {
        let j = choose|j: int|
            #[trigger] kept(chain, rows, j) && wins(chain, rows, j) && rows[j].id
                == model.provider_id && rows[j].status is Active;
        assert(no_later(chain, rows, i, j) && no_later(chain, rows, j, i));
        assert(i == j);
    }
}

/// A listing that runs to its end and yields a page has seen the providers of the
/// whole chain. Either none of them may be used, and the page is empty without any
/// query for models; or the page is what storage gave for exactly the providers that
/// may be used, under the caller's scope widened to the chain.
pub proof fn law_page_is_of_usable_providers(
    steps: Seq<Step<ListTenantModels, Page<ModelV1>>>,
    replies: Seq<Reply>,
)
    requires
        is_run(steps, replies),
        steps[0] matches Step::Ask { state, .. } && state is Authorizing,
        steps.last() matches Step::Done { result } && result is Ok,
    ensures
        replies.len() >= 2,
        match replies.last() {
            Reply::Providers(Ok(rows)) => {
                &&& steps[replies.len() - 1]->state matches ListTenantModels::ListingProviders {
                    query,
                    limits,
                    inheritance,
                    ..
                }
                &&& forall|id: Uuid| !usable(inheritance.chain(), rows@, id)
                &&& empty_page(steps.last()->result->Ok_0, page_limit(limits, query.limit))
            },
            Reply::ModelPage(Ok(page)) => {
                &&& replies.len() >= 3
                &&& steps.last()->result->Ok_0 == page
                &&& steps[replies.len() - 2]->state matches ListTenantModels::ListingProviders {
                    own_scope,
                    inheritance,
                    ..
                }
                &&& replies[replies.len() - 2] matches Reply::Providers(Ok(rows))
                &&& steps[replies.len() - 1]->request matches Request::ListModels {
                    scope,
                    visibility: ListVisibility::Eval { allow_list },
                    ..
                }
                &&& lists_usable(inheritance.chain(), rows@, allow_list@)
                &&& scope@ == chain_read_view(own_scope@, inheritance.chain())
            },
            _ => false,
        },
{
    let n = replies.len() as int;
    if n == 0 {
        assert(steps.last() == steps[0]);
    }
    assert(steps[n - 1] is Ask);
    let last = steps[n - 1]->state;
    assert(last.leads_to(replies[n - 1], steps[n]));
    assert(steps.last() == steps[n]);
    assert(replies.last() == replies[n - 1]);
    assert(last is ListingProviders || last is ListingModels);
    assert(n - 1 > 0);
    assert(steps[n - 2] is Ask);
    let before = steps[n - 2]->state;
    assert(before.leads_to(replies[n - 2], steps[n - 1]));
    if last is ListingModels {
        assert(before is ListingProviders);
        assert(n - 2 > 0);
    }
}

} // verus!
