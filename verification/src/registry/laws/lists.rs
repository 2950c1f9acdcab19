//! Listing models, from the call to the page.
use vstd::prelude::*;
use crate::ids::Uuid;
use crate::registry::config::ModelRegistryConfig;
use crate::registry::inheritance::{inherited, kept, wins, InheritanceContext};
use crate::registry::laws::chain::{
    law_every_row_of_the_chain_is_kept, law_the_closest_owner_wins, lemma_chain_scope,
    lemma_of_tenants,
};
use crate::registry::laws::reads::{ancestors_known, comes_by_chain};
use crate::registry::laws::{
    admits_rows_of, asks, asks_whether, closest_owner, distinct_ids, refuses_request, row_owned_by,
    turns_away,
};
use crate::registry::listing::{list_chain_known, list_chain_step, usable, ListTenantModels};
use crate::registry::management::{
    ascending, models_known, noted, owns_a_model, page_noted, status_of,
    ListTenantModelsManagement,
};
use crate::registry::models::{ModelManagementV1, ModelV1, ProviderV1};
use crate::registry::operation::{is_run, Action, Operation, Reply, Request, ResourceType, Step};
use crate::registry::query::{ListVisibility, ODataQuery, Page};
use crate::registry::resolve::ResolveAncestors;
use crate::registry::security::{AccessScope, AccessScopeView, Row, ScopeValueView, SecurityContext};
use crate::registry::service::{resolved_from, Service};

verus! {

/// The largest page that a configuration allows: as configured, but at least one row.
pub open spec fn largest_page(config: ModelRegistryConfig) -> int {
    if config.max_page_size == 0 {
        1
    } else {
        config.max_page_size as int
    }
}

/// The page of a listing that asks for none: as configured, but at least one row and no
/// larger than the largest.
pub open spec fn usual_page(config: ModelRegistryConfig) -> int {
    if config.default_page_size == 0 {
        1
    } else if config.default_page_size > largest_page(config) {
        largest_page(config)
    } else {
        config.default_page_size as int
    }
}

/// The page for what was asked for: that many rows where they are allowed, and else the
/// nearest number that is.
pub open spec fn page_for(config: ModelRegistryConfig, asked: Option<u64>) -> int {
    match asked {
        None => usual_page(config),
        Some(n) => if n == 0 {
            1
        } else if n > largest_page(config) {
            largest_page(config)
        } else {
            n as int
        },
    }
}

/// Whether the models of the row at `i` may be used: it is active, and of the closest
/// owner of its slug.
pub open spec fn offers_models(chain: Seq<Uuid>, rows: Seq<ProviderV1>, i: int) -> bool {
    0 <= i < rows.len() && rows[i].status is Active && closest_owner(chain, rows, rows[i].slug@, i)
}

/// Whether a model is in service.
pub open spec fn in_service(model: ModelV1) -> bool {
    model.lifecycle_status is Production || model.lifecycle_status is Preview
        || model.lifecycle_status is Experimental
}

/// How a listing goes on once the chain is known: the providers of every tenant of the
/// chain are asked for, and no others; then the models, with the caller's query as it is.
pub open spec fn lists_along_chain(
    config: ModelRegistryConfig,
    query: ODataQuery,
    granted: AccessScopeView,
    chain: Seq<Uuid>,
    steps: Seq<Step<ListTenantModels, Page<ModelV1>>>,
    replies: Seq<Reply>,
    k: int,
) -> bool {
    &&& steps[k] matches Step::Ask { request: Request::ListProvidersOfTenants { scope }, .. }
    &&& admits_rows_of(scope@, chain)
    &&& replies.len() > k ==> match replies[k] {
        Reply::Providers(Ok(rows)) => {
            &&& replies.len() <= k + 2
            &&& steps[k + 1] is Done ==> {
                &&& replies.len() == k + 1
                &&& steps[k + 1]->result matches Ok(page)
                &&& page.items@.len() == 0
                &&& page.page_info.limit == page_for(config, query.limit)
                &&& page.page_info.next_cursor is None
                &&& page.page_info.prev_cursor is None
            }
            &&& steps[k + 1] is Ask ==> {
                &&& steps[k + 1]->request matches Request::ListModels {
                    scope: wide,
                    query: asked,
                    visibility: ListVisibility::Eval { allow_list },
                }
                &&& asked == query
                &&& widened(wide@, granted, chain)
                &&& allow_list@.no_duplicates()
                &&& distinct_ids(rows@) ==> allows_exactly(chain, rows@, allow_list@)
                &&& replies.len() == k + 2 ==> (replies[k + 1] matches Reply::ModelPage(result)
                    && steps[k + 2] == (Step::<ListTenantModels, Page<ModelV1>>::Done { result }))
            }
            &&& distinct_ids(rows@) ==> (steps[k + 1] is Ask <==> exists|i: int| #[trigger]
                offers_models(chain, rows@, i))
        },
        Reply::Providers(Err(e)) => replies.len() == k + 1 && steps[k + 1] == (Step::<
            ListTenantModels,
            Page<ModelV1>,
        >::Done { result: Err(e) }),
        _ => false,
    }
}

/// Whether a scope admits what was granted and, where that is by constraints, every row
/// of an ancestor.
pub open spec fn widened(
    scope: AccessScopeView,
    granted: AccessScopeView,
    chain: Seq<Uuid>,
) -> bool {
    &&& granted.constraints.len() == 0 ==> scope == granted
    &&& granted.constraints.len() > 0 && !granted.unconstrained ==> forall|row: Row| #[trigger]
        scope.admits(row) <==> granted.admits(row) || row_owned_by(row, chain.skip(1))
}

/// Whether a list holds exactly the providers whose models may be used.
pub open spec fn allows_exactly(
    chain: Seq<Uuid>,
    rows: Seq<ProviderV1>,
    allow_list: Seq<Uuid>,
) -> bool {
    forall|id: Uuid| #[trigger]
        allow_list.contains(id) <==> exists|i: int| #[trigger] offers_models(chain, rows, i)
            && rows[i].id == id
}

proof fn lemma_usable(chain: Seq<Uuid>, rows: Seq<ProviderV1>, id: Uuid)
    requires
        distinct_ids(rows),
    ensures
        usable(chain, rows, id) <==> exists|i: int| #[trigger] offers_models(chain, rows, i)
            && rows[i].id == id,
{
    if usable(chain, rows, id) {
        let i = choose|i: int|
            #[trigger] kept(chain, rows, i) && wins(chain, rows, i) && rows[i].id == id
                && rows[i].status is Active;
        law_the_closest_owner_wins(chain, rows, i);
        assert(offers_models(chain, rows, i));
    }
    if exists|i: int| #[trigger] offers_models(chain, rows, i) && rows[i].id == id {
        let i = choose|i: int| #[trigger] offers_models(chain, rows, i) && rows[i].id == id;
        law_the_closest_owner_wins(chain, rows, i);
        assert(inherited(chain, rows, i));
        law_every_row_of_the_chain_is_kept(chain, rows, i);
        assert(kept(chain, rows, i));
    }
}

proof fn lemma_list_chain_comes(
    granted: AccessScope,
    query: ODataQuery,
    state: ListTenantModels,
    reply: Reply,
    step: Step<ListTenantModels, Page<ModelV1>>,
) -> (context: InheritanceContext)
    requires
        state.leads_to(reply, step),
        state matches ListTenantModels::ResolvingChain { own_scope, query: kept_query, chain, .. }
            && own_scope == granted && kept_query == query && match chain {
            ResolveAncestors::ReadingCache { .. } => reply matches Reply::CachedChain(Some(_)),
            ResolveAncestors::StoringChain { .. } => reply is Stored,
            _ => false,
        },
    ensures
        list_chain_known(granted, query, state->ResolvingChain_limits, context, step),
        match state->ResolvingChain_chain {
            ResolveAncestors::ReadingCache { ctx } => context.chain() == seq![
                ctx.subject_tenant_id,
            ] + reply->CachedChain_0->0@,
            ResolveAncestors::StoringChain { inheritance } => context == inheritance,
            _ => true,
        },
{
    let chain = state->ResolvingChain_chain;
    let limits = state->ResolvingChain_limits;
    let inner = choose|inner: Step<ResolveAncestors, InheritanceContext>| #[trigger]
        chain.leads_to(reply, inner) && list_chain_step(granted, query, limits, inner, step);
    inner->result->Ok_0
}

proof fn lemma_lists_along_chain(
    config: ModelRegistryConfig,
    query: ODataQuery,
    granted: AccessScope,
    context: InheritanceContext,
    steps: Seq<Step<ListTenantModels, Page<ModelV1>>>,
    replies: Seq<Reply>,
    k: int,
)
    requires
        is_run(steps, replies),
        0 <= k <= replies.len(),
        exists|limits: crate::registry::config::PageLimits| #[trigger]
            list_chain_known(granted, query, limits, context, steps[k]) && resolved_from(
                limits,
                config,
            ),
        context.chain().len() >= 1,
    ensures
        lists_along_chain(config, query, granted@, context.chain(), steps, replies, k),
{
    let chain = context.chain();
    lemma_of_tenants(chain);
    if !granted@.unconstrained || granted@.constraints.len() == 0 {
        lemma_chain_scope(granted@, chain);
    }
    if replies.len() > k {
        assert(steps[k] is Ask);
        assert(steps[k]->state.leads_to(replies[k], steps[k + 1]));
    }
    if replies.len() > k + 1 {
        assert(steps[k + 1] is Ask);
        assert(steps[k + 1]->state.leads_to(replies[k + 1], steps[k + 2]));
    }
    if replies.len() > k + 2 {
        assert(steps[k + 2] is Ask);
    }
    if replies.len() > k && replies[k] matches Reply::Providers(Ok(_)) {
        let rows = replies[k]->Providers_0->Ok_0@;
        if distinct_ids(rows) {
            assert forall|id: Uuid|
                usable(chain, rows, id) <==> exists|i: int| #[trigger]
                    offers_models(chain, rows, i) && rows[i].id == id by {
                lemma_usable(chain, rows, id);
            }
            if exists|i: int| #[trigger] offers_models(chain, rows, i) {
                let i = choose|i: int| #[trigger] offers_models(chain, rows, i);
                lemma_usable(chain, rows, rows[i].id);
                assert(usable(chain, rows, rows[i].id));
            } else if steps[k + 1] is Ask {
                let allow_list =
                    steps[k + 1]->request->ListModels_visibility->Eval_allow_list@;
                assert(allow_list.contains(allow_list[0]));
                lemma_usable(chain, rows, allow_list[0]);
            }
        }
    }
}

/// Listing the models that a tenant may use. The providers of the whole chain are asked
/// for in one query; the models of those that may be used in a second, which carries the
/// caller's filter, order, page and cursor as they are. Where no provider may be used,
/// the page is empty, with the size that the second query would have had.
#[verifier::rlimit(60)]
pub proof fn law_list_tenant_models(
    service: Service,
    ctx: SecurityContext,
    query: ODataQuery,
    steps: Seq<Step<ListTenantModels, Page<ModelV1>>>,
    replies: Seq<Reply>,
)
    requires
        call_ensures(Service::list_tenant_models, (&service, &ctx, query), steps[0]),
        is_run(steps, replies),
    ensures
        query.select is Some ==> refuses_request(steps[0]) && replies.len() == 0,
        query.select is None ==> asks_whether(
            steps[0],
            ctx,
            ResourceType::Model,
            Action::List,
            None,
        ),
        replies.len() >= 1 ==> match replies[0] {
            Reply::Scope(Ok(granted)) => {
                &&& comes_by_chain(ctx, steps, replies, 1)
                &&& ancestors_known(replies, 1) matches Some((k, ids)) ==> lists_along_chain(
                    service.config,
                    query,
                    granted@,
                    seq![ctx.subject_tenant_id] + ids,
                    steps,
                    replies,
                    k,
                )
            },
            Reply::Scope(Err(e)) => replies.len() == 1 && turns_away(steps[1], e),
            _ => false,
        },
{
    if replies.len() >= 1 {
        assert(steps[0] is Ask);
        assert(steps[0]->state.leads_to(replies[0], steps[1]));
    }
    if replies.len() >= 2 {
        assert(steps[1] is Ask);
        assert(steps[1]->state.leads_to(replies[1], steps[2]));
    }
    if replies.len() >= 3 {
        assert(steps[2] is Ask);
        assert(steps[2]->state.leads_to(replies[2], steps[3]));
    }
    if replies.len() >= 4 {
        assert(steps[3] is Ask);
        assert(steps[3]->state.leads_to(replies[3], steps[4]));
    }
    if replies.len() >= 1 && replies[0] matches Reply::Scope(Ok(_)) {
        let granted = replies[0]->Scope_0->Ok_0;
        if let Some((k, ids)) = ancestors_known(replies, 1) {
            let chain = seq![ctx.subject_tenant_id] + ids;
            let context = if k == 2 {
                lemma_list_chain_comes(granted, query, steps[1]->state, replies[1], steps[2])
            } else {
                lemma_list_chain_comes(granted, query, steps[3]->state, replies[3], steps[4])
            };
            assert(context.chain() =~= chain);
            lemma_lists_along_chain(service.config, query, granted, context, steps, replies, k);
        }
    }
}

/// Whether the row at `k` is the last one with the identifier.
pub open spec fn last_with_id(rows: Seq<ProviderV1>, id: Uuid, k: int) -> bool {
    &&& 0 <= k < rows.len()
    &&& rows[k].id == id
    &&& forall|j: int| k < j < rows.len() ==> (#[trigger] rows[j]).id != id
}

/// Whether `item` is how administration sees `model`, given the providers that could be
/// read. The provider is noted as disabled by its own status alone, and the model as
/// usable where the provider is active, and the model in service and approved. A model
/// whose provider could not be read carries neither note.
pub open spec fn carries_notes(
    item: ModelManagementV1,
    model: ModelV1,
    rows: Seq<ProviderV1>,
) -> bool {
    &&& item.model == model
    &&& forall|k: int| #[trigger]
        last_with_id(rows, model.provider_id, k) ==> {
            &&& item.provider_disabled <==> rows[k].status is Disabled
            &&& item.available_for_eval <==> rows[k].status is Active && in_service(model)
                && model.approval_status is Approved
        }
    &&& (forall|k: int| 0 <= k < rows.len() ==> (#[trigger] rows[k]).id != model.provider_id) ==> {
        &&& !item.provider_disabled
        &&& !item.available_for_eval
    }
}

proof fn lemma_status(rows: Seq<ProviderV1>, id: Uuid)
    ensures
        forall|k: int| #[trigger]
            last_with_id(rows, id, k) ==> status_of(rows, id) == Some(rows[k].status),
        (forall|k: int| 0 <= k < rows.len() ==> (#[trigger] rows[k]).id != id) ==> status_of(
            rows,
            id,
        ) is None,
    decreases rows.len(),
{
    if rows.len() > 0 {
        let front = rows.drop_last();
        lemma_status(front, id);
        assert forall|k: int| #[trigger] last_with_id(rows, id, k) implies status_of(rows, id)
            == Some(rows[k].status) by {
            if k < front.len() {
                assert(rows[rows.len() - 1].id != id);
                assert forall|j: int| k < j < front.len() implies (#[trigger] front[j]).id != id by {
                    assert(rows[j].id != id);
                }
                assert(last_with_id(front, id, k));
            }
        }
        if forall|k: int| 0 <= k < rows.len() ==> (#[trigger] rows[k]).id != id {
            assert(rows[rows.len() - 1].id != id);
            assert forall|k: int| 0 <= k < front.len() implies (#[trigger] front[k]).id != id by {
                assert(rows[k].id != id);
            }
        }
    }
}

/// Whether one of the models belongs to the owner that the row names.
pub open spec fn row_of_an_owner(row: Row, models: Seq<ModelV1>) -> bool {
    exists|i: int|
        0 <= i < models.len() && row.contains_key("owner_tenant_id"@) && row["owner_tenant_id"@]
            == ScopeValueView::Uuid((#[trigger] models[i]).tenant_id)
}

proof fn lemma_owners(tenants: Seq<Uuid>, models: Seq<ModelV1>, row: Row)
    requires
        forall|t: Uuid| #[trigger] tenants.contains(t) <==> owns_a_model(models, t),
    ensures
        row_owned_by(row, tenants) <==> row_of_an_owner(row, models),
{
    if row_owned_by(row, tenants) {
        let i = choose|i: int|
            0 <= i < tenants.len() && row.contains_key("owner_tenant_id"@)
                && row["owner_tenant_id"@] == ScopeValueView::Uuid(#[trigger] tenants[i]);
        assert(tenants.contains(tenants[i]));
        let j = choose|j: int| 0 <= j < models.len() && (#[trigger] models[j]).tenant_id
            == tenants[i];
        assert(row["owner_tenant_id"@] == ScopeValueView::Uuid(models[j].tenant_id));
    }
    if row_of_an_owner(row, models) {
        let j = choose|j: int|
            0 <= j < models.len() && row.contains_key("owner_tenant_id"@)
                && row["owner_tenant_id"@] == ScopeValueView::Uuid((#[trigger] models[j]).tenant_id);
        assert(owns_a_model(models, models[j].tenant_id));
        assert(tenants.contains(models[j].tenant_id));
        let i = choose|i: int| 0 <= i < tenants.len() && tenants[i] == models[j].tenant_id;
        assert(row["owner_tenant_id"@] == ScopeValueView::Uuid(tenants[i]));
    }
}

/// Listing models for administration. The caller's query goes to storage as it is, within
/// the scope that a decision of its own grants. The providers of the listed models are
/// asked for, in the tenants that own the models. Every listed model comes back, in its
/// place, with its notes.
#[verifier::rlimit(60)]
pub proof fn law_list_tenant_models_management(
    service: Service,
    ctx: SecurityContext,
    query: ODataQuery,
    include_deprecated: bool,
    steps: Seq<Step<ListTenantModelsManagement, Page<ModelManagementV1>>>,
    replies: Seq<Reply>,
)
    requires
        call_ensures(
            Service::list_tenant_models_management,
            (&service, &ctx, query, include_deprecated),
            steps[0],
        ),
        is_run(steps, replies),
    ensures
        query.select is Some ==> refuses_request(steps[0]) && replies.len() == 0,
        query.select is None ==> asks_whether(
            steps[0],
            ctx,
            ResourceType::Model,
            Action::ListManagement,
            None,
        ),
        replies.len() <= 3,
        replies.len() >= 1 ==> match replies[0] {
            Reply::Scope(Ok(scope)) => asks(
                steps[1],
                Request::ListModels {
                    scope,
                    query,
                    visibility: ListVisibility::Management { include_deprecated },
                },
            ),
            Reply::Scope(Err(e)) => replies.len() == 1 && turns_away(steps[1], e),
            _ => false,
        },
        replies.len() >= 2 ==> match replies[1] {
            Reply::ModelPage(Ok(page)) => {
                &&& steps[2] matches Step::Ask {
                    request: Request::FindProvidersByIds { scope, ids },
                    ..
                }
                &&& forall|p: Uuid| #[trigger]
                    ids@.contains(p) <==> exists|i: int|
                        0 <= i < page.items@.len() && (#[trigger] page.items@[i]).provider_id == p
                &&& forall|a: int, b: int|
                    0 <= a < b < ids@.len() ==> (#[trigger] ids@[a]).value < (
                    #[trigger] ids@[b]).value
                &&& forall|row: Row| #[trigger]
                    scope@.admits(row) <==> row_of_an_owner(row, page.items@)
                &&& replies.len() == 3 ==> match replies[2] {
                    Reply::Providers(Ok(rows)) => {
                        &&& steps[3] matches Step::Done { result: Ok(r) }
                        &&& r.page_info == page.page_info
                        &&& r.items@.len() == page.items@.len()
                        &&& forall|i: int|
                            0 <= i < page.items@.len() ==> carries_notes(
                                #[trigger] r.items@[i],
                                page.items@[i],
                                rows@,
                            )
                    },
                    Reply::Providers(Err(e)) => steps[3] == (Step::<
                        ListTenantModelsManagement,
                        Page<ModelManagementV1>,
                    >::Done { result: Err(e) }),
                    _ => false,
                }
            },
            Reply::ModelPage(Err(e)) => replies.len() == 2 && steps[2] == (Step::<
                ListTenantModelsManagement,
                Page<ModelManagementV1>,
            >::Done { result: Err(e) }),
            _ => false,
        },
{
    if replies.len() >= 1 {
        assert(steps[0] is Ask);
        assert(steps[0]->state.leads_to(replies[0], steps[1]));
    }
    if replies.len() >= 2 {
        assert(steps[1] is Ask);
        assert(steps[1]->state.leads_to(replies[1], steps[2]));
    }
    if replies.len() >= 3 {
        assert(steps[2] is Ask);
        assert(steps[2]->state.leads_to(replies[2], steps[3]));
    }
    if replies.len() >= 4 {
        assert(steps[3] is Ask);
    }
    if replies.len() >= 2 && replies[1] matches Reply::ModelPage(Ok(_)) {
        let page = replies[1]->ModelPage_0->Ok_0;
        assert(models_known(page, steps[2]));
        let scope = steps[2]->request->FindProvidersByIds_scope;
        let tenants = choose|tenants: Seq<Uuid>|
            {
                &&& #[trigger] ascending(tenants)
                &&& forall|t: Uuid| #[trigger] tenants.contains(t) <==> owns_a_model(page.items@, t)
                &&& scope@ == AccessScopeView::of_tenants(tenants)
            };
        lemma_of_tenants(tenants);
        assert forall|row: Row| #[trigger] scope@.admits(row) <==> row_of_an_owner(
            row,
            page.items@,
        ) by {
            lemma_owners(tenants, page.items@, row);
        }
        if replies.len() == 3 && replies[2] matches Reply::Providers(Ok(_)) {
            let rows = replies[2]->Providers_0->Ok_0@;
            let r = steps[3]->result->Ok_0;
            assert(page_noted(page, rows, r));
            assert forall|i: int| 0 <= i < page.items@.len() implies carries_notes(
                #[trigger] r.items@[i],
                page.items@[i],
                rows,
            ) by {
                lemma_status(rows, page.items@[i].provider_id);
            }
        }
    }
}

proof fn lemma_last_exists(rows: Seq<ProviderV1>, id: Uuid)
    ensures
        (exists|k: int| #[trigger] last_with_id(rows, id, k)) || forall|k: int|
            0 <= k < rows.len() ==> (#[trigger] rows[k]).id != id,
    decreases rows.len(),
{
    if rows.len() > 0 {
        let front = rows.drop_last();
        lemma_last_exists(front, id);
        if rows.last().id == id {
            assert(last_with_id(rows, id, rows.len() - 1));
        } else if exists|k: int| #[trigger] last_with_id(front, id, k) {
            let k = choose|k: int| #[trigger] last_with_id(front, id, k);
            assert(rows[k].id == id);
            assert forall|j: int| k < j < rows.len() implies (#[trigger] rows[j]).id != id by {
                if j < front.len() {
                    assert(front[j].id != id);
                }
            }
            assert(last_with_id(rows, id, k));
        } else {
            assert forall|k: int| 0 <= k < rows.len() implies (#[trigger] rows[k]).id != id by {
                if k < front.len() {
                    assert(front[k].id != id);
                }
            }
        }
    }
}

/// Two listed models of one provider carry the same note on the provider, whatever their
/// own states.
pub proof fn law_one_provider_one_note(
    a: ModelManagementV1,
    b: ModelManagementV1,
    rows: Seq<ProviderV1>,
)
    requires
        carries_notes(a, a.model, rows),
        carries_notes(b, b.model, rows),
        a.model.provider_id == b.model.provider_id,
    ensures
        a.provider_disabled == b.provider_disabled,
{
    lemma_last_exists(rows, a.model.provider_id);
}

} // verus!
