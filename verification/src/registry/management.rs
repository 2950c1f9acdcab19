//! Listing models for administration: every model in the caller's scope, with a
//! note on whether it can be used.
use std::collections::HashMap;
use vstd::prelude::*;
use crate::ids::Uuid;
use crate::registry::error::{enforcer_to_domain, DomainError};
use crate::registry::evaluation::gate;
use crate::registry::inheritance::ChainProvider;
use crate::registry::models::{
    ApprovalStatus, ModelManagementV1, ModelV1, ProviderStatus, ProviderV1,
};
use crate::registry::operation::{Operation, Reply, Request, RequestKind, Step};
use crate::registry::query::{ListVisibility, ODataQuery, Page};
use crate::registry::security::{AccessScope, AccessScopeView};

verus! {

broadcast use vstd::std_specs::hash::group_hash_axioms;

/// Whether `ids` is in strictly ascending order.
pub open spec fn ascending(ids: Seq<Uuid>) -> bool {
    forall|i: int, j: int| 0 <= i < j < ids.len() ==> (#[trigger] ids[i]).value < (
    #[trigger] ids[j]).value
}

/// Puts `id` into an ascending list, unless it is there.
fn insert_ascending(ids: &mut Vec<Uuid>, id: Uuid)
    requires
        ascending(old(ids)@),
    ensures
        ascending(final(ids)@),
        forall|x: Uuid| #[trigger] final(ids)@.contains(x) <==> old(ids)@.contains(x) || x == id,
{
    let mut i: usize = 0;
    while i < ids.len() && ids[i].value < id.value
        invariant
            i <= ids.len(),
            ids@ == old(ids)@,
            forall|j: int| 0 <= j < i ==> (#[trigger] ids@[j]).value < id.value,
        decreases ids.len() - i,
    {
        i += 1;
    }
    let ghost before = ids@;
    if i < ids.len() && ids[i] == id {
        assert(before[i as int] == id);
        return;
    }
    assert forall|j: int| i <= j < before.len() implies (#[trigger] before[j]).value > id.value by {
        assert(before[i as int].value > id.value);
        if j > i {
            assert(before[i as int].value < before[j].value);
        }
    }
    ids.insert(i, id);
    proof {
        let after = ids@;
        assert(after == before.insert(i as int, id));
        assert forall|x: Uuid| #[trigger] after.contains(x) <==> before.contains(x) || x == id by {
            if before.contains(x) {
                let j = choose|j: int| 0 <= j < before.len() && before[j] == x;
                if j < i {
                    assert(after[j] == x);
                } else {
                    assert(after[j + 1] == x);
                }
            }
            assert(after[i as int] == id);
            if after.contains(x) {
                let j = choose|j: int| 0 <= j < after.len() && after[j] == x;
                if j < i {
                    assert(before[j] == x);
                } else if j > i {
                    assert(before[j - 1] == x);
                }
            }
        }
        assert forall|a: int, b: int| 0 <= a < b < after.len() implies (#[trigger] after[a]).value
            < (#[trigger] after[b]).value by {
            if b < i {
                assert(before[a].value < before[b].value);
            } else if b == i {
                assert(before[a].value < id.value);
            } else if a == i {
                assert(before[b - 1].value > id.value);
            } else if a < i {
                assert(before[a].value < id.value && before[b - 1].value > id.value);
            } else {
                assert(before[a - 1].value < before[b - 1].value);
            }
        }
    }
}

/// Whether `tenant` owns one of the listed models.
pub open spec fn owns_a_model(models: Seq<ModelV1>, tenant: Uuid) -> bool {
    exists|i: int| 0 <= i < models.len() && (#[trigger] models[i]).tenant_id == tenant
}

/// Whether one of the listed models belongs to `provider`.
pub open spec fn provides_a_model(models: Seq<ModelV1>, provider: Uuid) -> bool {
    exists|i: int| 0 <= i < models.len() && (#[trigger] models[i]).provider_id == provider
}

/// The tenants that own the listed models, each once, in ascending order.
pub fn tenants_of(models: &Vec<ModelV1>) -> (r: Vec<Uuid>)
    ensures
        ascending(r@),
        forall|t: Uuid| #[trigger] r@.contains(t) <==> owns_a_model(models@, t),
{
    let mut r: Vec<Uuid> = Vec::new();
    let mut i: usize = 0;
    while i < models.len()
        invariant
            i <= models.len(),
            ascending(r@),
            forall|t: Uuid| #[trigger]
                r@.contains(t) <==> owns_a_model(models@.subrange(0, i as int), t),
        decreases models.len() - i,
    {
        let ghost before = models@.subrange(0, i as int);
        let ghost after = models@.subrange(0, i + 1);
        let id = models[i].tenant_id;
        insert_ascending(&mut r, id);
        proof {
            assert forall|t: Uuid| owns_a_model(after, t) <==> owns_a_model(before, t) || t == id by {
                if owns_a_model(before, t) {
                    let k = choose|k: int|
                        0 <= k < before.len() && (#[trigger] before[k]).tenant_id == t;
                    assert(after[k].tenant_id == t);
                }
                assert(after[i as int].tenant_id == id);
                if owns_a_model(after, t) {
                    let k = choose|k: int|
                        0 <= k < after.len() && (#[trigger] after[k]).tenant_id == t;
                    if k < i {
                        assert(before[k].tenant_id == t);
                    }
                }
            }
        }
        i += 1;
    }
    assert(models@.subrange(0, i as int) =~= models@);
    r
}

/// The providers that the listed models belong to, each once, in ascending order.
pub fn providers_of(models: &Vec<ModelV1>) -> (r: Vec<Uuid>)
    ensures
        ascending(r@),
        forall|p: Uuid| #[trigger] r@.contains(p) <==> provides_a_model(models@, p),
{
    let mut r: Vec<Uuid> = Vec::new();
    let mut i: usize = 0;
    while i < models.len()
        invariant
            i <= models.len(),
            ascending(r@),
            forall|p: Uuid| #[trigger]
                r@.contains(p) <==> provides_a_model(models@.subrange(0, i as int), p),
        decreases models.len() - i,
    {
        let ghost before = models@.subrange(0, i as int);
        let ghost after = models@.subrange(0, i + 1);
        let id = models[i].provider_id;
        insert_ascending(&mut r, id);
        proof {
            assert forall|p: Uuid|
                provides_a_model(after, p) <==> provides_a_model(before, p) || p == id by {
                if provides_a_model(before, p) {
                    let k = choose|k: int|
                        0 <= k < before.len() && (#[trigger] before[k]).provider_id == p;
                    assert(after[k].provider_id == p);
                }
                assert(after[i as int].provider_id == id);
                if provides_a_model(after, p) {
                    let k = choose|k: int|
                        0 <= k < after.len() && (#[trigger] after[k]).provider_id == p;
                    if k < i {
                        assert(before[k].provider_id == p);
                    }
                }
            }
        }
        i += 1;
    }
    assert(models@.subrange(0, i as int) =~= models@);
    r
}

/// The status of the provider `id`, from the last row that has it.
pub open spec fn status_of(rows: Seq<ProviderV1>, id: Uuid) -> Option<ProviderStatus>
    decreases rows.len(),
{
    if rows.len() == 0 {
        None
    } else if rows.last().id == id {
        Some(rows.last().status)
    } else {
        status_of(rows.drop_last(), id)
    }
}

/// A model with its notes, given what is known of its provider. A provider that
/// could not be read leaves both notes unset.
pub open spec fn noted(model: ModelV1, status: Option<ProviderStatus>) -> ModelManagementV1 {
    ModelManagementV1 {
        model,
        provider_disabled: status matches Some(s) && !(s is Active),
        available_for_eval: (status matches Some(s) && s is Active)
            && !model.lifecycle_status.terminal() && model.approval_status is Approved,
    }
}

/// The listed models with their notes, given the providers that could be read.
pub fn note_all(models: Vec<ModelV1>, rows: Vec<ProviderV1>) -> (r: Vec<ModelManagementV1>)
    ensures
        r@.len() == models@.len(),
        forall|i: int|
            0 <= i < models@.len() ==> #[trigger] r@[i] == noted(
                models@[i],
                status_of(rows@, models@[i].provider_id),
            ),
{
    let mut statuses: HashMap<u128, ProviderStatus> = HashMap::new();
    let mut i: usize = 0;
    while i < rows.len()
        invariant
            i <= rows.len(),
            forall|id: Uuid|
                #![trigger statuses@.contains_key(id.value)]
                status_of(rows@.subrange(0, i as int), id) == (if statuses@.contains_key(id.value) {
                    Some(statuses@[id.value])
                } else {
                    None
                }),
        decreases rows.len() - i,
    {
        let ghost before = rows@.subrange(0, i as int);
        let ghost after = rows@.subrange(0, i + 1);
        assert(after.drop_last() =~= before);
        assert(after.last() == rows@[i as int]);
        statuses.insert(rows[i].id.value, rows[i].status);
        i += 1;
    }
    assert(rows@.subrange(0, i as int) =~= rows@);
    let mut r: Vec<ModelManagementV1> = Vec::new();
    let ghost all = models@;
    for model in it: models
        invariant
            it.seq() == all,
            r@.len() == it.index(),
            forall|id: Uuid|
                #![trigger statuses@.contains_key(id.value)]
                status_of(rows@, id) == (if statuses@.contains_key(id.value) {
                    Some(statuses@[id.value])
                } else {
                    None
                }),
            forall|j: int|
                0 <= j < r@.len() ==> #[trigger] r@[j] == noted(
                    all[j],
                    status_of(rows@, all[j].provider_id),
                ),
    {
        let id = model.provider_id;
        assert(statuses@.contains_key(id.value) || !statuses@.contains_key(id.value));
        let (known, active) = match statuses.get(&id.value) {
            Some(status) => (true, *status == ProviderStatus::Active),
            None => (false, false),
        };
        let available_for_eval = active && !model.lifecycle_status.is_terminal()
            && model.approval_status == ApprovalStatus::Approved;
        r.push(
            ModelManagementV1 { model, provider_disabled: known && !active, available_for_eval },
        );
    }
    r
}

/// Lists every model in the caller's scope, with notes. The tenant chain plays no
/// part, and neither do the rules for using a model.
#[derive(Debug)]
pub enum ListTenantModelsManagement {
    /// Waits for the access decision.
    Authorizing { query: ODataQuery, include_deprecated: bool },
    /// Waits for the page of models.
    ListingModels,
    /// Waits for the providers of the listed models.
    FindingProviders { page: Page<ModelV1> },
}

/// Where the listing goes once the models are known: to their providers, under a
/// scope of the tenants that own the models.
pub open spec fn models_known(
    page: Page<ModelV1>,
    step: Step<ListTenantModelsManagement, Page<ModelManagementV1>>,
) -> bool {
    &&& step matches Step::Ask {
        state: ListTenantModelsManagement::FindingProviders { page: kept },
        request: Request::FindProvidersByIds { scope, ids },
    }
    &&& kept == page
    &&& ascending(ids@)
    &&& forall|p: Uuid| #[trigger] ids@.contains(p) <==> provides_a_model(page.items@, p)
    &&& exists|tenants: Seq<Uuid>|
        {
            &&& #[trigger] ascending(tenants)
            &&& forall|t: Uuid| #[trigger] tenants.contains(t) <==> owns_a_model(page.items@, t)
            &&& scope@ == AccessScopeView::of_tenants(tenants)
        }
}

/// How the listing ends: the page as it was, each model with its notes.
pub open spec fn page_noted(
    page: Page<ModelV1>,
    rows: Seq<ProviderV1>,
    r: Page<ModelManagementV1>,
) -> bool {
    &&& r.page_info == page.page_info
    &&& r.items@.len() == page.items@.len()
    &&& forall|i: int|
        0 <= i < page.items@.len() ==> #[trigger] r.items@[i] == noted(
            page.items@[i],
            status_of(rows, page.items@[i].provider_id),
        )
}

impl Operation for ListTenantModelsManagement {
    type Output = Page<ModelManagementV1>;

    open spec fn pending(self) -> RequestKind {
        match self {
            ListTenantModelsManagement::Authorizing { .. } => RequestKind::AuthorizeModel,
            ListTenantModelsManagement::ListingModels => RequestKind::ListModels,
            ListTenantModelsManagement::FindingProviders { .. } => RequestKind::FindProvidersByIds,
        }
    }

    open spec fn resolves_chain() -> bool {
        false
    }

    open spec fn leads_to(self, reply: Reply, step: Step<Self, Page<ModelManagementV1>>) -> bool {
        match (self, reply) {
            (
                ListTenantModelsManagement::Authorizing { query, include_deprecated },
                Reply::Scope(Ok(scope)),
            ) => step == (Step::<ListTenantModelsManagement, Page<ModelManagementV1>>::Ask {
                state: ListTenantModelsManagement::ListingModels,
                request: Request::ListModels {
                    scope,
                    query,
                    visibility: ListVisibility::Management { include_deprecated },
                },
            }),
            (ListTenantModelsManagement::Authorizing { .. }, Reply::Scope(Err(e))) => step
                matches Step::Done { result: Err(d) } && d@ == enforcer_to_domain(e),
            (
                ListTenantModelsManagement::ListingModels,
                Reply::ModelPage(Ok(page)),
            ) => models_known(page, step),
            (ListTenantModelsManagement::ListingModels, Reply::ModelPage(Err(e))) => step == (Step::<
                ListTenantModelsManagement,
                Page<ModelManagementV1>,
            >::Done { result: Err(e) }),
            (
                ListTenantModelsManagement::FindingProviders { page },
                Reply::Providers(Ok(rows)),
            ) => step matches Step::Done { result: Ok(r) } && page_noted(page, rows@, r),
            (ListTenantModelsManagement::FindingProviders { .. }, Reply::Providers(Err(e))) => step
                == (Step::<ListTenantModelsManagement, Page<ModelManagementV1>>::Done {
                result: Err(e),
            }),
            _ => false,
        }
    }

    fn awaits(&self) -> (kind: RequestKind) {
        match self {
            ListTenantModelsManagement::Authorizing { .. } => RequestKind::AuthorizeModel,
            ListTenantModelsManagement::ListingModels => RequestKind::ListModels,
            ListTenantModelsManagement::FindingProviders { .. } => RequestKind::FindProvidersByIds,
        }
    }

    fn resume(self, reply: Reply) -> (step: Step<Self, Page<ModelManagementV1>>) {
        match (self, reply) {
            (
                ListTenantModelsManagement::Authorizing { query, include_deprecated },
                Reply::Scope(decision),
            ) => match decision {
                Ok(scope) => Step::Ask {
                    state: ListTenantModelsManagement::ListingModels,
                    request: Request::ListModels {
                        scope,
                        query,
                        visibility: ListVisibility::Management { include_deprecated },
                    },
                },
                Err(e) => Step::Done { result: Err(DomainError::from(e)) },
            },
            (ListTenantModelsManagement::ListingModels, Reply::ModelPage(found)) => match found {
                Ok(page) => {
                    let tenants = tenants_of(&page.items);
                    let ids = providers_of(&page.items);
                    assert(ascending(tenants@));
                    Step::Ask {
                        state: ListTenantModelsManagement::FindingProviders { page },
                        request: Request::FindProvidersByIds {
                            scope: AccessScope::for_tenants(tenants),
                            ids,
                        },
                    }
                },
                Err(e) => Step::Done { result: Err(e) },
            },
            (
                ListTenantModelsManagement::FindingProviders { page },
                Reply::Providers(found),
            ) => match found {
                Ok(rows) => Step::Done {
                    result: Ok(
                        Page { items: note_all(page.items, rows), page_info: page.page_info },
                    ),
                },
                Err(e) => Step::Done { result: Err(e) },
            },
            _ => vstd::pervasive::unreached(),
        }
    }

    proof fn law_step(self, reply: Reply, step: Step<Self, Page<ModelManagementV1>>) {
    }
}

/// The two notes on a model never contradict each other, and a model whose
/// provider could not be read carries neither.
pub proof fn law_notes(model: ModelV1, status: Option<ProviderStatus>)
    ensures
        !(noted(model, status).provider_disabled && noted(model, status).available_for_eval),
        status is None ==> !noted(model, status).provider_disabled && !noted(
            model,
            status,
        ).available_for_eval,
        noted(model, status).model == model,
{
}

/// A model is noted as usable exactly where a read of it, under its own provider,
/// would pass.
pub proof fn law_note_agrees_with_gate(
    canonical_id: Seq<char>,
    winner: ChainProvider,
    model: ModelV1,
)
    requires
        winner.id == model.provider_id,
    ensures
        noted(model, Some(winner.status)).available_for_eval <==> gate(canonical_id, winner, model)
            is None,
{
}

} // verus!
