//! Reading a model for use: which provider a model's slug names along the
//! caller's tenant chain, and whether the model may be used.
use vstd::prelude::*;
use crate::ids::Uuid;
use crate::registry::error::{enforcer_to_domain, DomainError, DomainErrorView};
use crate::registry::inheritance::{
    build_chain_providers, kept, law_tenant_scope_admits, owner_among, seen, wins, ChainProvider,
    InheritanceContext,
};
use crate::registry::models::{ApprovalStatus, ModelV1, ProviderStatus, ProviderV1};
use crate::registry::operation::{is_run, Operation, Reply, Request, RequestKind, Step};
use crate::registry::resolve::{copy_ids, resolve_ancestors, ResolveAncestors};
use crate::registry::security::{
    AccessScope, AccessScopeView, Row, ScopeValueView, SecurityContext, OWNER_TENANT_ID,
};
use crate::registry::validate::{slug_of, slug_part};

verus! {

/// Whether `p` is a provider that wins `slug` along `chain`.
pub open spec fn slug_winner(
    chain: Seq<Uuid>,
    rows: Seq<ProviderV1>,
    slug: Seq<char>,
    p: ChainProvider,
) -> bool {
    exists|i: int|
        #[trigger] kept(chain, rows, i) && wins(chain, rows, i) && rows[i].slug@ == slug && p
            == seen(chain, rows, i)
}

/// Whether any provider wins `slug` along the chain.
pub open spec fn slug_has_winner(chain: Seq<Uuid>, rows: Seq<ProviderV1>, slug: Seq<char>) -> bool {
    exists|p: ChainProvider| slug_winner(chain, rows, slug, p)
}

/// Why the model may not be used, if it may not. The reasons come in this order:
/// the model is not the winner's, its life has ended, the winner is disabled, the
/// model is not approved. Approval comes last, so that its lack is only told of a
/// model that could be seen otherwise.
pub open spec fn gate(
    canonical_id: Seq<char>,
    winner: ChainProvider,
    model: ModelV1,
) -> Option<DomainErrorView> {
    if model.provider_id != winner.id {
        Some(DomainErrorView::ModelNotFound { canonical_id })
    } else if model.lifecycle_status.terminal() {
        Some(DomainErrorView::ModelDeprecated { canonical_id })
    } else if !(winner.status is Active) {
        Some(DomainErrorView::ProviderDisabled { id: winner.id })
    } else if !(model.approval_status is Approved) {
        Some(DomainErrorView::ModelNotApproved { canonical_id })
    } else {
        None
    }
}

/// Checks that a model of the winning provider may be used.
pub fn check_gates(canonical_id: &str, winner: &ChainProvider, model: &ModelV1) -> (r: Result<
    (),
    DomainError,
>)
    ensures
        match r {
            Ok(_) => gate(canonical_id@, *winner, *model) is None,
            Err(e) => gate(canonical_id@, *winner, *model) == Some(e@),
        },
{
    if model.provider_id != winner.id {
        return Err(DomainError::model_not_found(canonical_id));
    }
    if model.lifecycle_status.is_terminal() {
        return Err(DomainError::model_deprecated(canonical_id));
    }
    if winner.status != ProviderStatus::Active {
        return Err(DomainError::provider_disabled(winner.id));
    }
    if model.approval_status != ApprovalStatus::Approved {
        return Err(DomainError::model_not_approved(canonical_id));
    }
    Ok(())
}

/// A provider that wins `slug` along the chain, from the rows of one query.
pub fn resolve_slug(inheritance: &InheritanceContext, rows: Vec<ProviderV1>, slug: &str) -> (r:
    Option<ChainProvider>)
    ensures
        match r {
            Some(p) => slug_winner(inheritance.chain(), rows@, slug@, p),
            None => forall|p: ChainProvider| !slug_winner(inheritance.chain(), rows@, slug@, p),
        },
        r is Some <==> slug_has_winner(inheritance.chain(), rows@, slug@),
{
    let ghost chain = inheritance.chain();
    let providers = build_chain_providers(inheritance, rows);
    match providers.winner_for_slug(slug) {
        Some(p) => {
            let winner = ChainProvider {
                id: p.id,
                owner_tenant: p.owner_tenant,
                slug: p.slug.clone(),
                status: p.status,
                winner: p.winner,
            };
            proof {
                assert(providers.entry(p.id) is Some);
                let i = choose|i: int| #[trigger] kept(chain, rows@, i) && rows@[i].id == p.id;
                assert(providers.entry(rows@[i].id) == Some(seen(chain, rows@, i)));
                assert(winner == seen(chain, rows@, i));
            }
            Some(winner)
        },
        None => {
            proof {
                assert forall|p: ChainProvider| !slug_winner(chain, rows@, slug@, p) by {
                    if slug_winner(chain, rows@, slug@, p) {
                        let i = choose|i: int|
                            #[trigger] kept(chain, rows@, i) && wins(chain, rows@, i) && rows@[i].slug@
                                == slug@ && p == seen(chain, rows@, i);
                        assert(providers.entry(rows@[i].id) == Some(seen(chain, rows@, i)));
                    }
                }
            }
            None
        },
    }
}

/// Reads a model for use, by its canonical id.
#[derive(Debug)]
pub enum GetTenantModel {
    /// Waits for the access decision.
    Authorizing { ctx: SecurityContext, canonical_id: String },
    /// Waits for the caller's tenant chain.
    ResolvingChain { own_scope: AccessScope, canonical_id: String, chain: ResolveAncestors },
    /// Waits for the chain's providers with the model's slug.
    FindingProviders {
        own_scope: AccessScope,
        canonical_id: String,
        slug: String,
        inheritance: InheritanceContext,
    },
    /// Waits for the model of the provider that won the slug.
    FindingModel { canonical_id: String, winner: ChainProvider },
}

/// Where the read goes once the chain is known: to all providers of the chain
/// that have the model's slug. A canonical id without `::` names no model.
pub open spec fn chain_known(
    own_scope: AccessScope,
    canonical_id: String,
    inheritance: InheritanceContext,
    step: Step<GetTenantModel, ModelV1>,
) -> bool {
    match slug_part(canonical_id@) {
        None => step matches Step::Done { result: Err(e) } && e@ == (
        DomainErrorView::ModelNotFound { canonical_id: canonical_id@ }),
        Some(part) => {
            &&& step matches Step::Ask {
                state: GetTenantModel::FindingProviders {
                    own_scope: kept_scope,
                    canonical_id: kept_id,
                    slug,
                    inheritance: kept_chain,
                },
                request: Request::FindProvidersBySlug { scope, slug: asked },
            }
            &&& kept_scope == own_scope
            &&& kept_id == canonical_id
            &&& kept_chain == inheritance
            &&& slug@ == part
            &&& asked@ == part
            &&& scope@ == AccessScopeView::of_tenants(inheritance.chain())
        },
    }
}

/// The scope under which the model is read: the caller's own where the caller's
/// tenant won the slug, else the winner's tenant.
pub open spec fn model_scope(
    own_scope: AccessScopeView,
    chain: Seq<Uuid>,
    winner: ChainProvider,
) -> AccessScopeView {
    if winner.owner_tenant == chain[0] {
        own_scope
    } else {
        AccessScopeView::of_tenants(seq![winner.owner_tenant])
    }
}

/// Where the read goes once the providers are known: to the model, under the
/// winner. The model of a provider that lost the slug is never read.
pub open spec fn providers_known(
    own_scope: AccessScope,
    canonical_id: String,
    slug: Seq<char>,
    chain: Seq<Uuid>,
    rows: Seq<ProviderV1>,
    step: Step<GetTenantModel, ModelV1>,
) -> bool {
    match step {
        Step::Ask {
            state: GetTenantModel::FindingModel { canonical_id: kept_id, winner },
            request: Request::FindModelByCanonical { scope, canonical_id: asked },
        } => {
            &&& slug_winner(chain, rows, slug, winner)
            &&& kept_id == canonical_id
            &&& asked == canonical_id
            &&& scope@ == model_scope(own_scope@, chain, winner)
        },
        Step::Done { result: Err(e) } => {
            &&& forall|p: ChainProvider| !slug_winner(chain, rows, slug, p)
            &&& e@ == (DomainErrorView::ProviderNotFoundBySlug { slug })
        },
        _ => false,
    }
}

/// The error of a read whose query for providers failed with `e`. That nothing was
/// found is told as it is; any other failure is an internal one, so that a slug is
/// never taken for unowned because storage did not answer.
pub open spec fn slug_query_error(e: DomainErrorView) -> DomainErrorView {
    match e {
        DomainErrorView::ModelNotFound { .. } => e,
        DomainErrorView::ModelNotFoundById { .. } => e,
        DomainErrorView::ProviderNotFound { .. } => e,
        DomainErrorView::ProviderNotFoundBySlug { .. } => e,
        DomainErrorView::Internal { .. } => e,
        _ => DomainErrorView::Internal { detail: e.text(), source: None },
    }
}

fn fail_slug_query(e: DomainError) -> (r: DomainError)
    ensures
        r@ == slug_query_error(e@),
{
    match e {
        DomainError::ModelNotFound { .. }
        | DomainError::ModelNotFoundById { .. }
        | DomainError::ProviderNotFound { .. }
        | DomainError::ProviderNotFoundBySlug { .. }
        | DomainError::Internal { .. } => e,
        _ => DomainError::Internal { detail: e.to_string(), source: None },
    }
}

/// How the read ends, from what storage says of the model.
pub open spec fn model_known(
    canonical_id: Seq<char>,
    winner: ChainProvider,
    found: Result<ModelV1, DomainError>,
    result: Result<ModelV1, DomainError>,
) -> bool {
    match found {
        Ok(model) => match gate(canonical_id, winner, model) {
            None => result == Ok::<ModelV1, DomainError>(model),
            Some(refusal) => result matches Err(e) && e@ == refusal,
        },
        Err(DomainError::ModelNotFound { .. }) => result matches Err(e) && e@ == (
        DomainErrorView::ModelNotFound { canonical_id }),
        Err(e) => result == Err::<ModelV1, DomainError>(e),
    }
}

impl GetTenantModel {
    /// Takes the read on once the chain is known.
    fn with_chain(
        own_scope: AccessScope,
        canonical_id: String,
        inheritance: InheritanceContext,
    ) -> (step: Step<GetTenantModel, ModelV1>)
        ensures
            chain_known(own_scope, canonical_id, inheritance, step),
    {
        match slug_of(canonical_id.as_str()) {
            None => Step::Done { result: Err(DomainError::model_not_found(canonical_id.as_str())) },
            Some(slug) => {
                let scope = AccessScope::for_tenants(copy_ids(inheritance.chain_ids()));
                let asked = slug.clone();
                Step::Ask {
                    state: GetTenantModel::FindingProviders {
                        own_scope,
                        canonical_id,
                        slug,
                        inheritance,
                    },
                    request: Request::FindProvidersBySlug { scope, slug: asked },
                }
            },
        }
    }

    /// Takes the read on once the providers are known.
    fn with_providers(
        own_scope: AccessScope,
        canonical_id: String,
        slug: String,
        inheritance: InheritanceContext,
        rows: Vec<ProviderV1>,
    ) -> (step: Step<GetTenantModel, ModelV1>)
        ensures
            providers_known(
                own_scope,
                canonical_id,
                slug@,
                inheritance.chain(),
                rows@,
                step,
            ),
    {
        match resolve_slug(&inheritance, rows, slug.as_str()) {
            None => Step::Done {
                result: Err(DomainError::provider_not_found_by_slug(slug.as_str())),
            },
            Some(winner) => {
                let scope = if winner.owner_tenant == inheritance.tenant_id() {
                    own_scope
                } else {
                    AccessScope::for_tenant(winner.owner_tenant)
                };
                let asked = canonical_id.clone();
                Step::Ask {
                    state: GetTenantModel::FindingModel { canonical_id, winner },
                    request: Request::FindModelByCanonical { scope, canonical_id: asked },
                }
            },
        }
    }

    /// Ends the read with what storage says of the model.
    fn with_model(
        canonical_id: String,
        winner: ChainProvider,
        found: Result<ModelV1, DomainError>,
    ) -> (result: Result<ModelV1, DomainError>)
        ensures
            model_known(canonical_id@, winner, found, result),
    {
        match found {
            Ok(model) => match check_gates(canonical_id.as_str(), &winner, &model) {
                Ok(_) => Ok(model),
                Err(e) => Err(e),
            },
            Err(e) => match e {
                DomainError::ModelNotFound { .. } => Err(
                    DomainError::model_not_found(canonical_id.as_str()),
                ),
                _ => Err(e),
            },
        }
    }
}

impl Operation for GetTenantModel {
    type Output = ModelV1;

    open spec fn pending(self) -> RequestKind {
        match self {
            GetTenantModel::Authorizing { .. } => RequestKind::AuthorizeModel,
            GetTenantModel::ResolvingChain { chain, .. } => chain.pending(),
            GetTenantModel::FindingProviders { .. } => RequestKind::FindProvidersBySlug,
            GetTenantModel::FindingModel { .. } => RequestKind::FindModelByCanonical,
        }
    }

    open spec fn resolves_chain() -> bool {
        true
    }

    open spec fn leads_to(self, reply: Reply, step: Step<Self, ModelV1>) -> bool {
        match (self, reply) {
            (GetTenantModel::Authorizing { ctx, canonical_id }, Reply::Scope(Ok(own_scope))) => step
                == (Step::<GetTenantModel, ModelV1>::Ask {
                state: GetTenantModel::ResolvingChain {
                    own_scope,
                    canonical_id,
                    chain: ResolveAncestors::ReadingCache { ctx },
                },
                request: Request::CachedChain { tenant_id: ctx.subject_tenant_id },
            }),
            (GetTenantModel::Authorizing { .. }, Reply::Scope(Err(e))) => step matches Step::Done {
                result: Err(d),
            } && d@ == enforcer_to_domain(e),
            (GetTenantModel::ResolvingChain { own_scope, canonical_id, chain }, reply) => exists|
                inner: Step<ResolveAncestors, InheritanceContext>,
            | #[trigger]
                chain.leads_to(reply, inner) && match inner {
                    Step::Ask { state, request } => step == (Step::<GetTenantModel, ModelV1>::Ask {
                        state: GetTenantModel::ResolvingChain {
                            own_scope,
                            canonical_id,
                            chain: state,
                        },
                        request,
                    }),
                    Step::Done { result: Err(e) } => step == (Step::<
                        GetTenantModel,
                        ModelV1,
                    >::Done { result: Err(e) }),
                    Step::Done { result: Ok(inheritance) } => chain_known(
                        own_scope,
                        canonical_id,
                        inheritance,
                        step,
                    ),
                },
            (
                GetTenantModel::FindingProviders { own_scope, canonical_id, slug, inheritance },
                Reply::Providers(Ok(rows)),
            ) => providers_known(
                own_scope,
                canonical_id,
                slug@,
                inheritance.chain(),
                rows@,
                step,
            ),
            (GetTenantModel::FindingProviders { .. }, Reply::Providers(Err(e))) => step
                matches Step::Done { result: Err(d) } && d@ == slug_query_error(e@),
            (GetTenantModel::FindingModel { canonical_id, winner }, Reply::Model(found)) => step
                matches Step::Done { result } && model_known(canonical_id@, winner, found, result),
            _ => false,
        }
    }

    fn awaits(&self) -> (kind: RequestKind) {
        match self {
            GetTenantModel::Authorizing { .. } => RequestKind::AuthorizeModel,
            GetTenantModel::ResolvingChain { chain, .. } => chain.awaits(),
            GetTenantModel::FindingProviders { .. } => RequestKind::FindProvidersBySlug,
            GetTenantModel::FindingModel { .. } => RequestKind::FindModelByCanonical,
        }
    }

    fn resume(self, reply: Reply) -> (step: Step<Self, ModelV1>) {
        match (self, reply) {
            (
                GetTenantModel::Authorizing { ctx, canonical_id },
                Reply::Scope(decision),
            ) => match decision {
                Ok(own_scope) => match resolve_ancestors(&ctx) {
                    Step::Ask { state, request } => Step::Ask {
                        state: GetTenantModel::ResolvingChain {
                            own_scope,
                            canonical_id,
                            chain: state,
                        },
                        request,
                    },
                    Step::Done { .. } => vstd::pervasive::unreached(),
                },
                Err(e) => Step::Done { result: Err(DomainError::from(e)) },
            },
            (
                GetTenantModel::ResolvingChain { own_scope, canonical_id, chain },
                reply,
            ) => match chain.resume(reply) {
                Step::Ask { state, request } => Step::Ask {
                    state: GetTenantModel::ResolvingChain { own_scope, canonical_id, chain: state },
                    request,
                },
                Step::Done { result } => match result {
                    Ok(inheritance) => GetTenantModel::with_chain(
                        own_scope,
                        canonical_id,
                        inheritance,
                    ),
                    Err(e) => Step::Done { result: Err(e) },
                },
            },
            (
                GetTenantModel::FindingProviders { own_scope, canonical_id, slug, inheritance },
                Reply::Providers(found),
            ) => match found {
                Ok(rows) => GetTenantModel::with_providers(
                    own_scope,
                    canonical_id,
                    slug,
                    inheritance,
                    rows,
                ),
                Err(e) => Step::Done { result: Err(fail_slug_query(e)) },
            },
            (GetTenantModel::FindingModel { canonical_id, winner }, Reply::Model(found)) => Step::Done {
                result: GetTenantModel::with_model(canonical_id, winner, found),
            },
            _ => vstd::pervasive::unreached(),
        }
    }

    proof fn law_step(self, reply: Reply, step: Step<Self, ModelV1>) {
        if let GetTenantModel::ResolvingChain { own_scope, canonical_id, chain } = self {
            let inner = choose|inner: Step<ResolveAncestors, InheritanceContext>| #[trigger]
                chain.leads_to(reply, inner) && match inner {
                    Step::Ask { state, request } => step == (Step::<GetTenantModel, ModelV1>::Ask {
                        state: GetTenantModel::ResolvingChain {
                            own_scope,
                            canonical_id,
                            chain: state,
                        },
                        request,
                    }),
                    Step::Done { result: Err(e) } => step == (Step::<
                        GetTenantModel,
                        ModelV1,
                    >::Done { result: Err(e) }),
                    Step::Done { result: Ok(inheritance) } => chain_known(
                        own_scope,
                        canonical_id,
                        inheritance,
                        step,
                    ),
                };
            chain.law_step(reply, inner);
        }
    }
}

/// The read is a gate that fails closed: it yields a model only where the model is
/// the winner's, in service and approved, and the winner is active.
pub proof fn law_read_is_a_gate(
    canonical_id: Seq<char>,
    winner: ChainProvider,
    found: Result<ModelV1, DomainError>,
    result: Result<ModelV1, DomainError>,
)
    requires
        model_known(canonical_id, winner, found, result),
    ensures
        result matches Ok(model) ==> {
            &&& found == Ok::<ModelV1, DomainError>(model)
            &&& model.provider_id == winner.id
            &&& !model.lifecycle_status.terminal()
            &&& winner.status is Active
            &&& model.approval_status is Approved
        },
{
}

/// A model is told to lack approval only where nothing else hides it, and a
/// provider to be disabled only where the model is there and in service.
pub proof fn law_refusals_leak_nothing(
    canonical_id: Seq<char>,
    winner: ChainProvider,
    model: ModelV1,
)
    ensures
        gate(canonical_id, winner, model) matches Some(DomainErrorView::ModelNotApproved { .. })
            ==> model.provider_id == winner.id && !model.lifecycle_status.terminal()
            && winner.status is Active,
        gate(canonical_id, winner, model) matches Some(DomainErrorView::ProviderDisabled { .. })
            ==> model.provider_id == winner.id && !model.lifecycle_status.terminal(),
{
}

/// A read that runs to its end and yields a model has seen the providers of the
/// whole chain, and the model is that of the active provider that won the slug.
pub proof fn law_model_is_the_winners(steps: Seq<Step<GetTenantModel, ModelV1>>, replies: Seq<Reply>)
    requires
        is_run(steps, replies),
        steps[0] matches Step::Ask { state, .. } && state is Authorizing,
        steps.last() matches Step::Done { result } && result is Ok,
    ensures
        replies.len() >= 3,
        steps[replies.len() - 2] matches Step::Ask {
            state: GetTenantModel::FindingProviders { slug, inheritance, .. },
            ..
        } && replies[replies.len() - 2] matches Reply::Providers(Ok(rows)) && exists|
            winner: ChainProvider,
        |
            {
                &&& #[trigger] slug_winner(inheritance.chain(), rows@, slug@, winner)
                &&& winner.status is Active
                &&& steps.last()->result->Ok_0.provider_id == winner.id
            },
{
    let n = replies.len() as int;
    if n == 0 {
        assert(steps.last() == steps[0]);
    }
    assert(steps[n - 1] is Ask);
    let last = steps[n - 1]->state;
    assert(last.leads_to(replies[n - 1], steps[n]));
    assert(steps.last() == steps[n]);
    assert(last is FindingModel);
    assert(n - 1 > 0);
    assert(steps[n - 2] is Ask);
    let before = steps[n - 2]->state;
    assert(before.leads_to(replies[n - 2], steps[n - 1]));
    assert(before is FindingProviders);
    assert(n - 2 > 0);
    match (before, last) {
        (
            GetTenantModel::FindingProviders { slug, inheritance, .. },
            GetTenantModel::FindingModel { winner, .. },
        ) => {
            assert(replies[n - 2] matches Reply::Providers(Ok(rows)) && slug_winner(
                inheritance.chain(),
                rows@,
                slug@,
                winner,
            ));
        },
        _ => {},
    }
}

/// A read stays in the caller's chain: whatever row it can reach is admitted by the
/// caller's own scope, or owned by a tenant of the chain.
pub proof fn law_read_stays_in_chain(
    own_scope: AccessScopeView,
    chain: Seq<Uuid>,
    rows: Seq<ProviderV1>,
    slug: Seq<char>,
    winner: ChainProvider,
    row: Row,
)
    requires
        slug_winner(chain, rows, slug, winner),
        model_scope(own_scope, chain, winner).admits(row),
    ensures
        own_scope.admits(row) || owner_among(row, chain),
{
    if winner.owner_tenant != chain[0] {
        law_tenant_scope_admits(seq![winner.owner_tenant], row);
        let i = choose|i: int|
            #[trigger] kept(chain, rows, i) && wins(chain, rows, i) && rows[i].slug@ == slug
                && winner == seen(chain, rows, i);
        assert(chain.contains(winner.owner_tenant));
        let k = choose|k: int| 0 <= k < chain.len() && chain[k] == winner.owner_tenant;
        let one = seq![winner.owner_tenant];
        let j = choose|j: int|
            0 <= j < one.len() && row[OWNER_TENANT_ID@] == ScopeValueView::Uuid(#[trigger] one[j]);
        assert(row[OWNER_TENANT_ID@] == ScopeValueView::Uuid(chain[k]));
    }
}

/// Whether an error says that something was not found.
pub open spec fn not_found(e: DomainErrorView) -> bool {
    e is ModelNotFound || e is ModelNotFoundById || e is ProviderNotFound
        || e is ProviderNotFoundBySlug
}

/// The resolution of a slug fails closed: a query for providers that fails otherwise
/// than by finding nothing ends the read with an internal error, and no model is read.
pub proof fn law_slug_resolution_fails_closed(
    state: GetTenantModel,
    e: DomainError,
    step: Step<GetTenantModel, ModelV1>,
)
    requires
        state is FindingProviders,
        state.leads_to(Reply::Providers(Err(e)), step),
        !not_found(e@),
    ensures
        step matches Step::Done { result: Err(d) } && d@ is Internal,
{
}

} // verus!
