//! Operations as dialogues: an operation asks for outside work, is resumed with
//! the reply, and ends with a result. What it asks for is data, so that nothing
//! here performs any outside work itself.
use vstd::prelude::*;
use crate::ids::Uuid;
use crate::registry::error::{enforcer_to_domain, DomainError, EnforcerError};
use crate::registry::models::{
    CreateModelRequestV1, CreateProviderRequestV1, ModelV1, ProviderV1, UpdateModelRequestV1,
    UpdateProviderRequestV1,
};
use crate::registry::query::{ListVisibility, ODataQuery, Page};
use crate::registry::security::{AccessScope, SecurityContext};

verus! {

/// What an access decision is about.
#[derive(Clone, Copy, Debug, PartialEq, Eq, Structural)]
pub enum ResourceType {
    Provider,
    Model,
}

impl ResourceType {
    /// The resource's name in access policies.
    pub open spec fn spec_name(self) -> Seq<char> {
        match self {
            ResourceType::Provider => "model_registry.provider"@,
            ResourceType::Model => "model_registry.model"@,
        }
    }

    /// The resource's name in access policies.
    pub fn name(self) -> (r: &'static str)
        ensures
            r@ == self.spec_name(),
    {
        match self {
            ResourceType::Provider => "model_registry.provider",
            ResourceType::Model => "model_registry.model",
        }
    }
}

/// What a caller wants to do with a resource.
#[derive(Clone, Copy, Debug, PartialEq, Eq, Structural)]
pub enum Action {
    Get,
    List,
    Create,
    Update,
    Delete,
    /// List rows that the plain listing hides.
    ListManagement,
    /// Read a row that the plain read hides.
    GetManagement,
}

impl Action {
    /// The action's name in access policies.
    pub open spec fn spec_name(self) -> Seq<char> {
        match self {
            Action::Get => "get"@,
            Action::List => "list"@,
            Action::Create => "create"@,
            Action::Update => "update"@,
            Action::Delete => "delete"@,
            Action::ListManagement => "list_management"@,
            Action::GetManagement => "get_management"@,
        }
    }

    /// The action's name in access policies.
    pub fn name(self) -> (r: &'static str)
        ensures
            r@ == self.spec_name(),
    {
        match self {
            Action::Get => "get",
            Action::List => "list",
            Action::Create => "create",
            Action::Update => "update",
            Action::Delete => "delete",
            Action::ListManagement => "list_management",
            Action::GetManagement => "get_management",
        }
    }
}

/// Whether the directory stops at a tenant that manages itself.
#[derive(Clone, Copy, Debug, PartialEq, Eq, Structural)]
pub enum BarrierMode {
    Respect,
    Ignore,
}

/// Outside work that an operation asks for.
#[allow(inconsistent_fields)]
#[derive(Clone, Debug)]
pub enum Request {
    /// Decide whether the caller may act, and on which rows.
    Authorize {
        ctx: SecurityContext,
        resource: ResourceType,
        action: Action,
        resource_id: Option<Uuid>,
    },
    /// Look up a tenant's ancestors in the cache.
    CachedChain { tenant_id: Uuid },
    /// Ask the tenant directory for a tenant's ancestors.
    Ancestors { ctx: SecurityContext, tenant_id: Uuid, barrier_mode: BarrierMode },
    /// Put a tenant's ancestors into the cache.
    StoreChain { tenant_id: Uuid, ancestor_ids: Vec<Uuid> },
    FindProvider { scope: AccessScope, id: Uuid },
    FindProvidersBySlug { scope: AccessScope, slug: String },
    ListProvidersOfTenants { scope: AccessScope },
    FindProvidersByIds { scope: AccessScope, ids: Vec<Uuid> },
    ListProviders { scope: AccessScope, query: ODataQuery },
    CreateProvider { scope: AccessScope, tenant_id: Uuid, request: CreateProviderRequestV1 },
    UpdateProvider { scope: AccessScope, id: Uuid, request: UpdateProviderRequestV1 },
    DeleteProvider { scope: AccessScope, id: Uuid },
    FindModel { scope: AccessScope, id: Uuid },
    FindModelByCanonical { scope: AccessScope, canonical_id: String },
    ListModels { scope: AccessScope, query: ODataQuery, visibility: ListVisibility },
    CreateModel {
        scope: AccessScope,
        tenant_id: Uuid,
        provider: ProviderV1,
        request: CreateModelRequestV1,
    },
    UpdateModel { scope: AccessScope, id: Uuid, request: UpdateModelRequestV1 },
    DeleteModel { scope: AccessScope, id: Uuid },
}

/// The reply to a [`Request`]. A storage request that cannot reach the database
/// is answered with a database error.
#[derive(Debug)]
pub enum Reply {
    Scope(Result<AccessScope, EnforcerError>),
    /// The ancestors in the cache. Nothing is a miss; an empty list is a hit, for a
    /// tenant without ancestors.
    CachedChain(Option<Vec<Uuid>>),
    /// The ancestors from the directory, closest first, or why there are none.
    Ancestors(Result<Vec<Uuid>, String>),
    /// The chain was offered to the cache.
    Stored,
    Provider(Result<ProviderV1, DomainError>),
    Providers(Result<Vec<ProviderV1>, DomainError>),
    ProviderPage(Result<Page<ProviderV1>, DomainError>),
    Model(Result<ModelV1, DomainError>),
    ModelPage(Result<Page<ModelV1>, DomainError>),
    Deleted(Result<(), DomainError>),
}

/// The kinds of outside work.
#[derive(Clone, Copy, Debug, PartialEq, Eq, Structural)]
pub enum RequestKind {
    AuthorizeModel,
    AuthorizeProvider,
    CachedChain,
    Ancestors,
    StoreChain,
    FindProvider,
    FindProvidersBySlug,
    ListProvidersOfTenants,
    FindProvidersByIds,
    ListProviders,
    CreateProvider,
    UpdateProvider,
    DeleteProvider,
    FindModel,
    FindModelByCanonical,
    ListModels,
    CreateModel,
    UpdateModel,
    DeleteModel,
}

impl RequestKind {
    /// When in an operation a kind of work has its turn: decisions first, then the
    /// tenant chain, then what the operation reads, then what it writes.
    pub open spec fn turn(self) -> nat {
        match self {
            RequestKind::AuthorizeModel => 0,
            RequestKind::AuthorizeProvider => 1,
            RequestKind::CachedChain => 2,
            RequestKind::Ancestors => 3,
            RequestKind::StoreChain => 4,
            RequestKind::FindProvider => 5,
            RequestKind::FindProvidersBySlug => 5,
            RequestKind::ListProvidersOfTenants => 5,
            RequestKind::FindModel => 6,
            RequestKind::FindModelByCanonical => 6,
            RequestKind::ListModels => 6,
            RequestKind::FindProvidersByIds => 7,
            RequestKind::ListProviders => 7,
            RequestKind::CreateProvider => 8,
            RequestKind::UpdateProvider => 8,
            RequestKind::DeleteProvider => 8,
            RequestKind::CreateModel => 8,
            RequestKind::UpdateModel => 8,
            RequestKind::DeleteModel => 8,
        }
    }

    /// Whether the work is an access decision.
    pub open spec fn decides(self) -> bool {
        self.turn() <= 1
    }

    /// Whether the work is about the tenant chain.
    pub open spec fn about_chain(self) -> bool {
        2 <= self.turn() <= 4
    }

    /// Whether the work changes what is stored.
    pub open spec fn writes(self) -> bool {
        self.turn() == 8
    }
}

impl Request {
    /// The request's kind.
    pub open spec fn kind(self) -> RequestKind {
        match self {
            Request::Authorize { resource: ResourceType::Model, .. } => RequestKind::AuthorizeModel,
            Request::Authorize {
                resource: ResourceType::Provider,
                ..
            } => RequestKind::AuthorizeProvider,
            Request::CachedChain { .. } => RequestKind::CachedChain,
            Request::Ancestors { .. } => RequestKind::Ancestors,
            Request::StoreChain { .. } => RequestKind::StoreChain,
            Request::FindProvider { .. } => RequestKind::FindProvider,
            Request::FindProvidersBySlug { .. } => RequestKind::FindProvidersBySlug,
            Request::ListProvidersOfTenants { .. } => RequestKind::ListProvidersOfTenants,
            Request::FindProvidersByIds { .. } => RequestKind::FindProvidersByIds,
            Request::ListProviders { .. } => RequestKind::ListProviders,
            Request::CreateProvider { .. } => RequestKind::CreateProvider,
            Request::UpdateProvider { .. } => RequestKind::UpdateProvider,
            Request::DeleteProvider { .. } => RequestKind::DeleteProvider,
            Request::FindModel { .. } => RequestKind::FindModel,
            Request::FindModelByCanonical { .. } => RequestKind::FindModelByCanonical,
            Request::ListModels { .. } => RequestKind::ListModels,
            Request::CreateModel { .. } => RequestKind::CreateModel,
            Request::UpdateModel { .. } => RequestKind::UpdateModel,
            Request::DeleteModel { .. } => RequestKind::DeleteModel,
        }
    }
}

impl Reply {
    /// Whether this is a reply to a request of the given kind.
    pub open spec fn answers(self, kind: RequestKind) -> bool {
        match self {
            Reply::Scope(_) => kind.decides(),
            Reply::CachedChain(_) => kind is CachedChain,
            Reply::Ancestors(_) => kind is Ancestors,
            Reply::Stored => kind is StoreChain,
            Reply::Provider(_) => kind is FindProvider || kind is CreateProvider
                || kind is UpdateProvider,
            Reply::Providers(_) => kind is FindProvidersBySlug || kind is ListProvidersOfTenants
                || kind is FindProvidersByIds,
            Reply::ProviderPage(_) => kind is ListProviders,
            Reply::Model(_) => kind is FindModel || kind is FindModelByCanonical
                || kind is CreateModel || kind is UpdateModel,
            Reply::ModelPage(_) => kind is ListModels,
            Reply::Deleted(_) => kind is DeleteProvider || kind is DeleteModel,
        }
    }
}

impl Reply {
    /// Whether this is a reply to a request of the given kind.
    pub fn is_answer_to(&self, kind: RequestKind) -> (r: bool)
        ensures
            r == self.answers(kind),
    {
        match self {
            Reply::Scope(_) => matches!(
                kind,
                RequestKind::AuthorizeModel | RequestKind::AuthorizeProvider
            ),
            Reply::CachedChain(_) => matches!(kind, RequestKind::CachedChain),
            Reply::Ancestors(_) => matches!(kind, RequestKind::Ancestors),
            Reply::Stored => matches!(kind, RequestKind::StoreChain),
            Reply::Provider(_) => matches!(
                kind,
                RequestKind::FindProvider | RequestKind::CreateProvider
                    | RequestKind::UpdateProvider
            ),
            Reply::Providers(_) => matches!(
                kind,
                RequestKind::FindProvidersBySlug | RequestKind::ListProvidersOfTenants
                    | RequestKind::FindProvidersByIds
            ),
            Reply::ProviderPage(_) => matches!(kind, RequestKind::ListProviders),
            Reply::Model(_) => matches!(
                kind,
                RequestKind::FindModel | RequestKind::FindModelByCanonical
                    | RequestKind::CreateModel | RequestKind::UpdateModel
            ),
            Reply::ModelPage(_) => matches!(kind, RequestKind::ListModels),
            Reply::Deleted(_) => matches!(
                kind,
                RequestKind::DeleteProvider | RequestKind::DeleteModel
            ),
        }
    }

    /// Whether the reply says that the work was refused or failed. A miss in the
    /// cache is no failure.
    pub open spec fn fails(self) -> bool {
        match self {
            Reply::Scope(r) => r is Err,
            Reply::CachedChain(_) => false,
            Reply::Ancestors(r) => r is Err,
            Reply::Stored => false,
            Reply::Provider(r) => r is Err,
            Reply::Providers(r) => r is Err,
            Reply::ProviderPage(r) => r is Err,
            Reply::Model(r) => r is Err,
            Reply::ModelPage(r) => r is Err,
            Reply::Deleted(r) => r is Err,
        }
    }
}

/// Where an operation stands: it waits for a reply to `request`, or it is done.
#[derive(Debug)]
pub enum Step<S, T> {
    Ask { state: S, request: Request },
    Done { result: Result<T, DomainError> },
}

/// An operation that waits for a reply.
pub trait Operation: Sized {
    /// What the operation ends with.
    type Output;

    /// The kind of request whose reply the operation waits for.
    spec fn pending(self) -> RequestKind;

    /// Whether the operation looks at the caller's tenant chain.
    spec fn resolves_chain() -> bool;

    /// Whether `reply` takes the operation to `step`.
    spec fn leads_to(self, reply: Reply, step: Step<Self, Self::Output>) -> bool;

    /// The kind of request whose reply the operation waits for.
    fn awaits(&self) -> (kind: RequestKind)
        ensures
            kind == self.pending(),
    ;

    /// Takes the operation on with the reply it waits for.
    fn resume(self, reply: Reply) -> (step: Step<Self, Self::Output>)
        requires
            reply.answers(self.pending()),
        ensures
            self.leads_to(reply, step),
    ;

    /// What an operation asks for next has its turn later, and it waits for just
    /// that. An operation that does not look at the chain never asks about it. A
    /// failed reply ends the operation with an error, a refused decision with the
    /// error that stands for it.
    proof fn law_step(self, reply: Reply, step: Step<Self, Self::Output>)
        requires
            reply.answers(self.pending()),
            self.leads_to(reply, step),
        ensures
            step matches Step::Ask { state, request } ==> request.kind() == state.pending()
                && self.pending().turn() < request.kind().turn() && (!Self::resolves_chain()
                ==> !request.kind().about_chain()),
            reply.fails() ==> step is Done && step->result is Err,
            reply matches Reply::Scope(Err(e)) ==> step->result->Err_0@ == enforcer_to_domain(e),
    ;
}

/// Whether `step` begins an operation with an access decision, or ends it at once.
pub open spec fn begins<O: Operation>(step: Step<O, O::Output>) -> bool {
    step matches Step::Ask { state, request } ==> request.kind() == state.pending()
        && request.kind().decides()
}

/// Whether `steps` is a run of an operation: it begins by waiting for what it has
/// asked for, and each reply takes it from one step to the next.
pub open spec fn is_run<O: Operation>(
    steps: Seq<Step<O, O::Output>>,
    replies: Seq<Reply>,
) -> bool {
    &&& steps.len() == replies.len() + 1
    &&& steps[0] matches Step::Ask { state, request } ==> request.kind() == state.pending()
    &&& forall|i: int|
        0 <= i < replies.len() ==> #[trigger] steps[i] is Ask && replies[i].answers(
            steps[i]->state.pending(),
        ) && steps[i]->state.leads_to(replies[i], steps[i + 1])
}

/// In every run, each request has its turn after all requests before it.
pub proof fn law_requests_in_turn<O: Operation>(
    steps: Seq<Step<O, O::Output>>,
    replies: Seq<Reply>,
    i: int,
    j: int,
)
    requires
        is_run(steps, replies),
        0 <= i <= j < steps.len(),
        steps[i] is Ask,
        steps[j] is Ask,
    ensures
        steps[j]->request.kind() == steps[j]->state.pending(),
        i < j ==> steps[i]->request.kind().turn() < steps[j]->request.kind().turn(),
        steps[j]->request.kind().turn() - steps[i]->request.kind().turn() >= j - i,
    decreases j,
{
    if j > 0 {
        let before = steps[j - 1];
        assert(before is Ask);
        law_requests_in_turn(steps, replies, j - 1, j - 1);
        before->state.law_step(replies[j - 1], steps[j]);
        if i < j {
            law_requests_in_turn(steps, replies, i, j - 1);
        }
    }
}

/// In every run, no kind of request is made twice. In particular a listing makes
/// one query for providers and one for models, however long the tenant chain is.
pub proof fn law_no_request_twice<O: Operation>(
    steps: Seq<Step<O, O::Output>>,
    replies: Seq<Reply>,
    i: int,
    j: int,
)
    requires
        is_run(steps, replies),
        0 <= i < j < steps.len(),
        steps[i] is Ask,
        steps[j] is Ask,
    ensures
        steps[i]->request.kind() != steps[j]->request.kind(),
{
    law_requests_in_turn(steps, replies, i, j);
}

/// Every run ends: none makes more than nine requests.
pub proof fn law_runs_end<O: Operation>(steps: Seq<Step<O, O::Output>>, replies: Seq<Reply>)
    requires
        is_run(steps, replies),
    ensures
        replies.len() <= 9,
        steps.len() == 10 ==> steps[9] is Done,
{
    if replies.len() > 9 {
        assert(steps[0] is Ask && steps[9] is Ask);
        law_requests_in_turn(steps, replies, 0, 9);
    }
    if steps.len() == 10 && steps[9] is Ask {
        assert(steps[0] is Ask);
        law_requests_in_turn(steps, replies, 0, 9);
    }
}

/// Operations fail closed: after a failed reply a run makes no further request,
/// and its result is an error.
pub proof fn law_failure_ends<O: Operation>(
    steps: Seq<Step<O, O::Output>>,
    replies: Seq<Reply>,
    i: int,
)
    requires
        is_run(steps, replies),
        0 <= i < replies.len(),
    ensures
        steps[i] is Ask,
        replies[i].fails() ==> i + 1 == replies.len() && steps.last() is Done
            && steps.last()->result is Err,
{
    steps[i]->state.law_step(replies[i], steps[i + 1]);
    if replies[i].fails() && i + 1 < replies.len() {
        assert(steps[i + 1] is Ask);
    }
}

/// An operation that begins with an access decision reads and writes nothing
/// before the decision is taken.
pub proof fn law_decision_first<O: Operation>(
    steps: Seq<Step<O, O::Output>>,
    replies: Seq<Reply>,
    i: int,
)
    requires
        is_run(steps, replies),
        begins(steps[0]),
        0 < i < steps.len(),
        steps[i] is Ask,
        !(steps[i]->request.kind().decides()),
    ensures
        steps[0] is Ask,
        steps[0]->request is Authorize,
        replies[0] matches Reply::Scope(Ok(_)),
{
    law_failure_ends(steps, replies, 0);
}

/// An operation that does not look at the tenant chain never touches the cache of
/// chains nor the tenant directory.
pub proof fn law_chain_untouched<O: Operation>(
    steps: Seq<Step<O, O::Output>>,
    replies: Seq<Reply>,
    i: int,
)
    requires
        is_run(steps, replies),
        !O::resolves_chain(),
        begins(steps[0]),
        0 <= i < steps.len(),
        steps[i] is Ask,
    ensures
        !steps[i]->request.kind().about_chain(),
{
    if i > 0 {
        let before = steps[i - 1];
        assert(before is Ask);
        before->state.law_step(replies[i - 1], steps[i]);
    }
}

} // verus!
