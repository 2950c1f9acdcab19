//! The operations that take one decision and make one storage request under the
//! scope it grants. What storage replies is their result.
use vstd::prelude::*;
use crate::ids::Uuid;
use crate::registry::error::{enforcer_to_domain, DomainError};
use crate::registry::models::{
    CreateProviderRequestV1, ModelV1, ProviderV1, UpdateProviderRequestV1,
};
use crate::registry::operation::{Operation, Reply, Request, RequestKind, Step};
use crate::registry::query::{ODataQuery, Page};

verus! {

/// Reads one provider.
#[derive(Debug)]
pub enum GetProvider {
    /// Waits for the access decision.
    Authorizing { id: Uuid },
    /// Waits for the provider.
    Reading,
}

impl Operation for GetProvider {
    type Output = ProviderV1;

    open spec fn pending(self) -> RequestKind {
        match self {
            GetProvider::Authorizing { .. } => RequestKind::AuthorizeProvider,
            GetProvider::Reading => RequestKind::FindProvider,
        }
    }

    open spec fn resolves_chain() -> bool {
        false
    }

    open spec fn leads_to(self, reply: Reply, step: Step<Self, ProviderV1>) -> bool {
        match (self, reply) {
            (GetProvider::Authorizing { id }, Reply::Scope(Ok(scope))) => step == (Step::<
                GetProvider,
                ProviderV1,
            >::Ask {
                state: GetProvider::Reading,
                request: Request::FindProvider { scope, id },
            }),
            (GetProvider::Authorizing { .. }, Reply::Scope(Err(e))) => step matches Step::Done {
                result: Err(d),
            } && d@ == enforcer_to_domain(e),
            (GetProvider::Reading, Reply::Provider(result)) => step == (Step::<
                GetProvider,
                ProviderV1,
            >::Done { result }),
            _ => false,
        }
    }

    fn awaits(&self) -> (kind: RequestKind) {
        match self {
            GetProvider::Authorizing { .. } => RequestKind::AuthorizeProvider,
            GetProvider::Reading => RequestKind::FindProvider,
        }
    }

    fn resume(self, reply: Reply) -> (step: Step<Self, ProviderV1>) {
        match (self, reply) {
            (GetProvider::Authorizing { id }, Reply::Scope(decision)) => match decision {
                Ok(scope) => Step::Ask {
                    state: GetProvider::Reading,
                    request: Request::FindProvider { scope, id },
                },
                Err(e) => Step::Done { result: Err(DomainError::from(e)) },
            },
            (GetProvider::Reading, Reply::Provider(result)) => Step::Done { result },
            _ => vstd::pervasive::unreached(),
        }
    }

    proof fn law_step(self, reply: Reply, step: Step<Self, ProviderV1>) {
    }
}

/// Lists providers.
#[derive(Debug)]
pub enum ListProviders {
    /// Waits for the access decision.
    Authorizing { query: ODataQuery },
    /// Waits for the page.
    Listing,
}

impl Operation for ListProviders {
    type Output = Page<ProviderV1>;

    open spec fn pending(self) -> RequestKind {
        match self {
            ListProviders::Authorizing { .. } => RequestKind::AuthorizeProvider,
            ListProviders::Listing => RequestKind::ListProviders,
        }
    }

    open spec fn resolves_chain() -> bool {
        false
    }

    open spec fn leads_to(self, reply: Reply, step: Step<Self, Page<ProviderV1>>) -> bool {
        match (self, reply) {
            (ListProviders::Authorizing { query }, Reply::Scope(Ok(scope))) => step == (Step::<
                ListProviders,
                Page<ProviderV1>,
            >::Ask {
                state: ListProviders::Listing,
                request: Request::ListProviders { scope, query },
            }),
            (ListProviders::Authorizing { .. }, Reply::Scope(Err(e))) => step matches Step::Done {
                result: Err(d),
            } && d@ == enforcer_to_domain(e),
            (ListProviders::Listing, Reply::ProviderPage(result)) => step == (Step::<
                ListProviders,
                Page<ProviderV1>,
            >::Done { result }),
            _ => false,
        }
    }

    fn awaits(&self) -> (kind: RequestKind) {
        match self {
            ListProviders::Authorizing { .. } => RequestKind::AuthorizeProvider,
            ListProviders::Listing => RequestKind::ListProviders,
        }
    }

    fn resume(self, reply: Reply) -> (step: Step<Self, Page<ProviderV1>>) {
        match (self, reply) {
            (ListProviders::Authorizing { query }, Reply::Scope(decision)) => match decision {
                Ok(scope) => Step::Ask {
                    state: ListProviders::Listing,
                    request: Request::ListProviders { scope, query },
                },
                Err(e) => Step::Done { result: Err(DomainError::from(e)) },
            },
            (ListProviders::Listing, Reply::ProviderPage(result)) => Step::Done { result },
            _ => vstd::pervasive::unreached(),
        }
    }

    proof fn law_step(self, reply: Reply, step: Step<Self, Page<ProviderV1>>) {
    }
}

/// Registers a provider.
#[derive(Debug)]
pub enum CreateProvider {
    /// Waits for the access decision.
    Authorizing { tenant_id: Uuid, request: CreateProviderRequestV1 },
    /// Waits for the new provider.
    Creating,
}

impl Operation for CreateProvider {
    type Output = ProviderV1;

    open spec fn pending(self) -> RequestKind {
        match self {
            CreateProvider::Authorizing { .. } => RequestKind::AuthorizeProvider,
            CreateProvider::Creating => RequestKind::CreateProvider,
        }
    }

    open spec fn resolves_chain() -> bool {
        false
    }

    open spec fn leads_to(self, reply: Reply, step: Step<Self, ProviderV1>) -> bool {
        match (self, reply) {
            (
                CreateProvider::Authorizing { tenant_id, request },
                Reply::Scope(Ok(scope)),
            ) => step == (Step::<
                CreateProvider,
                ProviderV1,
            >::Ask {
                state: CreateProvider::Creating,
                request: Request::CreateProvider { scope, tenant_id, request },
            }),
            (CreateProvider::Authorizing { .. }, Reply::Scope(Err(e))) => step matches Step::Done {
                result: Err(d),
            } && d@ == enforcer_to_domain(e),
            (CreateProvider::Creating, Reply::Provider(result)) => step == (Step::<
                CreateProvider,
                ProviderV1,
            >::Done { result }),
            _ => false,
        }
    }

    fn awaits(&self) -> (kind: RequestKind) {
        match self {
            CreateProvider::Authorizing { .. } => RequestKind::AuthorizeProvider,
            CreateProvider::Creating => RequestKind::CreateProvider,
        }
    }

    fn resume(self, reply: Reply) -> (step: Step<Self, ProviderV1>) {
        match (self, reply) {
            (
                CreateProvider::Authorizing { tenant_id, request },
                Reply::Scope(decision),
            ) => match decision {
                Ok(scope) => Step::Ask {
                    state: CreateProvider::Creating,
                    request: Request::CreateProvider { scope, tenant_id, request },
                },
                Err(e) => Step::Done { result: Err(DomainError::from(e)) },
            },
            (CreateProvider::Creating, Reply::Provider(result)) => Step::Done { result },
            _ => vstd::pervasive::unreached(),
        }
    }

    proof fn law_step(self, reply: Reply, step: Step<Self, ProviderV1>) {
    }
}

/// Changes a provider.
#[derive(Debug)]
pub enum UpdateProvider {
    /// Waits for the access decision.
    Authorizing { id: Uuid, request: UpdateProviderRequestV1 },
    /// Waits for the changed provider.
    Updating,
}

impl Operation for UpdateProvider {
    type Output = ProviderV1;

    open spec fn pending(self) -> RequestKind {
        match self {
            UpdateProvider::Authorizing { .. } => RequestKind::AuthorizeProvider,
            UpdateProvider::Updating => RequestKind::UpdateProvider,
        }
    }

    open spec fn resolves_chain() -> bool {
        false
    }

    open spec fn leads_to(self, reply: Reply, step: Step<Self, ProviderV1>) -> bool {
        match (self, reply) {
            (UpdateProvider::Authorizing { id, request }, Reply::Scope(Ok(scope))) => step == (Step::<
                UpdateProvider,
                ProviderV1,
            >::Ask {
                state: UpdateProvider::Updating,
                request: Request::UpdateProvider { scope, id, request },
            }),
            (UpdateProvider::Authorizing { .. }, Reply::Scope(Err(e))) => step matches Step::Done {
                result: Err(d),
            } && d@ == enforcer_to_domain(e),
            (UpdateProvider::Updating, Reply::Provider(result)) => step == (Step::<
                UpdateProvider,
                ProviderV1,
            >::Done { result }),
            _ => false,
        }
    }

    fn awaits(&self) -> (kind: RequestKind) {
        match self {
            UpdateProvider::Authorizing { .. } => RequestKind::AuthorizeProvider,
            UpdateProvider::Updating => RequestKind::UpdateProvider,
        }
    }

    fn resume(self, reply: Reply) -> (step: Step<Self, ProviderV1>) {
        match (self, reply) {
            (UpdateProvider::Authorizing { id, request }, Reply::Scope(decision)) => match decision {
                Ok(scope) => Step::Ask {
                    state: UpdateProvider::Updating,
                    request: Request::UpdateProvider { scope, id, request },
                },
                Err(e) => Step::Done { result: Err(DomainError::from(e)) },
            },
            (UpdateProvider::Updating, Reply::Provider(result)) => Step::Done { result },
            _ => vstd::pervasive::unreached(),
        }
    }

    proof fn law_step(self, reply: Reply, step: Step<Self, ProviderV1>) {
    }
}

/// Removes a provider.
#[derive(Debug)]
pub enum DeleteProvider {
    /// Waits for the access decision.
    Authorizing { id: Uuid },
    /// Waits for the removal.
    Deleting,
}

impl Operation for DeleteProvider {
    type Output = ();

    open spec fn pending(self) -> RequestKind {
        match self {
            DeleteProvider::Authorizing { .. } => RequestKind::AuthorizeProvider,
            DeleteProvider::Deleting => RequestKind::DeleteProvider,
        }
    }

    open spec fn resolves_chain() -> bool {
        false
    }

    open spec fn leads_to(self, reply: Reply, step: Step<Self, ()>) -> bool {
        match (self, reply) {
            (DeleteProvider::Authorizing { id }, Reply::Scope(Ok(scope))) => step == (Step::<
                DeleteProvider,
                (),
            >::Ask {
                state: DeleteProvider::Deleting,
                request: Request::DeleteProvider { scope, id },
            }),
            (DeleteProvider::Authorizing { .. }, Reply::Scope(Err(e))) => step matches Step::Done {
                result: Err(d),
            } && d@ == enforcer_to_domain(e),
            (DeleteProvider::Deleting, Reply::Deleted(result)) => step == (Step::<
                DeleteProvider,
                (),
            >::Done { result }),
            _ => false,
        }
    }

    fn awaits(&self) -> (kind: RequestKind) {
        match self {
            DeleteProvider::Authorizing { .. } => RequestKind::AuthorizeProvider,
            DeleteProvider::Deleting => RequestKind::DeleteProvider,
        }
    }

    fn resume(self, reply: Reply) -> (step: Step<Self, ()>) {
        match (self, reply) {
            (DeleteProvider::Authorizing { id }, Reply::Scope(decision)) => match decision {
                Ok(scope) => Step::Ask {
                    state: DeleteProvider::Deleting,
                    request: Request::DeleteProvider { scope, id },
                },
                Err(e) => Step::Done { result: Err(DomainError::from(e)) },
            },
            (DeleteProvider::Deleting, Reply::Deleted(result)) => Step::Done { result },
            _ => vstd::pervasive::unreached(),
        }
    }

    proof fn law_step(self, reply: Reply, step: Step<Self, ()>) {
    }
}

/// Reads one model, whatever its state and its provider's.
#[derive(Debug)]
pub enum GetModel {
    /// Waits for the access decision.
    Authorizing { id: Uuid },
    /// Waits for the model.
    Reading,
}

impl Operation for GetModel {
    type Output = ModelV1;

    open spec fn pending(self) -> RequestKind {
        match self {
            GetModel::Authorizing { .. } => RequestKind::AuthorizeModel,
            GetModel::Reading => RequestKind::FindModel,
        }
    }

    open spec fn resolves_chain() -> bool {
        false
    }

    open spec fn leads_to(self, reply: Reply, step: Step<Self, ModelV1>) -> bool {
        match (self, reply) {
            (GetModel::Authorizing { id }, Reply::Scope(Ok(scope))) => step == (Step::<
                GetModel,
                ModelV1,
            >::Ask {
                state: GetModel::Reading,
                request: Request::FindModel { scope, id },
            }),
            (GetModel::Authorizing { .. }, Reply::Scope(Err(e))) => step matches Step::Done {
                result: Err(d),
            } && d@ == enforcer_to_domain(e),
            (GetModel::Reading, Reply::Model(result)) => step == (Step::<
                GetModel,
                ModelV1,
            >::Done { result }),
            _ => false,
        }
    }

    fn awaits(&self) -> (kind: RequestKind) {
        match self {
            GetModel::Authorizing { .. } => RequestKind::AuthorizeModel,
            GetModel::Reading => RequestKind::FindModel,
        }
    }

    fn resume(self, reply: Reply) -> (step: Step<Self, ModelV1>) {
        match (self, reply) {
            (GetModel::Authorizing { id }, Reply::Scope(decision)) => match decision {
                Ok(scope) => Step::Ask {
                    state: GetModel::Reading,
                    request: Request::FindModel { scope, id },
                },
                Err(e) => Step::Done { result: Err(DomainError::from(e)) },
            },
            (GetModel::Reading, Reply::Model(result)) => Step::Done { result },
            _ => vstd::pervasive::unreached(),
        }
    }

    proof fn law_step(self, reply: Reply, step: Step<Self, ModelV1>) {
    }
}

/// Takes a model out of service. The row stays, as a deprecated model.
#[derive(Debug)]
pub enum DeleteModel {
    /// Waits for the access decision.
    Authorizing { id: Uuid },
    /// Waits for the change.
    Deleting,
}

impl Operation for DeleteModel {
    type Output = ();

    open spec fn pending(self) -> RequestKind {
        match self {
            DeleteModel::Authorizing { .. } => RequestKind::AuthorizeModel,
            DeleteModel::Deleting => RequestKind::DeleteModel,
        }
    }

    open spec fn resolves_chain() -> bool {
        false
    }

    open spec fn leads_to(self, reply: Reply, step: Step<Self, ()>) -> bool {
        match (self, reply) {
            (DeleteModel::Authorizing { id }, Reply::Scope(Ok(scope))) => step == (Step::<
                DeleteModel,
                (),
            >::Ask {
                state: DeleteModel::Deleting,
                request: Request::DeleteModel { scope, id },
            }),
            (DeleteModel::Authorizing { .. }, Reply::Scope(Err(e))) => step matches Step::Done {
                result: Err(d),
            } && d@ == enforcer_to_domain(e),
            (DeleteModel::Deleting, Reply::Deleted(result)) => step == (Step::<
                DeleteModel,
                (),
            >::Done { result }),
            _ => false,
        }
    }

    fn awaits(&self) -> (kind: RequestKind) {
        match self {
            DeleteModel::Authorizing { .. } => RequestKind::AuthorizeModel,
            DeleteModel::Deleting => RequestKind::DeleteModel,
        }
    }

    fn resume(self, reply: Reply) -> (step: Step<Self, ()>) {
        match (self, reply) {
            (DeleteModel::Authorizing { id }, Reply::Scope(decision)) => match decision {
                Ok(scope) => Step::Ask {
                    state: DeleteModel::Deleting,
                    request: Request::DeleteModel { scope, id },
                },
                Err(e) => Step::Done { result: Err(DomainError::from(e)) },
            },
            (DeleteModel::Deleting, Reply::Deleted(result)) => Step::Done { result },
            _ => vstd::pervasive::unreached(),
        }
    }

    proof fn law_step(self, reply: Reply, step: Step<Self, ()>) {
    }
}

} // verus!
