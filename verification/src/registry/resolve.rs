//! Resolving the caller's tenant chain: from the cache, else from the tenant
//! directory, whose answer is then put into the cache.
use vstd::prelude::*;
use crate::ids::Uuid;
use crate::registry::error::{DomainError, DomainErrorView};
use crate::registry::inheritance::InheritanceContext;
use crate::registry::operation::{is_run, BarrierMode, Operation, Reply, Request, RequestKind, Step};
use crate::registry::security::SecurityContext;

verus! {

/// A copy of a list of identifiers.
pub fn copy_ids(ids: &[Uuid]) -> (r: Vec<Uuid>)
    ensures
        r@ == ids@,
{
    let mut r: Vec<Uuid> = Vec::new();
    let mut i: usize = 0;
    while i < ids.len()
        invariant
            i <= ids@.len(),
            r@ == ids@.subrange(0, i as int),
        decreases ids@.len() - i,
    {
        r.push(ids[i]);
        i += 1;
        assert(r@ =~= ids@.subrange(0, i as int));
    }
    assert(r@ =~= ids@);
    r
}

/// The resolution of a tenant chain.
#[derive(Debug)]
pub enum ResolveAncestors {
    /// Waits for the cache.
    ReadingCache { ctx: SecurityContext },
    /// Waits for the tenant directory.
    AskingDirectory { ctx: SecurityContext },
    /// Waits for the cache to take the chain.
    StoringChain { inheritance: InheritanceContext },
}

/// The error for a directory that fails with `message`.
pub open spec fn directory_failure(message: Seq<char>) -> DomainErrorView {
    DomainErrorView::Internal {
        detail: "tenant-resolver ancestors call failed"@,
        source: Some(message),
    }
}

/// Starts to resolve the chain of the caller's tenant. A chain in the cache is
/// taken as it is, even an empty one; the directory is asked only on a miss, and
/// then stops at a tenant that manages itself.
pub fn resolve_ancestors(ctx: &SecurityContext) -> (step: Step<ResolveAncestors, InheritanceContext>)
    ensures
        step == (Step::<ResolveAncestors, InheritanceContext>::Ask {
            state: ResolveAncestors::ReadingCache { ctx: *ctx },
            request: Request::CachedChain { tenant_id: ctx.subject_tenant_id },
        }),
{
    let tenant_id = ctx.subject_tenant_id();
    Step::Ask {
        state: ResolveAncestors::ReadingCache { ctx: *ctx },
        request: Request::CachedChain { tenant_id },
    }
}

impl Operation for ResolveAncestors {
    type Output = InheritanceContext;

    open spec fn pending(self) -> RequestKind {
        match self {
            ResolveAncestors::ReadingCache { .. } => RequestKind::CachedChain,
            ResolveAncestors::AskingDirectory { .. } => RequestKind::Ancestors,
            ResolveAncestors::StoringChain { .. } => RequestKind::StoreChain,
        }
    }

    open spec fn resolves_chain() -> bool {
        true
    }

    open spec fn leads_to(self, reply: Reply, step: Step<Self, InheritanceContext>) -> bool {
        match (self, reply) {
            (
                ResolveAncestors::ReadingCache { ctx },
                Reply::CachedChain(Some(ids)),
            ) => step matches Step::Done { result: Ok(inheritance) } && inheritance.chain()
                == seq![ctx.subject_tenant_id] + ids@,
            (ResolveAncestors::ReadingCache { ctx }, Reply::CachedChain(None)) => step
                == (Step::<ResolveAncestors, InheritanceContext>::Ask {
                state: ResolveAncestors::AskingDirectory { ctx },
                request: Request::Ancestors {
                    ctx,
                    tenant_id: ctx.subject_tenant_id,
                    barrier_mode: BarrierMode::Respect,
                },
            }),
            (
                ResolveAncestors::AskingDirectory { ctx },
                Reply::Ancestors(Ok(ids)),
            ) => step matches Step::Ask {
                state: ResolveAncestors::StoringChain { inheritance },
                request: Request::StoreChain { tenant_id: stored_for, ancestor_ids },
            } && inheritance.chain() == seq![ctx.subject_tenant_id] + ids@ && stored_for
                == ctx.subject_tenant_id && ancestor_ids@ == ids@,
            (
                ResolveAncestors::AskingDirectory { .. },
                Reply::Ancestors(Err(message)),
            ) => step matches Step::Done { result: Err(e) } && e@ == directory_failure(message@),
            (ResolveAncestors::StoringChain { inheritance }, Reply::Stored) => step == (Step::<
                ResolveAncestors,
                InheritanceContext,
            >::Done { result: Ok(inheritance) }),
            _ => false,
        }
    }

    fn awaits(&self) -> (kind: RequestKind) {
        match self {
            ResolveAncestors::ReadingCache { .. } => RequestKind::CachedChain,
            ResolveAncestors::AskingDirectory { .. } => RequestKind::Ancestors,
            ResolveAncestors::StoringChain { .. } => RequestKind::StoreChain,
        }
    }

    fn resume(self, reply: Reply) -> (step: Step<Self, InheritanceContext>) {
        match (self, reply) {
            (ResolveAncestors::ReadingCache { ctx }, Reply::CachedChain(found)) => {
                match found {
                    Some(ids) =>
                        Step::Done { result: Ok(InheritanceContext::new(ctx.subject_tenant_id, ids)) },
                    None => Step::Ask {
                        state: ResolveAncestors::AskingDirectory { ctx },
                        request: Request::Ancestors {
                    ctx,
                    tenant_id: ctx.subject_tenant_id,
                    barrier_mode: BarrierMode::Respect,
                },
                    },
                }
            },
            (ResolveAncestors::AskingDirectory { ctx }, Reply::Ancestors(found)) => {
                match found {
                    Ok(ids) => {
                        let ancestor_ids = copy_ids(ids.as_slice());
                        Step::Ask {
                            state: ResolveAncestors::StoringChain {
                                inheritance: InheritanceContext::new(ctx.subject_tenant_id, ids),
                            },
                            request: Request::StoreChain {
                                tenant_id: ctx.subject_tenant_id,
                                ancestor_ids,
                            },
                        }
                    },
                    Err(message) => Step::Done {
                        result: Err(
                            DomainError::internal_from(
                                "tenant-resolver ancestors call failed",
                                message,
                            ),
                        ),
                    },
                }
            },
            (ResolveAncestors::StoringChain { inheritance }, _) => Step::Done {
                result: Ok(inheritance),
            },
            _ => vstd::pervasive::unreached(),
        }
    }

    proof fn law_step(self, reply: Reply, step: Step<Self, InheritanceContext>) {
    }
}

/// A resolution that succeeds yields the caller's tenant followed by the ancestors
/// that the cache had, in which case the directory is not asked, or else those that
/// the directory gave, which are then offered to the cache.
pub proof fn law_chain_from_cache_or_directory(
    ctx: SecurityContext,
    steps: Seq<Step<ResolveAncestors, InheritanceContext>>,
    replies: Seq<Reply>,
)
    requires
        is_run(steps, replies),
        steps[0] == (Step::<ResolveAncestors, InheritanceContext>::Ask {
            state: ResolveAncestors::ReadingCache { ctx },
            request: Request::CachedChain { tenant_id: ctx.subject_tenant_id },
        }),
        steps.last() matches Step::Done { result } && result is Ok,
    ensures
        match replies[0] {
            Reply::CachedChain(Some(ids)) => replies.len() == 1
                && steps.last()->result->Ok_0.chain() == seq![ctx.subject_tenant_id] + ids@,
            _ => {
                &&& replies.len() == 3
                &&& replies[1] matches Reply::Ancestors(Ok(ids))
                &&& steps.last()->result->Ok_0.chain() == seq![ctx.subject_tenant_id] + ids@
                &&& steps[2]->request matches Request::StoreChain { tenant_id, ancestor_ids }
                &&& tenant_id == ctx.subject_tenant_id
                &&& ancestor_ids@ == ids@
            },
        },
{
    let n = replies.len() as int;
    assert(n >= 1) by {
        if n == 0 {
            assert(steps.last() == steps[0]);
        }
    }
    assert(steps[0]->state.leads_to(replies[0], steps[1]));
    if steps[1] is Done {
        assert(n == 1) by {
            if n > 1 {
                assert(steps[1] is Ask);
            }
        }
    } else {
        assert(n >= 2) by {
            if n == 1 {
                assert(steps.last() == steps[1]);
            }
        }
        assert(steps[1]->state.leads_to(replies[1], steps[2]));
        if n == 2 {
            assert(steps.last() == steps[2]);
        }
        assert(n >= 3) by {
            if steps[2] is Done && n > 2 {
                assert(steps[2] is Ask);
            }
        }
        assert(steps[2]->state.leads_to(replies[2], steps[3]));
        if n > 3 {
            assert(steps[3] is Ask);
        }
    }
}

} // verus!
