//! What the service does from a call to its result, whatever the outside world
//! replies.
//!
//! Each law begins with a call of the service, as the call's own contract gives it,
//! follows every run of the operation, and says in terms of the call's arguments, the
//! replies and the rows what is asked for and what comes out.
use vstd::prelude::*;
use crate::ids::Uuid;
use crate::registry::error::{DomainErrorView, EnforcerError};
use crate::registry::models::ProviderV1;
use crate::registry::operation::{Action, Request, ResourceType, Step};
use crate::registry::security::{AccessScopeView, Row, ScopeValueView, SecurityContext};

pub mod single;
pub mod chain;
pub mod reads;
pub mod lists;
pub mod writes;
pub mod stored;
pub mod rules;
pub mod wire;
pub mod failures;
pub mod endpoints;
pub mod fields;
pub mod scopes;
pub mod exchange;
pub mod parts;

verus! {

/// Whether the step asks for `request`.
pub open spec fn asks<S, T>(step: Step<S, T>, request: Request) -> bool {
    step matches Step::Ask { request: asked, .. } && asked == request
}

/// Whether the step asks whether the caller may act.
pub open spec fn asks_whether<S, T>(
    step: Step<S, T>,
    ctx: SecurityContext,
    resource: ResourceType,
    action: Action,
    resource_id: Option<Uuid>,
) -> bool {
    asks(step, Request::Authorize { ctx, resource, action, resource_id })
}

/// Whether the step ends the operation with an error.
pub open spec fn fails_with<S, T>(step: Step<S, T>, e: DomainErrorView) -> bool {
    step matches Step::Done { result: Err(d) } && d@ == e
}

/// Whether the step refuses a request that breaks a rule.
pub open spec fn refuses_request<S, T>(step: Step<S, T>) -> bool {
    step matches Step::Done { result: Err(d) } && d@ is Validation
}

/// Whether the step ends an operation whose caller may not act, or of whom it could not
/// be told. A denial is told as such, with its reason where there is one.
pub open spec fn turns_away<S, T>(step: Step<S, T>, e: EnforcerError) -> bool {
    &&& step matches Step::Done { result: Err(d) }
    &&& match e {
        EnforcerError::Denied { deny_reason: Some(reason) } => d@ == (DomainErrorView::Forbidden {
            message: "access denied: "@ + reason@,
        }),
        EnforcerError::Denied { deny_reason: None } => d@ == (DomainErrorView::Forbidden {
            message: "access denied"@,
        }),
        EnforcerError::EvaluationFailed { source } => d@ == (DomainErrorView::Internal {
            detail: "authorization evaluation failed"@,
            source: Some(source@),
        }),
        EnforcerError::CompileFailed { source } => d@ == (DomainErrorView::Internal {
            detail: "authorization constraint compilation failed"@,
            source: Some(source@),
        }),
    }
}

/// Whether `c` is a lower-case letter, a digit or a hyphen.
pub open spec fn letter_digit_or_hyphen(c: char) -> bool {
    ('a' <= c && c <= 'z') || ('0' <= c && c <= '9') || c == '-'
}

/// Whether `slug` has one to 64 lower-case letters, digits and hyphens.
pub open spec fn slug_rule(slug: Seq<char>) -> bool {
    1 <= slug.len() && slug.len() <= 64 && forall|i: int|
        0 <= i < slug.len() ==> letter_digit_or_hyphen(#[trigger] slug[i])
}

/// Whether `name` has one to 255 characters.
pub open spec fn name_rule(name: Seq<char>) -> bool {
    1 <= name.len() && name.len() <= 255
}

/// Whether an interval, where there is one, fits a signed column of 32 bits.
pub open spec fn interval_rule(interval: Option<u32>) -> bool {
    interval matches Some(v) ==> v <= 2147483647
}

/// Whether one of `tenants` is the owner that the row names.
pub open spec fn row_owned_by(row: Row, tenants: Seq<Uuid>) -> bool {
    exists|i: int|
        0 <= i < tenants.len() && row.contains_key("owner_tenant_id"@) && row["owner_tenant_id"@]
            == ScopeValueView::Uuid(#[trigger] tenants[i])
}

/// Whether a scope admits exactly the rows that one of `tenants` owns.
pub open spec fn admits_rows_of(scope: AccessScopeView, tenants: Seq<Uuid>) -> bool {
    forall|row: Row| #[trigger] scope.admits(row) <==> row_owned_by(row, tenants)
}

/// Whether no two rows share their identifier.
pub open spec fn distinct_ids(rows: Seq<ProviderV1>) -> bool {
    forall|i: int, j: int|
        0 <= i < rows.len() && 0 <= j < rows.len() && (#[trigger] rows[i]).id == (
        #[trigger] rows[j]).id ==> i == j
}

/// Whether the row at `w` belongs to the closest tenant of the chain that owns `slug`:
/// the tenant stands in the chain, and none before it owns a row with the slug.
pub open spec fn closest_owner(
    chain: Seq<Uuid>,
    rows: Seq<ProviderV1>,
    slug: Seq<char>,
    w: int,
) -> bool {
    &&& 0 <= w < rows.len()
    &&& rows[w].slug@ == slug
    &&& exists|p: int|
        {
            &&& 0 <= p < chain.len()
            &&& #[trigger] chain[p] == rows[w].tenant_id
            &&& forall|q: int, j: int|
                0 <= q < p && 0 <= j < rows.len() && (#[trigger] rows[j]).slug@ == slug
                    ==> rows[j].tenant_id != #[trigger] chain[q]
        }
}

/// Whether some tenant of the chain owns a row with the slug.
pub open spec fn owned_in_chain(chain: Seq<Uuid>, rows: Seq<ProviderV1>, slug: Seq<char>) -> bool {
    exists|i: int|
        0 <= i < rows.len() && (#[trigger] rows[i]).slug@ == slug && chain.contains(
            rows[i].tenant_id,
        )
}

} // verus!
