//! Status fields and query parameters of requests.
use vstd::prelude::*;
use vstd::string::*;
use crate::text::{join2, join3};
use crate::registry::models::{ApprovalStatus, LifecycleStatus, ProviderStatus};
use crate::registry::query::ODataQuery;
use crate::registry::rest::problem::{CanonicalError, CanonicalErrorView};

verus! {

/// The problem of a status field with an unknown value.
pub open spec fn unknown_value(
    field: Seq<char>,
    code: Seq<char>,
    raw: Seq<char>,
    expected: Seq<char>,
) -> CanonicalErrorView {
    CanonicalErrorView::field(
        field,
        "unknown value `"@ + raw + "`, expected one of: "@ + expected,
        code,
    )
}

fn invalid(field: &str, code: &str, raw: &str, expected: &str) -> (r: CanonicalError)
    ensures
        r@ == unknown_value(field@, code@, raw@, expected@),
{
    let description = join2(
        join3("unknown value `", raw, "`, expected one of: ").as_str(),
        expected,
    );
    CanonicalError::field_violation(field, description, code)
}

/// The problem of a provider status that is none.
pub open spec fn provider_status_problem(raw: Seq<char>) -> CanonicalErrorView {
    unknown_value("status"@, "INVALID_PROVIDER_STATUS"@, raw, "active, disabled"@)
}

/// Reads a provider's status.
pub fn provider_status(raw: &str) -> (r: Result<ProviderStatus, CanonicalError>)
    ensures
        match r {
            Ok(status) => status.wire() == raw@,
            Err(e) => (forall|s: ProviderStatus| #[trigger] s.wire() != raw@) && e@
                == provider_status_problem(raw@),
        },
{
    match ProviderStatus::from_wire(raw) {
        Some(status) => Ok(status),
        None => Err(invalid("status", "INVALID_PROVIDER_STATUS", raw, "active, disabled")),
    }
}

/// The problem of a lifecycle status that is none.
pub open spec fn lifecycle_status_problem(raw: Seq<char>) -> CanonicalErrorView {
    unknown_value(
        "lifecycle_status"@,
        "INVALID_LIFECYCLE_STATUS"@,
        raw,
        "production, preview, experimental, deprecated, sunset"@,
    )
}

/// Reads a model's lifecycle status.
pub fn lifecycle_status(raw: &str) -> (r: Result<LifecycleStatus, CanonicalError>)
    ensures
        match r {
            Ok(status) => status.wire() == raw@,
            Err(e) => (forall|s: LifecycleStatus| #[trigger] s.wire() != raw@) && e@
                == lifecycle_status_problem(raw@),
        },
{
    match LifecycleStatus::from_wire(raw) {
        Some(status) => Ok(status),
        None => Err(
            invalid(
                "lifecycle_status",
                "INVALID_LIFECYCLE_STATUS",
                raw,
                "production, preview, experimental, deprecated, sunset",
            ),
        ),
    }
}

/// The problem of an approval status that is none.
pub open spec fn approval_status_problem(raw: Seq<char>) -> CanonicalErrorView {
    unknown_value(
        "approval_status"@,
        "INVALID_APPROVAL_STATUS"@,
        raw,
        "pending, approved, rejected, revoked"@,
    )
}

/// Reads a model's approval status.
pub fn approval_status(raw: &str) -> (r: Result<ApprovalStatus, CanonicalError>)
    ensures
        match r {
            Ok(status) => status.wire() == raw@,
            Err(e) => (forall|s: ApprovalStatus| #[trigger] s.wire() != raw@) && e@
                == approval_status_problem(raw@),
        },
{
    match ApprovalStatus::from_wire(raw) {
        Some(status) => Ok(status),
        None => Err(
            invalid(
                "approval_status",
                "INVALID_APPROVAL_STATUS",
                raw,
                "pending, approved, rejected, revoked",
            ),
        ),
    }
}

/// The problem of a listing that asks for a projection.
pub open spec fn select_problem() -> CanonicalErrorView {
    CanonicalErrorView::field(
        "$select"@,
        "$select is not supported by this endpoint; responses always carry every field"@,
        "UNSUPPORTED_SELECT"@,
    )
}

/// Refuses a listing that asks for a projection: listings return whole values.
pub fn reject_select(query: &ODataQuery) -> (r: Result<(), CanonicalError>)
    ensures
        r is Ok <==> query.select is None,
        r matches Err(e) ==> e@ == select_problem(),
{
    if query.select.is_some() {
        return Err(
            CanonicalError::field_violation(
                "$select",
                "$select is not supported by this endpoint; responses always carry every field".to_owned(),
                "UNSUPPORTED_SELECT",
            ),
        );
    }
    Ok(())
}

/// The query parameters of the administration's listing of models.
#[derive(Clone, Copy, Debug, PartialEq, Eq, Structural)]
pub struct AdminModelsQuery {
    /// Whether models whose life has ended are listed too.
    pub include_deprecated: bool,
}

impl Default for AdminModelsQuery {
    fn default() -> (r: Self)
        ensures
            !r.include_deprecated,
    {
        AdminModelsQuery { include_deprecated: false }
    }
}

/// Every provider status is read back from its own wire text, and from no other
/// status's.
pub proof fn law_provider_status_wire(a: ProviderStatus, b: ProviderStatus)
    ensures
        a.wire() == b.wire() <==> a == b,
{
    reveal_strlit("active");
    reveal_strlit("disabled");
    assert("active"@.len() == 6 && "disabled"@.len() == 8);
}

/// Every lifecycle status is read back from its own wire text, and from no other
/// status's.
pub proof fn law_lifecycle_status_wire(a: LifecycleStatus, b: LifecycleStatus)
    ensures
        a.wire() == b.wire() <==> a == b,
{
    reveal_strlit("production");
    reveal_strlit("preview");
    reveal_strlit("experimental");
    reveal_strlit("deprecated");
    reveal_strlit("sunset");
    assert("production"@[0] == 'p' && "deprecated"@[0] == 'd');
    assert("production"@.len() == 10 && "preview"@.len() == 7 && "experimental"@.len() == 12
        && "deprecated"@.len() == 10 && "sunset"@.len() == 6);
}

/// Every approval status is read back from its own wire text, and from no other
/// status's.
pub proof fn law_approval_status_wire(a: ApprovalStatus, b: ApprovalStatus)
    ensures
        a.wire() == b.wire() <==> a == b,
{
    reveal_strlit("pending");
    reveal_strlit("approved");
    reveal_strlit("rejected");
    reveal_strlit("revoked");
    assert("approved"@[0] == 'a' && "rejected"@[0] == 'r' && "pending"@[0] == 'p'
        && "revoked"@[0] == 'r');
    assert("pending"@.len() == 7 && "approved"@.len() == 8 && "rejected"@.len() == 8
        && "revoked"@.len() == 7);
}

} // verus!
