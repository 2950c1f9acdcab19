//! What failures become: for callers inside the process, on the wire, and as texts.
use vstd::prelude::*;
use crate::ids::uuid_text;
use crate::registry::client::client_result;
use crate::registry::error::{DomainError, EnforcerError, ModelRegistryError};
use crate::registry::rest::problem::{CanonicalError, CanonicalErrorView, InvalidArgument};

verus! {

/// A denial says so, with its reason where there is one. A decision that could not be
/// taken is a failure, which keeps its cause.
pub proof fn law_denial(e: EnforcerError, d: DomainError)
    requires
        call_ensures(<DomainError as From<EnforcerError>>::from, (e,), d),
    ensures
        e matches EnforcerError::Denied { deny_reason: None } ==> (
        d matches DomainError::Forbidden(message) && message@ == "access denied"@),
        e matches EnforcerError::Denied { deny_reason: Some(reason) } ==> (
        d matches DomainError::Forbidden(message) && message@ == "access denied: "@ + reason@),
        e matches EnforcerError::EvaluationFailed { source: cause } ==> (
        d matches DomainError::Internal { detail, source: Some(kept) } && detail@
            == "authorization evaluation failed"@ && kept@ == cause@),
        e matches EnforcerError::CompileFailed { source: cause } ==> (
        d matches DomainError::Internal { detail, source: Some(kept) } && detail@
            == "authorization constraint compilation failed"@ && kept@ == cause@),
{
}

/// Whether `s` is what a caller inside the process gets for `e`: the same failure, about
/// the same thing. A provider of another tenant is a denial to the caller, and a failure
/// of the database an internal one.
pub open spec fn same_failure(e: DomainError, s: ModelRegistryError) -> bool {
    match e {
        DomainError::ModelNotFound { canonical_id: a } => s matches ModelRegistryError::ModelNotFound {
            canonical_id: b,
        } && b@ == a@,
        DomainError::ModelNotFoundById { id: a } => s matches ModelRegistryError::ModelNotFoundById {
            id: b,
        } && b == a,
        DomainError::ProviderNotFound { id: a } => s matches ModelRegistryError::ProviderNotFound {
            id: b,
        } && b == a,
        DomainError::ProviderNotFoundBySlug { slug: a } => s matches ModelRegistryError::ProviderNotFoundBySlug {
            slug: b,
        } && b@ == a@,
        DomainError::ModelDeprecated { canonical_id: a } => s matches ModelRegistryError::ModelDeprecated {
            canonical_id: b,
        } && b@ == a@,
        DomainError::ModelNotApproved { canonical_id: a } => s matches ModelRegistryError::ModelNotApproved {
            canonical_id: b,
        } && b@ == a@,
        DomainError::ProviderDisabled { id: a } => s matches ModelRegistryError::ProviderDisabled {
            id: b,
        } && b == a,
        DomainError::ProviderConflict { slug: a } => s matches ModelRegistryError::ProviderConflict {
            slug: b,
        } && b@ == a@,
        DomainError::InvalidTransition { detail: a } => s matches ModelRegistryError::InvalidTransition {
            detail: b,
        } && b@ == a@,
        DomainError::Validation { message: a } => s matches ModelRegistryError::Validation {
            message: b,
        } && b@ == a@,
        DomainError::Forbidden(a) => s matches ModelRegistryError::Forbidden { message: b } && b@
            == a@,
        DomainError::ProviderNotOwned { slug: a } => s matches ModelRegistryError::Forbidden {
            message: b,
        } && b@ == "provider not owned: "@ + a@,
        DomainError::ProviderHasModels {
            id: a,
            model_count: m,
        } => s matches ModelRegistryError::ProviderHasModels { id: b, model_count: n } && b == a
            && n == m,
        DomainError::Internal { detail: a, source: c } => {
            &&& s matches ModelRegistryError::Internal { detail: b, source: d }
            &&& b@ == a@
            &&& c is None <==> d is None
            &&& c matches Some(cause) ==> d->0@ == cause@
        },
        DomainError::Database(a) => s matches ModelRegistryError::Internal {
            detail: b,
            source: None,
        } && b@ == a@,
    }
}

/// A caller inside the process gets the same failure.
pub proof fn law_failure_for_callers(e: DomainError, s: ModelRegistryError)
    requires
        call_ensures(<ModelRegistryError as From<DomainError>>::from, (e,), s),
    ensures
        same_failure(e, s),
{
}

/// A caller inside the process gets every value as it is, and for a failure the same
/// failure.
pub proof fn law_result_for_callers<T>(
    result: Result<T, DomainError>,
    r: Result<T, ModelRegistryError>,
)
    requires
        call_ensures(client_result::<T>, (result,), r),
    ensures
        result is Ok <==> r is Ok,
        result matches Ok(value) ==> r == Ok::<T, ModelRegistryError>(value),
        result matches Err(e) ==> r is Err && same_failure(e, r->Err_0),
{
}

/// What caused a failure is told exactly of an internal one whose cause is known.
pub proof fn law_cause_told(e: ModelRegistryError, r: Option<&str>)
    requires
        call_ensures(ModelRegistryError::source, (&e,), r),
    ensures
        r matches Some(text) ==> (e matches ModelRegistryError::Internal {
            source: Some(cause),
            ..
        } && text@ == cause@),
        e matches ModelRegistryError::Internal { source: Some(_), .. } ==> r is Some,
{
}

/// Whether a problem names no resource.
pub open spec fn names_nothing(name: Option<&str>) -> bool {
    name is None
}

/// Whether a problem names the resource.
pub open spec fn names(name: Option<&str>, resource: Seq<char>) -> bool {
    name is Some && name->0@ == resource
}

/// How a failure is answered over the wire: with which status, about what, and in which
/// words.
#[verifier::rlimit(40)]
pub proof fn law_failure_on_the_wire(
    e: DomainError,
    p: CanonicalError,
    status: u16,
    name: Option<&str>,
    detail: &str,
)
    requires
        call_ensures(<CanonicalError as From<DomainError>>::from, (e,), p),
        call_ensures(CanonicalError::status_code, (&p,), status),
        call_ensures(CanonicalError::resource_name, (&p,), name),
        call_ensures(CanonicalError::detail, (&p,), detail),
    ensures
        match e {
            DomainError::ModelNotFound { canonical_id } => status == 404 && names(
                name,
                canonical_id@,
            ) && detail@ == "Model not found"@,
            DomainError::ModelNotFoundById { id } => status == 404 && names(
                name,
                uuid_text(id.value),
            ) && detail@ == "Model not found"@,
            DomainError::ProviderNotFound { id } => status == 404 && names(
                name,
                uuid_text(id.value),
            ) && detail@ == "Provider not found"@,
            DomainError::ProviderNotFoundBySlug { slug } => status == 404 && names(name, slug@)
                && detail@ == "Provider not found"@,
            DomainError::ModelDeprecated { canonical_id } => status == 404 && names(
                name,
                canonical_id@,
            ) && detail@ == "Model is deprecated"@,
            DomainError::ModelNotApproved { canonical_id } => status == 403 && names_nothing(name)
                && detail@ == "model not approved: "@ + canonical_id@,
            DomainError::Forbidden(message) => status == 403 && names_nothing(name) && detail@
                == message@,
            DomainError::ProviderNotOwned { slug } => status == 403 && names_nothing(name)
                && detail@ == "provider not owned: "@ + slug@,
            DomainError::ProviderDisabled { id } => status == 403 && names_nothing(name)
                && detail@ == "Provider "@ + uuid_text(id.value) + " is disabled"@,
            DomainError::ProviderConflict { slug } => status == 409 && names(name, slug@)
                && detail@ == "Provider slug already exists"@,
            DomainError::ProviderHasModels { id, model_count } => status == 400 && names(
                name,
                uuid_text(id.value),
            ) && (model_count == 0 ==> detail@ == "provider still owns models"@) && (
            model_count > 0 ==> detail@ == "provider still owns "@ + crate::text::decimal_of(
                model_count as nat,
            ) + " model(s)"@),
            DomainError::InvalidTransition { detail: why } => status == 400 && names_nothing(name)
                && detail@ == why@,
            DomainError::Validation { message } => status == 400 && names_nothing(name)
                && detail@ == message@,
            DomainError::Internal { detail: why, .. } => status == 500 && names_nothing(name)
                && detail@ == why@,
            DomainError::Database(message) => status == 500 && names_nothing(name) && detail@
                == message@,
        },
{
}

/// Problems of a state say which subject and which rule forbid the request.
pub proof fn law_forbidding_states(e: DomainError, p: CanonicalError)
    requires
        call_ensures(<CanonicalError as From<DomainError>>::from, (e,), p),
    ensures
        e is ProviderHasModels ==> (p@ matches CanonicalErrorView::FailedPrecondition {
            violations,
            ..
        } && violations.len() == 1 && violations[0].subject == "provider"@ && violations[0].type_
            == "PROVIDER_HAS_MODELS"@),
        e is InvalidTransition ==> (p@ matches CanonicalErrorView::FailedPrecondition {
            violations,
            ..
        } && violations.len() == 1 && violations[0].subject == "model"@ && violations[0].type_
            == "INVALID_TRANSITION"@),
        e is Validation ==> p@ is InvalidFormat,
{
}

/// A problem's type goes with its status.
pub proof fn law_types_of_problems(p: CanonicalError, status: u16, type_: &'static str)
    requires
        call_ensures(CanonicalError::status_code, (&p,), status),
        call_ensures(CanonicalError::gts_type, (&p,), type_),
    ensures
        match p {
            CanonicalError::NotFound { .. } => status == 404 && type_@
                == "gts.cf.core.errors.err.v1~cf.core.err.not_found.v1~"@,
            CanonicalError::PermissionDenied { .. } => status == 403 && type_@
                == "gts.cf.core.errors.err.v1~cf.core.err.permission_denied.v1~"@,
            CanonicalError::AlreadyExists { .. } => status == 409 && type_@
                == "gts.cf.core.errors.err.v1~cf.core.err.already_exists.v1~"@,
            CanonicalError::FailedPrecondition { .. } => status == 400 && type_@
                == "gts.cf.core.errors.err.v1~cf.core.err.failed_precondition.v1~"@,
            CanonicalError::InvalidArgument { .. } => status == 400 && type_@
                == "gts.cf.core.errors.err.v1~cf.core.err.invalid_argument.v1~"@,
            CanonicalError::Internal { .. } => status == 500 && type_@
                == "gts.cf.core.errors.err.v1~cf.core.err.internal.v1~"@,
        },
{
}

/// A problem says of itself the first thing that it tells of.
pub proof fn law_details_of_problems(p: CanonicalError, text: &str)
    requires
        call_ensures(CanonicalError::detail, (&p,), text),
    ensures
        p matches CanonicalError::NotFound { detail, .. } ==> text@ == detail@,
        p matches CanonicalError::PermissionDenied { reason } ==> text@ == reason@,
        p matches CanonicalError::AlreadyExists { detail, .. } ==> text@ == detail@,
        p matches CanonicalError::FailedPrecondition { ctx, .. } ==> ctx.violations@.len() > 0
            ==> text@ == ctx.violations@[0].description@,
        p matches CanonicalError::InvalidArgument {
            ctx: InvalidArgument::FieldViolations { field_violations },
        } ==> field_violations@.len() > 0 ==> text@ == field_violations@[0].description@,
        p matches CanonicalError::InvalidArgument {
            ctx: InvalidArgument::Format { format },
        } ==> text@ == format@,
        p matches CanonicalError::Internal { detail } ==> text@ == detail@,
{
}

/// A failure inside the registry, as a text.
#[verifier::rlimit(40)]
pub proof fn law_text_of_domain_error(e: DomainError, text: String)
    requires
        call_ensures(DomainError::to_string, (&e,), text),
    ensures
        match e {
            DomainError::ModelNotFound { canonical_id: a } => text@ == "model not found: "@ + a@,
            DomainError::ModelNotFoundById { id: a } => text@ == "model not found: "@ + uuid_text(a.value),
            DomainError::ProviderNotFound { id: a } => text@ == "provider not found: "@ + uuid_text(a.value),
            DomainError::ProviderNotFoundBySlug { slug: a } => text@ == "provider with slug `"@ + a@ + "` not found"@,
            DomainError::ModelDeprecated { canonical_id: a } => text@ == "model deprecated: "@ + a@,
            DomainError::ModelNotApproved { canonical_id: a } => text@ == "model not approved: "@ + a@,
            DomainError::Forbidden(a) => text@ == "forbidden: "@ + a@,
            DomainError::ProviderNotOwned { slug: a } => text@ == "provider not owned: "@ + a@,
            DomainError::ProviderDisabled { id: a } => text@ == "provider disabled: "@ + uuid_text(a.value),
            DomainError::ProviderConflict { slug: a } => text@ == "provider slug already exists: "@ + a@,
            DomainError::ProviderHasModels { model_count: n, .. } => text@ == "provider has existing models: cannot delete provider with "@ + crate::text::decimal_of(
                n as nat,
            ) + " model(s)"@,
            DomainError::InvalidTransition { detail: a } => text@ == "invalid state transition: "@ + a@,
            DomainError::Validation { message: a } => text@ == "validation error: "@ + a@,
            DomainError::Internal { detail: a, .. } => text@ == "internal error: "@ + a@,
            DomainError::Database(a) => text@ == "database error: "@ + a@,
        },
{
}

/// A failure for a caller inside the process, as a text.
#[verifier::rlimit(40)]
pub proof fn law_text_of_registry_error(e: ModelRegistryError, text: String)
    requires
        call_ensures(ModelRegistryError::to_string, (&e,), text),
    ensures
        match e {
            ModelRegistryError::ModelNotFound { canonical_id: a } => text@ == "model not found: "@ + a@,
            ModelRegistryError::ModelNotFoundById { id: a } => text@ == "model not found: "@ + uuid_text(a.value),
            ModelRegistryError::ProviderNotFound { id: a } => text@ == "provider not found: "@ + uuid_text(a.value),
            ModelRegistryError::ProviderNotFoundBySlug { slug: a } => text@ == "provider with slug `"@ + a@ + "` not found"@,
            ModelRegistryError::ModelDeprecated { canonical_id: a } => text@ == "model deprecated: "@ + a@,
            ModelRegistryError::ProviderDisabled { id: a } => text@ == "provider disabled: "@ + uuid_text(a.value),
            ModelRegistryError::ProviderConflict { slug: a } => text@ == "provider slug already exists: "@ + a@,
            ModelRegistryError::InvalidTransition { detail: a } => text@ == "invalid state transition: "@ + a@,
            ModelRegistryError::Validation { message: a } => text@ == "validation error: "@ + a@,
            ModelRegistryError::Internal { detail: a, .. } => text@ == "internal error: "@ + a@,
            ModelRegistryError::Forbidden { message: a } => text@ == "forbidden: "@ + a@,
            ModelRegistryError::ModelNotApproved { canonical_id: a } => text@ == "model not approved for tenant: "@ + a@,
            ModelRegistryError::ProviderHasModels { id: a, model_count: n } => text@ == "provider has "@
                + crate::text::decimal_of(n as nat) + " existing model(s): "@ + uuid_text(a.value),
        },
{
}

} // verus!
