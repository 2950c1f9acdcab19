//! Problems: what a request that failed is answered.
use vstd::prelude::*;
use vstd::string::*;
use crate::ids::uuid_text;
use crate::text::{decimal, decimal_of, join2, join3};
use crate::registry::error::{DomainError, DomainErrorView};

verus! {

/// A field of a request that breaks a rule.
#[derive(Clone, Debug, PartialEq, Eq)]
pub struct FieldViolation {
    pub field: String,
    pub description: String,
    /// A code for the rule.
    pub reason: String,
}

/// The model of a [`FieldViolation`].
pub struct FieldViolationView {
    pub field: Seq<char>,
    pub description: Seq<char>,
    pub reason: Seq<char>,
}

impl View for FieldViolation {
    type V = FieldViolationView;

    open spec fn view(&self) -> FieldViolationView {
        FieldViolationView {
            field: self.field@,
            description: self.description@,
            reason: self.reason@,
        }
    }
}

/// A state that forbids what a request asks for.
#[derive(Clone, Debug, PartialEq, Eq)]
pub struct PreconditionViolation {
    pub subject: String,
    pub description: String,
    pub type_: String,
}

/// The model of a [`PreconditionViolation`].
pub struct PreconditionViolationView {
    pub subject: Seq<char>,
    pub description: Seq<char>,
    pub type_: Seq<char>,
}

impl View for PreconditionViolation {
    type V = PreconditionViolationView;

    open spec fn view(&self) -> PreconditionViolationView {
        PreconditionViolationView {
            subject: self.subject@,
            description: self.description@,
            type_: self.type_@,
        }
    }
}

/// What is wrong with a request.
#[derive(Clone, Debug, PartialEq, Eq)]
pub enum InvalidArgument {
    /// Some of its fields.
    FieldViolations { field_violations: Vec<FieldViolation> },
    /// The request as a whole.
    Format { format: String },
}

/// The states that forbid what a request asks for.
#[derive(Clone, Debug, PartialEq, Eq)]
pub struct FailedPrecondition {
    pub violations: Vec<PreconditionViolation>,
}

/// A problem. Its variant fixes the status and the type that are answered.
#[allow(inconsistent_fields)]
#[derive(Clone, Debug, PartialEq, Eq)]
pub enum CanonicalError {
    NotFound { detail: String, resource_name: String },
    PermissionDenied { reason: String },
    AlreadyExists { detail: String, resource_name: String },
    FailedPrecondition { ctx: FailedPrecondition, resource_name: Option<String> },
    InvalidArgument { ctx: InvalidArgument },
    Internal { detail: String },
}

/// The model of a [`CanonicalError`].
#[allow(inconsistent_fields)]
pub enum CanonicalErrorView {
    NotFound { detail: Seq<char>, resource_name: Seq<char> },
    PermissionDenied { reason: Seq<char> },
    AlreadyExists { detail: Seq<char>, resource_name: Seq<char> },
    FailedPrecondition {
        violations: Seq<PreconditionViolationView>,
        resource_name: Option<Seq<char>>,
    },
    InvalidFields { field_violations: Seq<FieldViolationView> },
    InvalidFormat { format: Seq<char> },
    Internal { detail: Seq<char> },
}

impl View for CanonicalError {
    type V = CanonicalErrorView;

    open spec fn view(&self) -> CanonicalErrorView {
        match *self {
            CanonicalError::NotFound { detail, resource_name } => CanonicalErrorView::NotFound {
                detail: detail@,
                resource_name: resource_name@,
            },
            CanonicalError::PermissionDenied { reason } => CanonicalErrorView::PermissionDenied {
                reason: reason@,
            },
            CanonicalError::AlreadyExists {
                detail,
                resource_name,
            } => CanonicalErrorView::AlreadyExists {
                detail: detail@,
                resource_name: resource_name@,
            },
            CanonicalError::FailedPrecondition {
                ctx,
                resource_name,
            } => CanonicalErrorView::FailedPrecondition {
                violations: ctx.violations@.map_values(|v: PreconditionViolation| v@),
                resource_name: match resource_name {
                    Some(name) => Some(name@),
                    None => None,
                },
            },
            CanonicalError::InvalidArgument {
                ctx: InvalidArgument::FieldViolations { field_violations },
            } => CanonicalErrorView::InvalidFields {
                field_violations: field_violations@.map_values(|v: FieldViolation| v@),
            },
            CanonicalError::InvalidArgument {
                ctx: InvalidArgument::Format { format },
            } => CanonicalErrorView::InvalidFormat { format: format@ },
            CanonicalError::Internal { detail } => CanonicalErrorView::Internal {
                detail: detail@,
            },
        }
    }
}

impl CanonicalErrorView {
    /// The HTTP status that the problem is answered with.
    pub open spec fn status(self) -> u16 {
        match self {
            CanonicalErrorView::NotFound { .. } => 404,
            CanonicalErrorView::PermissionDenied { .. } => 403,
            CanonicalErrorView::AlreadyExists { .. } => 409,
            CanonicalErrorView::FailedPrecondition { .. } => 400,
            CanonicalErrorView::InvalidFields { .. } => 400,
            CanonicalErrorView::InvalidFormat { .. } => 400,
            CanonicalErrorView::Internal { .. } => 500,
        }
    }

    /// The problem's GTS type.
    pub open spec fn type_id(self) -> Seq<char> {
        match self {
            CanonicalErrorView::NotFound { .. } =>
                "gts.cf.core.errors.err.v1~cf.core.err.not_found.v1~"@,
            CanonicalErrorView::PermissionDenied { .. } =>
                "gts.cf.core.errors.err.v1~cf.core.err.permission_denied.v1~"@,
            CanonicalErrorView::AlreadyExists { .. } =>
                "gts.cf.core.errors.err.v1~cf.core.err.already_exists.v1~"@,
            CanonicalErrorView::FailedPrecondition { .. } =>
                "gts.cf.core.errors.err.v1~cf.core.err.failed_precondition.v1~"@,
            CanonicalErrorView::InvalidFields { .. } =>
                "gts.cf.core.errors.err.v1~cf.core.err.invalid_argument.v1~"@,
            CanonicalErrorView::InvalidFormat { .. } =>
                "gts.cf.core.errors.err.v1~cf.core.err.invalid_argument.v1~"@,
            CanonicalErrorView::Internal { .. } =>
                "gts.cf.core.errors.err.v1~cf.core.err.internal.v1~"@,
        }
    }

    /// What the problem says of itself: what was found missing or there, why
    /// access is denied, or the first thing that is wrong.
    pub open spec fn detail(self) -> Seq<char> {
        match self {
            CanonicalErrorView::NotFound { detail, .. } => detail,
            CanonicalErrorView::PermissionDenied { reason } => reason,
            CanonicalErrorView::AlreadyExists { detail, .. } => detail,
            CanonicalErrorView::FailedPrecondition { violations, .. } => if violations.len() > 0 {
                violations[0].description
            } else {
                Seq::empty()
            },
            CanonicalErrorView::InvalidFields { field_violations } => if field_violations.len()
                > 0 {
                field_violations[0].description
            } else {
                Seq::empty()
            },
            CanonicalErrorView::InvalidFormat { format } => format,
            CanonicalErrorView::Internal { detail } => detail,
        }
    }

    /// The problem of one field that breaks a rule.
    pub open spec fn field(
        field: Seq<char>,
        description: Seq<char>,
        reason: Seq<char>,
    ) -> CanonicalErrorView {
        CanonicalErrorView::InvalidFields {
            field_violations: seq![FieldViolationView { field, description, reason }],
        }
    }

    /// The problem of one state that forbids the request.
    pub open spec fn precondition(
        resource_name: Option<Seq<char>>,
        subject: Seq<char>,
        description: Seq<char>,
        type_: Seq<char>,
    ) -> CanonicalErrorView {
        CanonicalErrorView::FailedPrecondition {
            violations: seq![PreconditionViolationView { subject, description, type_ }],
            resource_name,
        }
    }
}

impl CanonicalError {
    /// The HTTP status that the problem is answered with.
    pub fn status_code(&self) -> (r: u16)
        ensures
            r == self@.status(),
    {
        match self {
            CanonicalError::NotFound { .. } => 404,
            CanonicalError::PermissionDenied { .. } => 403,
            CanonicalError::AlreadyExists { .. } => 409,
            CanonicalError::FailedPrecondition { .. } => 400,
            CanonicalError::InvalidArgument { ctx } => match ctx {
                InvalidArgument::FieldViolations { .. } => 400,
                InvalidArgument::Format { .. } => 400,
            },
            CanonicalError::Internal { .. } => 500,
        }
    }

    /// The problem's GTS type.
    pub fn gts_type(&self) -> (r: &'static str)
        ensures
            r@ == self@.type_id(),
    {
        match self {
            CanonicalError::NotFound { .. } =>
                "gts.cf.core.errors.err.v1~cf.core.err.not_found.v1~",
            CanonicalError::PermissionDenied { .. } =>
                "gts.cf.core.errors.err.v1~cf.core.err.permission_denied.v1~",
            CanonicalError::AlreadyExists { .. } =>
                "gts.cf.core.errors.err.v1~cf.core.err.already_exists.v1~",
            CanonicalError::FailedPrecondition { .. } =>
                "gts.cf.core.errors.err.v1~cf.core.err.failed_precondition.v1~",
            CanonicalError::InvalidArgument { ctx } => match ctx {
                InvalidArgument::FieldViolations { .. } =>
                    "gts.cf.core.errors.err.v1~cf.core.err.invalid_argument.v1~",
                InvalidArgument::Format { .. } =>
                    "gts.cf.core.errors.err.v1~cf.core.err.invalid_argument.v1~",
            },
            CanonicalError::Internal { .. } => "gts.cf.core.errors.err.v1~cf.core.err.internal.v1~",
        }
    }

    /// What the problem says of itself.
    pub fn detail(&self) -> (r: &str)
        ensures
            r@ == self@.detail(),
    {
        match self {
            CanonicalError::NotFound { detail, .. } => detail.as_str(),
            CanonicalError::PermissionDenied { reason } => reason.as_str(),
            CanonicalError::AlreadyExists { detail, .. } => detail.as_str(),
            CanonicalError::FailedPrecondition { ctx, .. } => if ctx.violations.len() > 0 {
                ctx.violations[0].description.as_str()
            } else {
                proof {
                    reveal_strlit("");
                }
                assert(""@ =~= Seq::<char>::empty());
                ""
            },
            CanonicalError::InvalidArgument { ctx } => match ctx {
                InvalidArgument::FieldViolations { field_violations } => if field_violations.len()
                    > 0 {
                    field_violations[0].description.as_str()
                } else {
                    proof {
                        reveal_strlit("");
                    }
                    assert(""@ =~= Seq::<char>::empty());
                    ""
                },
                InvalidArgument::Format { format } => format.as_str(),
            },
            CanonicalError::Internal { detail } => detail.as_str(),
        }
    }

    /// The resource that the problem is about, where it names one.
    pub fn resource_name(&self) -> (r: Option<&str>)
        ensures
            match (r, self@) {
                (Some(name), CanonicalErrorView::NotFound { resource_name, .. }) => name@
                    == resource_name,
                (Some(name), CanonicalErrorView::AlreadyExists { resource_name, .. }) => name@
                    == resource_name,
                (Some(name), CanonicalErrorView::FailedPrecondition { resource_name, .. }) =>
                    resource_name == Some(name@),
                (Some(_), _) => false,
                (None, CanonicalErrorView::NotFound { .. }) => false,
                (None, CanonicalErrorView::AlreadyExists { .. }) => false,
                (None, CanonicalErrorView::FailedPrecondition { resource_name, .. }) =>
                    resource_name is None,
                (None, _) => true,
            },
    {
        match self {
            CanonicalError::NotFound { resource_name, .. } => Some(resource_name.as_str()),
            CanonicalError::AlreadyExists { resource_name, .. } => Some(resource_name.as_str()),
            CanonicalError::FailedPrecondition { resource_name, .. } => match resource_name {
                Some(name) => Some(name.as_str()),
                None => None,
            },
            _ => None,
        }
    }

    /// The problem of one field that breaks a rule.
    pub fn field_violation(field: &str, description: String, reason: &str) -> (r: CanonicalError)
        ensures
            r@ == CanonicalErrorView::field(field@, description@, reason@),
    {
        let mut field_violations: Vec<FieldViolation> = Vec::new();
        field_violations.push(
            FieldViolation { field: field.to_owned(), description, reason: reason.to_owned() },
        );
        let r = CanonicalError::InvalidArgument {
            ctx: InvalidArgument::FieldViolations { field_violations },
        };
        proof {
            let views = field_violations@.map_values(|v: FieldViolation| v@);
            assert(views =~= seq![FieldViolationView {
                field: field@,
                description: description@,
                reason: reason@,
            }]);
        }
        r
    }
}

/// Problems of the registry's resources.
#[derive(Clone, Copy, Debug, PartialEq, Eq, Structural)]
pub struct ModelRegistryResourceError;

impl ModelRegistryResourceError {
    /// The GTS type of the registry's resources.
    pub const RESOURCE_TYPE: &'static str = "gts.cf.gears.model_registry.resource.v1~";

    /// Something is missing.
    pub fn not_found(detail: &str, resource_name: String) -> (r: CanonicalError)
        ensures
            r@ == (CanonicalErrorView::NotFound {
                detail: detail@,
                resource_name: resource_name@,
            }),
    {
        CanonicalError::NotFound { detail: detail.to_owned(), resource_name }
    }

    /// Something is denied.
    pub fn permission_denied(reason: String) -> (r: CanonicalError)
        ensures
            r@ == (CanonicalErrorView::PermissionDenied { reason: reason@ }),
    {
        CanonicalError::PermissionDenied { reason }
    }

    /// Something is there already.
    pub fn already_exists(detail: &str, resource_name: String) -> (r: CanonicalError)
        ensures
            r@ == (CanonicalErrorView::AlreadyExists {
                detail: detail@,
                resource_name: resource_name@,
            }),
    {
        CanonicalError::AlreadyExists { detail: detail.to_owned(), resource_name }
    }

    /// A state forbids what was asked for.
    pub fn failed_precondition(
        resource_name: Option<String>,
        subject: &str,
        description: String,
        type_: &str,
    ) -> (r: CanonicalError)
        ensures
            r@ == CanonicalErrorView::precondition(
                match resource_name {
                    Some(name) => Some(name@),
                    None => None,
                },
                subject@,
                description@,
                type_@,
            ),
    {
        let mut violations: Vec<PreconditionViolation> = Vec::new();
        violations.push(
            PreconditionViolation {
                subject: subject.to_owned(),
                description,
                type_: type_.to_owned(),
            },
        );
        let r = CanonicalError::FailedPrecondition {
            ctx: FailedPrecondition { violations },
            resource_name,
        };
        proof {
            let views = violations@.map_values(|v: PreconditionViolation| v@);
            assert(views =~= seq![PreconditionViolationView {
                subject: subject@,
                description: description@,
                type_: type_@,
            }]);
        }
        r
    }
}

impl DomainErrorView {
    /// The problem that an error is answered with.
    pub open spec fn to_problem(self) -> CanonicalErrorView {
        match self {
            DomainErrorView::ModelNotFound { canonical_id } => CanonicalErrorView::NotFound {
                detail: "Model not found"@,
                resource_name: canonical_id,
            },
            DomainErrorView::ModelNotFoundById { id } => CanonicalErrorView::NotFound {
                detail: "Model not found"@,
                resource_name: uuid_text(id.value),
            },
            DomainErrorView::ProviderNotFound { id } => CanonicalErrorView::NotFound {
                detail: "Provider not found"@,
                resource_name: uuid_text(id.value),
            },
            DomainErrorView::ProviderNotFoundBySlug { slug } => CanonicalErrorView::NotFound {
                detail: "Provider not found"@,
                resource_name: slug,
            },
            DomainErrorView::ModelDeprecated { canonical_id } => CanonicalErrorView::NotFound {
                detail: "Model is deprecated"@,
                resource_name: canonical_id,
            },
            DomainErrorView::ModelNotApproved {
                canonical_id,
            } => CanonicalErrorView::PermissionDenied {
                reason: "model not approved: "@ + canonical_id,
            },
            DomainErrorView::Forbidden { message } => CanonicalErrorView::PermissionDenied {
                reason: message,
            },
            DomainErrorView::ProviderNotOwned { slug } => CanonicalErrorView::PermissionDenied {
                reason: "provider not owned: "@ + slug,
            },
            DomainErrorView::ProviderDisabled { id } => CanonicalErrorView::PermissionDenied {
                reason: "Provider "@ + uuid_text(id.value) + " is disabled"@,
            },
            DomainErrorView::ProviderConflict { slug } => CanonicalErrorView::AlreadyExists {
                detail: "Provider slug already exists"@,
                resource_name: slug,
            },
            DomainErrorView::ProviderHasModels {
                id,
                model_count,
            } => CanonicalErrorView::precondition(
                Some(uuid_text(id.value)),
                "provider"@,
                if model_count == 0 {
                    "provider still owns models"@
                } else {
                    "provider still owns "@ + decimal_of(model_count as nat) + " model(s)"@
                },
                "PROVIDER_HAS_MODELS"@,
            ),
            DomainErrorView::InvalidTransition { detail } => CanonicalErrorView::precondition(
                None,
                "model"@,
                detail,
                "INVALID_TRANSITION"@,
            ),
            DomainErrorView::Validation { message } => CanonicalErrorView::InvalidFormat {
                format: message,
            },
            DomainErrorView::Internal { detail, .. } => CanonicalErrorView::Internal { detail },
            DomainErrorView::Database { message } => CanonicalErrorView::Internal {
                detail: message,
            },
        }
    }
}

impl From<DomainError> for CanonicalError {
    fn from(e: DomainError) -> (r: Self)
        ensures
            r@ == e@.to_problem(),
    {
        match e {
            DomainError::ModelNotFound { canonical_id } => ModelRegistryResourceError::not_found(
                "Model not found",
                canonical_id,
            ),
            DomainError::ModelNotFoundById { id } => ModelRegistryResourceError::not_found(
                "Model not found",
                id.to_text(),
            ),
            DomainError::ProviderNotFound { id } => ModelRegistryResourceError::not_found(
                "Provider not found",
                id.to_text(),
            ),
            DomainError::ProviderNotFoundBySlug { slug } => ModelRegistryResourceError::not_found(
                "Provider not found",
                slug,
            ),
            DomainError::ModelDeprecated { canonical_id } => ModelRegistryResourceError::not_found(
                "Model is deprecated",
                canonical_id,
            ),
            DomainError::ModelNotApproved { canonical_id } => {
                let reason = join2("model not approved: ", canonical_id.as_str());
                ModelRegistryResourceError::permission_denied(reason)
            },
            DomainError::Forbidden(message) => ModelRegistryResourceError::permission_denied(
                message,
            ),
            DomainError::ProviderNotOwned { slug } => ModelRegistryResourceError::permission_denied(
                join2("provider not owned: ", slug.as_str()),
            ),
            DomainError::ProviderDisabled { id } => ModelRegistryResourceError::permission_denied(
                join3("Provider ", id.to_text().as_str(), " is disabled"),
            ),
            DomainError::ProviderConflict { slug } => ModelRegistryResourceError::already_exists(
                "Provider slug already exists",
                slug,
            ),
            DomainError::ProviderHasModels { id, model_count } => {
                let description = if model_count == 0 {
                    "provider still owns models".to_owned()
                } else {
                    join3("provider still owns ", decimal(model_count).as_str(), " model(s)")
                };
                ModelRegistryResourceError::failed_precondition(
                    Some(id.to_text()),
                    "provider",
                    description,
                    "PROVIDER_HAS_MODELS",
                )
            },
            DomainError::InvalidTransition { detail } => {
                ModelRegistryResourceError::failed_precondition(
                    None,
                    "model",
                    detail,
                    "INVALID_TRANSITION",
                )
            },
            DomainError::Validation { message } => CanonicalError::InvalidArgument {
                ctx: InvalidArgument::Format { format: message },
            },
            DomainError::Internal { detail, .. } => CanonicalError::Internal { detail },
            DomainError::Database(message) => CanonicalError::Internal { detail: message },
        }
    }
}

impl vstd::std_specs::convert::FromSpecImpl<DomainError> for CanonicalError {
    open spec fn obeys_from_spec() -> bool {
        false
    }

    open spec fn from_spec(e: DomainError) -> Self {
        arbitrary()
    }
}

/// Every error is answered with the status of its class: what is missing or out of
/// service with 404, what is denied with 403, a taken slug with 409, what the
/// request or the state forbids with 400, and a failure with 500.
pub proof fn law_status_of_error(e: DomainErrorView)
    ensures
        e.to_problem().status() == (match e {
            DomainErrorView::ModelNotFound { .. } => 404u16,
            DomainErrorView::ModelNotFoundById { .. } => 404,
            DomainErrorView::ProviderNotFound { .. } => 404,
            DomainErrorView::ProviderNotFoundBySlug { .. } => 404,
            DomainErrorView::ModelDeprecated { .. } => 404,
            DomainErrorView::ModelNotApproved { .. } => 403,
            DomainErrorView::Forbidden { .. } => 403,
            DomainErrorView::ProviderNotOwned { .. } => 403,
            DomainErrorView::ProviderDisabled { .. } => 403,
            DomainErrorView::ProviderConflict { .. } => 409,
            DomainErrorView::ProviderHasModels { .. } => 400,
            DomainErrorView::InvalidTransition { .. } => 400,
            DomainErrorView::Validation { .. } => 400,
            DomainErrorView::Internal { .. } => 500,
            DomainErrorView::Database { .. } => 500,
        }),
{
}

} // verus!
