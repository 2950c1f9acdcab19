//! What can go wrong in the registry, inside it and towards its callers.
use vstd::prelude::*;
use vstd::string::*;
use crate::ids::{uuid_text, Uuid};
use crate::text::{decimal, decimal_of, join2, join3};

verus! {

/// The model of an optional text.
pub open spec fn text_view(text: Option<String>) -> Option<Seq<char>> {
    match text {
        Some(s) => Some(s@),
        None => None,
    }
}

/// What can go wrong inside the registry.
#[derive(Clone, Debug)]
pub enum DomainError {
    /// A model with that canonical id is not there.
    ModelNotFound { canonical_id: String },
    /// A model with that identifier is not there.
    ModelNotFoundById { id: Uuid },
    /// A provider with that identifier is not there.
    ProviderNotFound { id: Uuid },
    /// A provider with that slug is not there.
    ProviderNotFoundBySlug { slug: String },
    /// The model's life has ended.
    ModelDeprecated { canonical_id: String },
    /// The model is not approved for the tenant.
    ModelNotApproved { canonical_id: String },
    /// Access is denied.
    Forbidden(String),
    /// The tenant does not own the provider.
    ProviderNotOwned { slug: String },
    /// The provider is disabled.
    ProviderDisabled { id: Uuid },
    /// A provider with that slug is there already.
    ProviderConflict { slug: String },
    /// The provider still has models. A count of zero means that the count is not known.
    ProviderHasModels { id: Uuid, model_count: u64 },
    /// The state of a model forbids the change.
    InvalidTransition { detail: String },
    /// The request breaks a rule.
    Validation { message: String },
    /// An unexpected failure, with what caused it where that is known.
    Internal { detail: String, source: Option<String> },
    /// A failure of the database, as it describes itself.
    Database(String),
}

/// The model of a [`DomainError`].
pub enum DomainErrorView {
    ModelNotFound { canonical_id: Seq<char> },
    ModelNotFoundById { id: Uuid },
    ProviderNotFound { id: Uuid },
    ProviderNotFoundBySlug { slug: Seq<char> },
    ModelDeprecated { canonical_id: Seq<char> },
    ModelNotApproved { canonical_id: Seq<char> },
    Forbidden { message: Seq<char> },
    ProviderNotOwned { slug: Seq<char> },
    ProviderDisabled { id: Uuid },
    ProviderConflict { slug: Seq<char> },
    ProviderHasModels { id: Uuid, model_count: u64 },
    InvalidTransition { detail: Seq<char> },
    Validation { message: Seq<char> },
    Internal { detail: Seq<char>, source: Option<Seq<char>> },
    Database { message: Seq<char> },
}

impl View for DomainError {
    type V = DomainErrorView;

    open spec fn view(&self) -> DomainErrorView {
        match *self {
            DomainError::ModelNotFound { canonical_id } =>
                DomainErrorView::ModelNotFound { canonical_id: canonical_id@ },
            DomainError::ModelNotFoundById { id } => DomainErrorView::ModelNotFoundById { id },
            DomainError::ProviderNotFound { id } => DomainErrorView::ProviderNotFound { id },
            DomainError::ProviderNotFoundBySlug { slug } =>
                DomainErrorView::ProviderNotFoundBySlug { slug: slug@ },
            DomainError::ModelDeprecated { canonical_id } =>
                DomainErrorView::ModelDeprecated { canonical_id: canonical_id@ },
            DomainError::ModelNotApproved { canonical_id } =>
                DomainErrorView::ModelNotApproved { canonical_id: canonical_id@ },
            DomainError::Forbidden(message) => DomainErrorView::Forbidden { message: message@ },
            DomainError::ProviderNotOwned { slug } =>
                DomainErrorView::ProviderNotOwned { slug: slug@ },
            DomainError::ProviderDisabled { id } => DomainErrorView::ProviderDisabled { id },
            DomainError::ProviderConflict { slug } =>
                DomainErrorView::ProviderConflict { slug: slug@ },
            DomainError::ProviderHasModels { id, model_count } =>
                DomainErrorView::ProviderHasModels { id, model_count },
            DomainError::InvalidTransition { detail } =>
                DomainErrorView::InvalidTransition { detail: detail@ },
            DomainError::Validation { message } =>
                DomainErrorView::Validation { message: message@ },
            DomainError::Internal { detail, source } =>
                DomainErrorView::Internal { detail: detail@, source: text_view(source) },
            DomainError::Database(message) => DomainErrorView::Database { message: message@ },
        }
    }
}

impl DomainErrorView {
    /// The error as text.
    pub open spec fn text(self) -> Seq<char> {
        match self {
            DomainErrorView::ModelNotFound { canonical_id } => "model not found: "@ + canonical_id,
            DomainErrorView::ModelNotFoundById { id } => "model not found: "@ + uuid_text(id.value),
            DomainErrorView::ProviderNotFound { id } =>
                "provider not found: "@ + uuid_text(id.value),
            DomainErrorView::ProviderNotFoundBySlug { slug } =>
                "provider with slug `"@ + slug + "` not found"@,
            DomainErrorView::ModelDeprecated { canonical_id } =>
                "model deprecated: "@ + canonical_id,
            DomainErrorView::ModelNotApproved { canonical_id } =>
                "model not approved: "@ + canonical_id,
            DomainErrorView::Forbidden { message } => "forbidden: "@ + message,
            DomainErrorView::ProviderNotOwned { slug } => "provider not owned: "@ + slug,
            DomainErrorView::ProviderDisabled { id } =>
                "provider disabled: "@ + uuid_text(id.value),
            DomainErrorView::ProviderConflict { slug } => "provider slug already exists: "@ + slug,
            DomainErrorView::ProviderHasModels { model_count, .. } =>
                "provider has existing models: cannot delete provider with "@ + decimal_of(
                    model_count as nat,
                ) + " model(s)"@,
            DomainErrorView::InvalidTransition { detail } => "invalid state transition: "@ + detail,
            DomainErrorView::Validation { message } => "validation error: "@ + message,
            DomainErrorView::Internal { detail, .. } => "internal error: "@ + detail,
            DomainErrorView::Database { message } => "database error: "@ + message,
        }
    }
}

impl DomainError {
    /// A model with that canonical id is not there.
    #[must_use]
    pub fn model_not_found(canonical_id: &str) -> (r: Self)
        ensures
            r@ == (DomainErrorView::ModelNotFound { canonical_id: canonical_id@ }),
    {
        DomainError::ModelNotFound { canonical_id: canonical_id.to_owned() }
    }

    /// A model with that identifier is not there.
    #[must_use]
    pub fn model_not_found_by_id(id: Uuid) -> (r: Self)
        ensures
            r@ == (DomainErrorView::ModelNotFoundById { id }),
    {
        DomainError::ModelNotFoundById { id }
    }

    /// A provider with that identifier is not there.
    #[must_use]
    pub fn provider_not_found(id: Uuid) -> (r: Self)
        ensures
            r@ == (DomainErrorView::ProviderNotFound { id }),
    {
        DomainError::ProviderNotFound { id }
    }

    /// A provider with that slug is not there.
    #[must_use]
    pub fn provider_not_found_by_slug(slug: &str) -> (r: Self)
        ensures
            r@ == (DomainErrorView::ProviderNotFoundBySlug { slug: slug@ }),
    {
        DomainError::ProviderNotFoundBySlug { slug: slug.to_owned() }
    }

    /// The model's life has ended.
    #[must_use]
    pub fn model_deprecated(canonical_id: &str) -> (r: Self)
        ensures
            r@ == (DomainErrorView::ModelDeprecated { canonical_id: canonical_id@ }),
    {
        DomainError::ModelDeprecated { canonical_id: canonical_id.to_owned() }
    }

    /// The model is not approved for the tenant.
    #[must_use]
    pub fn model_not_approved(canonical_id: &str) -> (r: Self)
        ensures
            r@ == (DomainErrorView::ModelNotApproved { canonical_id: canonical_id@ }),
    {
        DomainError::ModelNotApproved { canonical_id: canonical_id.to_owned() }
    }

    /// Access is denied.
    #[must_use]
    pub fn forbidden(message: &str) -> (r: Self)
        ensures
            r@ == (DomainErrorView::Forbidden { message: message@ }),
    {
        DomainError::Forbidden(message.to_owned())
    }

    /// The tenant does not own the provider.
    #[must_use]
    pub fn provider_not_owned(slug: &str) -> (r: Self)
        ensures
            r@ == (DomainErrorView::ProviderNotOwned { slug: slug@ }),
    {
        DomainError::ProviderNotOwned { slug: slug.to_owned() }
    }

    /// The provider is disabled.
    #[must_use]
    pub fn provider_disabled(id: Uuid) -> (r: Self)
        ensures
            r@ == (DomainErrorView::ProviderDisabled { id }),
    {
        DomainError::ProviderDisabled { id }
    }

    /// A provider with that slug is there already.
    #[must_use]
    pub fn provider_conflict(slug: &str) -> (r: Self)
        ensures
            r@ == (DomainErrorView::ProviderConflict { slug: slug@ }),
    {
        DomainError::ProviderConflict { slug: slug.to_owned() }
    }

    /// The provider still has models. A count of zero means that the count is not known.
    #[must_use]
    pub fn provider_has_models(id: Uuid, model_count: u64) -> (r: Self)
        ensures
            r@ == (DomainErrorView::ProviderHasModels { id, model_count }),
    {
        DomainError::ProviderHasModels { id, model_count }
    }

    /// The state of a model forbids the change.
    #[must_use]
    pub fn invalid_transition(detail: &str) -> (r: Self)
        ensures
            r@ == (DomainErrorView::InvalidTransition { detail: detail@ }),
    {
        DomainError::InvalidTransition { detail: detail.to_owned() }
    }

    /// The request breaks a rule.
    #[must_use]
    pub fn validation(message: &str) -> (r: Self)
        ensures
            r@ == (DomainErrorView::Validation { message: message@ }),
    {
        DomainError::Validation { message: message.to_owned() }
    }

    /// An unexpected failure with no known cause.
    #[must_use]
    pub fn internal(detail: &str) -> (r: Self)
        ensures
            r@ == (DomainErrorView::Internal { detail: detail@, source: None }),
    {
        DomainError::Internal { detail: detail.to_owned(), source: None }
    }

    /// An unexpected failure and what caused it.
    #[must_use]
    pub fn internal_from(detail: &str, source: String) -> (r: Self)
        ensures
            r@ == (DomainErrorView::Internal { detail: detail@, source: Some(source@) }),
    {
        DomainError::Internal { detail: detail.to_owned(), source: Some(source) }
    }

    /// The error as text.
    pub fn to_string(&self) -> (r: String)
        ensures
            r@ == self@.text(),
    {
        match self {
            DomainError::ModelNotFound { canonical_id } =>
                join2("model not found: ", canonical_id.as_str()),
            DomainError::ModelNotFoundById { id } =>
                join2("model not found: ", id.to_text().as_str()),
            DomainError::ProviderNotFound { id } =>
                join2("provider not found: ", id.to_text().as_str()),
            DomainError::ProviderNotFoundBySlug { slug } =>
                join3("provider with slug `", slug.as_str(), "` not found"),
            DomainError::ModelDeprecated { canonical_id } =>
                join2("model deprecated: ", canonical_id.as_str()),
            DomainError::ModelNotApproved { canonical_id } =>
                join2("model not approved: ", canonical_id.as_str()),
            DomainError::Forbidden(message) => join2("forbidden: ", message.as_str()),
            DomainError::ProviderNotOwned { slug } => join2("provider not owned: ", slug.as_str()),
            DomainError::ProviderDisabled { id } =>
                join2("provider disabled: ", id.to_text().as_str()),
            DomainError::ProviderConflict { slug } =>
                join2("provider slug already exists: ", slug.as_str()),
            DomainError::ProviderHasModels { model_count, .. } => join3(
                "provider has existing models: cannot delete provider with ",
                decimal(*model_count).as_str(),
                " model(s)",
            ),
            DomainError::InvalidTransition { detail } =>
                join2("invalid state transition: ", detail.as_str()),
            DomainError::Validation { message } => join2("validation error: ", message.as_str()),
            DomainError::Internal { detail, .. } => join2("internal error: ", detail.as_str()),
            DomainError::Database(message) => join2("database error: ", message.as_str()),
        }
    }
}

/// What can go wrong for a caller of the registry.
#[derive(Clone, Debug)]
pub enum ModelRegistryError {
    /// A model with that canonical id is not there.
    ModelNotFound { canonical_id: String },
    /// A model with that identifier is not there.
    ModelNotFoundById { id: Uuid },
    /// A provider with that identifier is not there.
    ProviderNotFound { id: Uuid },
    /// A provider with that slug is not there.
    ProviderNotFoundBySlug { slug: String },
    /// The model's life has ended.
    ModelDeprecated { canonical_id: String },
    /// The model is not approved for the tenant.
    ModelNotApproved { canonical_id: String },
    /// Access is denied.
    Forbidden { message: String },
    /// The provider is disabled.
    ProviderDisabled { id: Uuid },
    /// A provider with that slug is there already.
    ProviderConflict { slug: String },
    /// The provider still has models. A count of zero means that the count is not known.
    ProviderHasModels { id: Uuid, model_count: u64 },
    /// The state of a model forbids the change.
    InvalidTransition { detail: String },
    /// The request breaks a rule.
    Validation { message: String },
    /// An unexpected failure, with what caused it where that is known.
    Internal { detail: String, source: Option<String> },
}

/// The model of a [`ModelRegistryError`].
pub enum ModelRegistryErrorView {
    ModelNotFound { canonical_id: Seq<char> },
    ModelNotFoundById { id: Uuid },
    ProviderNotFound { id: Uuid },
    ProviderNotFoundBySlug { slug: Seq<char> },
    ModelDeprecated { canonical_id: Seq<char> },
    ModelNotApproved { canonical_id: Seq<char> },
    Forbidden { message: Seq<char> },
    ProviderDisabled { id: Uuid },
    ProviderConflict { slug: Seq<char> },
    ProviderHasModels { id: Uuid, model_count: u64 },
    InvalidTransition { detail: Seq<char> },
    Validation { message: Seq<char> },
    Internal { detail: Seq<char>, source: Option<Seq<char>> },
}

impl View for ModelRegistryError {
    type V = ModelRegistryErrorView;

    open spec fn view(&self) -> ModelRegistryErrorView {
        match *self {
            ModelRegistryError::ModelNotFound { canonical_id } =>
                ModelRegistryErrorView::ModelNotFound { canonical_id: canonical_id@ },
            ModelRegistryError::ModelNotFoundById { id } =>
                ModelRegistryErrorView::ModelNotFoundById { id },
            ModelRegistryError::ProviderNotFound { id } =>
                ModelRegistryErrorView::ProviderNotFound { id },
            ModelRegistryError::ProviderNotFoundBySlug { slug } =>
                ModelRegistryErrorView::ProviderNotFoundBySlug { slug: slug@ },
            ModelRegistryError::ModelDeprecated { canonical_id } =>
                ModelRegistryErrorView::ModelDeprecated { canonical_id: canonical_id@ },
            ModelRegistryError::ModelNotApproved { canonical_id } =>
                ModelRegistryErrorView::ModelNotApproved { canonical_id: canonical_id@ },
            ModelRegistryError::Forbidden { message } =>
                ModelRegistryErrorView::Forbidden { message: message@ },
            ModelRegistryError::ProviderDisabled { id } =>
                ModelRegistryErrorView::ProviderDisabled { id },
            ModelRegistryError::ProviderConflict { slug } =>
                ModelRegistryErrorView::ProviderConflict { slug: slug@ },
            ModelRegistryError::ProviderHasModels { id, model_count } =>
                ModelRegistryErrorView::ProviderHasModels { id, model_count },
            ModelRegistryError::InvalidTransition { detail } =>
                ModelRegistryErrorView::InvalidTransition { detail: detail@ },
            ModelRegistryError::Validation { message } =>
                ModelRegistryErrorView::Validation { message: message@ },
            ModelRegistryError::Internal { detail, source } =>
                ModelRegistryErrorView::Internal { detail: detail@, source: text_view(source) },
        }
    }
}

impl ModelRegistryErrorView {
    /// The error as text.
    pub open spec fn text(self) -> Seq<char> {
        match self {
            ModelRegistryErrorView::ModelNotFound { canonical_id } =>
                "model not found: "@ + canonical_id,
            ModelRegistryErrorView::ModelNotFoundById { id } =>
                "model not found: "@ + uuid_text(id.value),
            ModelRegistryErrorView::ProviderNotFound { id } =>
                "provider not found: "@ + uuid_text(id.value),
            ModelRegistryErrorView::ProviderNotFoundBySlug { slug } =>
                "provider with slug `"@ + slug + "` not found"@,
            ModelRegistryErrorView::ModelDeprecated { canonical_id } =>
                "model deprecated: "@ + canonical_id,
            ModelRegistryErrorView::ModelNotApproved { canonical_id } =>
                "model not approved for tenant: "@ + canonical_id,
            ModelRegistryErrorView::Forbidden { message } => "forbidden: "@ + message,
            ModelRegistryErrorView::ProviderDisabled { id } =>
                "provider disabled: "@ + uuid_text(id.value),
            ModelRegistryErrorView::ProviderConflict { slug } =>
                "provider slug already exists: "@ + slug,
            ModelRegistryErrorView::ProviderHasModels { id, model_count } =>
                "provider has "@ + decimal_of(model_count as nat) + " existing model(s): "@
                    + uuid_text(id.value),
            ModelRegistryErrorView::InvalidTransition { detail } =>
                "invalid state transition: "@ + detail,
            ModelRegistryErrorView::Validation { message } => "validation error: "@ + message,
            ModelRegistryErrorView::Internal { detail, .. } => "internal error: "@ + detail,
        }
    }
}

impl ModelRegistryError {
    /// A model with that canonical id is not there.
    #[must_use]
    pub fn model_not_found(canonical_id: &str) -> (r: Self)
        ensures
            r@ == (ModelRegistryErrorView::ModelNotFound { canonical_id: canonical_id@ }),
    {
        ModelRegistryError::ModelNotFound { canonical_id: canonical_id.to_owned() }
    }

    /// A model with that identifier is not there.
    #[must_use]
    pub fn model_not_found_by_id(id: Uuid) -> (r: Self)
        ensures
            r@ == (ModelRegistryErrorView::ModelNotFoundById { id }),
    {
        ModelRegistryError::ModelNotFoundById { id }
    }

    /// A provider with that identifier is not there.
    #[must_use]
    pub fn provider_not_found(id: Uuid) -> (r: Self)
        ensures
            r@ == (ModelRegistryErrorView::ProviderNotFound { id }),
    {
        ModelRegistryError::ProviderNotFound { id }
    }

    /// A provider with that slug is not there.
    #[must_use]
    pub fn provider_not_found_by_slug(slug: &str) -> (r: Self)
        ensures
            r@ == (ModelRegistryErrorView::ProviderNotFoundBySlug { slug: slug@ }),
    {
        ModelRegistryError::ProviderNotFoundBySlug { slug: slug.to_owned() }
    }

    /// The model's life has ended.
    #[must_use]
    pub fn model_deprecated(canonical_id: &str) -> (r: Self)
        ensures
            r@ == (ModelRegistryErrorView::ModelDeprecated { canonical_id: canonical_id@ }),
    {
        ModelRegistryError::ModelDeprecated { canonical_id: canonical_id.to_owned() }
    }

    /// The model is not approved for the tenant.
    #[must_use]
    pub fn model_not_approved(canonical_id: &str) -> (r: Self)
        ensures
            r@ == (ModelRegistryErrorView::ModelNotApproved { canonical_id: canonical_id@ }),
    {
        ModelRegistryError::ModelNotApproved { canonical_id: canonical_id.to_owned() }
    }

    /// Access is denied.
    #[must_use]
    pub fn forbidden(message: &str) -> (r: Self)
        ensures
            r@ == (ModelRegistryErrorView::Forbidden { message: message@ }),
    {
        ModelRegistryError::Forbidden { message: message.to_owned() }
    }

    /// The provider is disabled.
    #[must_use]
    pub fn provider_disabled(id: Uuid) -> (r: Self)
        ensures
            r@ == (ModelRegistryErrorView::ProviderDisabled { id }),
    {
        ModelRegistryError::ProviderDisabled { id }
    }

    /// A provider with that slug is there already.
    #[must_use]
    pub fn provider_conflict(slug: &str) -> (r: Self)
        ensures
            r@ == (ModelRegistryErrorView::ProviderConflict { slug: slug@ }),
    {
        ModelRegistryError::ProviderConflict { slug: slug.to_owned() }
    }

    /// The provider still has models. A count of zero means that the count is not known.
    #[must_use]
    pub fn provider_has_models(id: Uuid, model_count: u64) -> (r: Self)
        ensures
            r@ == (ModelRegistryErrorView::ProviderHasModels { id, model_count }),
    {
        ModelRegistryError::ProviderHasModels { id, model_count }
    }

    /// The state of a model forbids the change.
    #[must_use]
    pub fn invalid_transition(detail: &str) -> (r: Self)
        ensures
            r@ == (ModelRegistryErrorView::InvalidTransition { detail: detail@ }),
    {
        ModelRegistryError::InvalidTransition { detail: detail.to_owned() }
    }

    /// The request breaks a rule.
    #[must_use]
    pub fn validation(message: &str) -> (r: Self)
        ensures
            r@ == (ModelRegistryErrorView::Validation { message: message@ }),
    {
        ModelRegistryError::Validation { message: message.to_owned() }
    }

    /// An unexpected failure with no known cause.
    #[must_use]
    pub fn internal(detail: &str) -> (r: Self)
        ensures
            r@ == (ModelRegistryErrorView::Internal { detail: detail@, source: None }),
    {
        ModelRegistryError::Internal { detail: detail.to_owned(), source: None }
    }

    /// What caused an unexpected failure, where that is known.
    pub fn source(&self) -> (r: Option<&str>)
        ensures
            match r {
                Some(s) =>
                    self@ matches ModelRegistryErrorView::Internal { source, .. } && source == Some(s@),
                None =>
                    !(self@ matches ModelRegistryErrorView::Internal { source, .. } && source is Some),
            },
    {
        match self {
            ModelRegistryError::Internal { source, .. } => match source {
                Some(s) => Some(s.as_str()),
                None => None,
            },
            _ => None,
        }
    }

    /// The error as text.
    pub fn to_string(&self) -> (r: String)
        ensures
            r@ == self@.text(),
    {
        match self {
            ModelRegistryError::ModelNotFound { canonical_id } =>
                join2("model not found: ", canonical_id.as_str()),
            ModelRegistryError::ModelNotFoundById { id } =>
                join2("model not found: ", id.to_text().as_str()),
            ModelRegistryError::ProviderNotFound { id } =>
                join2("provider not found: ", id.to_text().as_str()),
            ModelRegistryError::ProviderNotFoundBySlug { slug } =>
                join3("provider with slug `", slug.as_str(), "` not found"),
            ModelRegistryError::ModelDeprecated { canonical_id } =>
                join2("model deprecated: ", canonical_id.as_str()),
            ModelRegistryError::ModelNotApproved { canonical_id } =>
                join2("model not approved for tenant: ", canonical_id.as_str()),
            ModelRegistryError::Forbidden { message } => join2("forbidden: ", message.as_str()),
            ModelRegistryError::ProviderDisabled { id } =>
                join2("provider disabled: ", id.to_text().as_str()),
            ModelRegistryError::ProviderConflict { slug } =>
                join2("provider slug already exists: ", slug.as_str()),
            ModelRegistryError::ProviderHasModels { id, model_count } => join2(
                join3("provider has ", decimal(*model_count).as_str(), " existing model(s): ").as_str(),
                id.to_text().as_str(),
            ),
            ModelRegistryError::InvalidTransition { detail } =>
                join2("invalid state transition: ", detail.as_str()),
            ModelRegistryError::Validation { message } =>
                join2("validation error: ", message.as_str()),
            ModelRegistryError::Internal { detail, .. } =>
                join2("internal error: ", detail.as_str()),
        }
    }
}

impl DomainErrorView {
    /// The error as callers of the registry see it. A failure of the database is
    /// an internal one to them.
    pub open spec fn to_sdk(self) -> ModelRegistryErrorView {
        match self {
            DomainErrorView::ModelNotFound { canonical_id } =>
                ModelRegistryErrorView::ModelNotFound { canonical_id },
            DomainErrorView::ModelNotFoundById { id } =>
                ModelRegistryErrorView::ModelNotFoundById { id },
            DomainErrorView::ProviderNotFound { id } =>
                ModelRegistryErrorView::ProviderNotFound { id },
            DomainErrorView::ProviderNotFoundBySlug { slug } =>
                ModelRegistryErrorView::ProviderNotFoundBySlug { slug },
            DomainErrorView::ModelDeprecated { canonical_id } =>
                ModelRegistryErrorView::ModelDeprecated { canonical_id },
            DomainErrorView::ModelNotApproved { canonical_id } =>
                ModelRegistryErrorView::ModelNotApproved { canonical_id },
            DomainErrorView::Forbidden { message } => ModelRegistryErrorView::Forbidden { message },
            DomainErrorView::ProviderNotOwned { slug } =>
                ModelRegistryErrorView::Forbidden { message: "provider not owned: "@ + slug },
            DomainErrorView::ProviderDisabled { id } =>
                ModelRegistryErrorView::ProviderDisabled { id },
            DomainErrorView::ProviderConflict { slug } =>
                ModelRegistryErrorView::ProviderConflict { slug },
            DomainErrorView::ProviderHasModels { id, model_count } =>
                ModelRegistryErrorView::ProviderHasModels { id, model_count },
            DomainErrorView::InvalidTransition { detail } =>
                ModelRegistryErrorView::InvalidTransition { detail },
            DomainErrorView::Validation { message } =>
                ModelRegistryErrorView::Validation { message },
            DomainErrorView::Internal { detail, source } =>
                ModelRegistryErrorView::Internal { detail, source },
            DomainErrorView::Database { message } =>
                ModelRegistryErrorView::Internal { detail: message, source: None },
        }
    }
}

impl From<DomainError> for ModelRegistryError {
    fn from(e: DomainError) -> (r: Self)
        ensures
            r@ == e@.to_sdk(),
    {
        match e {
            DomainError::ModelNotFound { canonical_id } =>
                ModelRegistryError::ModelNotFound { canonical_id },
            DomainError::ModelNotFoundById { id } => ModelRegistryError::ModelNotFoundById { id },
            DomainError::ProviderNotFound { id } => ModelRegistryError::ProviderNotFound { id },
            DomainError::ProviderNotFoundBySlug { slug } =>
                ModelRegistryError::ProviderNotFoundBySlug { slug },
            DomainError::ModelDeprecated { canonical_id } =>
                ModelRegistryError::ModelDeprecated { canonical_id },
            DomainError::ModelNotApproved { canonical_id } =>
                ModelRegistryError::ModelNotApproved { canonical_id },
            DomainError::Forbidden(message) => ModelRegistryError::Forbidden { message },
            DomainError::ProviderNotOwned { slug } =>
                ModelRegistryError::Forbidden { message: join2("provider not owned: ", slug.as_str()) },
            DomainError::ProviderDisabled { id } => ModelRegistryError::ProviderDisabled { id },
            DomainError::ProviderConflict { slug } => ModelRegistryError::ProviderConflict { slug },
            DomainError::ProviderHasModels { id, model_count } =>
                ModelRegistryError::ProviderHasModels { id, model_count },
            DomainError::InvalidTransition { detail } =>
                ModelRegistryError::InvalidTransition { detail },
            DomainError::Validation { message } => ModelRegistryError::Validation { message },
            DomainError::Internal { detail, source } =>
                ModelRegistryError::Internal { detail, source },
            DomainError::Database(message) =>
                ModelRegistryError::Internal { detail: message, source: None },
        }
    }
}

impl vstd::std_specs::convert::FromSpecImpl<DomainError> for ModelRegistryError {
    open spec fn obeys_from_spec() -> bool {
        false
    }

    open spec fn from_spec(e: DomainError) -> Self {
        arbitrary()
    }
}

/// Why an access decision was not to grant access.
#[derive(Clone, Debug)]
pub enum EnforcerError {
    /// Access is denied. Where there is a reason, `deny_reason` is its text for
    /// developers, by `Debug`.
    Denied { deny_reason: Option<String> },
    /// The decision could not be taken.
    EvaluationFailed { source: String },
    /// The decision could not be turned into a scope.
    CompileFailed { source: String },
}

/// The model of the error that an [`EnforcerError`] becomes.
pub open spec fn enforcer_to_domain(e: EnforcerError) -> DomainErrorView {
    match e {
        EnforcerError::Denied { deny_reason } => DomainErrorView::Forbidden {
            message: match deny_reason {
                Some(reason) => "access denied: "@ + reason@,
                None => "access denied"@,
            },
        },
        EnforcerError::EvaluationFailed { source } => DomainErrorView::Internal {
            detail: "authorization evaluation failed"@,
            source: Some(source@),
        },
        EnforcerError::CompileFailed { source } => DomainErrorView::Internal {
            detail: "authorization constraint compilation failed"@,
            source: Some(source@),
        },
    }
}

impl From<EnforcerError> for DomainError {
    fn from(e: EnforcerError) -> (r: Self)
        ensures
            r@ == enforcer_to_domain(e),
    {
        match e {
            EnforcerError::Denied { deny_reason } => match deny_reason {
                Some(reason) => DomainError::Forbidden(join2("access denied: ", reason.as_str())),
                None => DomainError::forbidden("access denied"),
            },
            EnforcerError::EvaluationFailed { source } => DomainError::internal_from(
                "authorization evaluation failed",
                source,
            ),
            EnforcerError::CompileFailed { source } => DomainError::internal_from(
                "authorization constraint compilation failed",
                source,
            ),
        }
    }
}

impl vstd::std_specs::convert::FromSpecImpl<EnforcerError> for DomainError {
    open spec fn obeys_from_spec() -> bool {
        false
    }

    open spec fn from_spec(e: EnforcerError) -> Self {
        arbitrary()
    }
}

} // verus!
