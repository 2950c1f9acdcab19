//! The parts that values are made of.
use vstd::prelude::*;
use crate::ids::{rfc3339, Timestamp, Uuid};
use crate::registry::error::{DomainError, ModelRegistryError};
use crate::registry::laws::rules::status_name;
use crate::registry::models::{
    CreateModelBySlug, CreateModelRequestV1, CreateProviderRequestBuilder, CreateProviderRequestV1,
    LifecycleStatus, ModelInfoV1,
};
use crate::registry::rest::problem::{CanonicalError, ModelRegistryResourceError};
use crate::registry::rest::routes::{BodySchema, Endpoint};
use crate::registry::security::{
    AccessScope, ScopeConstraint, ScopeFilter, ScopeValueView, SecurityContext,
};
use crate::text::{join2, join3, same_text};

verus! {

/// Two texts are the same exactly where they are equally long and have the same
/// character in every place.
pub proof fn law_same_text(a: &str, b: &str, same: bool)
    requires
        call_ensures(same_text, (a, b), same),
    ensures
        same <==> a@.len() == b@.len() && forall|i: int|
            0 <= i < a@.len() ==> #[trigger] a@[i] == b@[i],
{
    if a@.len() == b@.len() && forall|i: int| 0 <= i < a@.len() ==> #[trigger] a@[i] == b@[i] {
        assert(a@ =~= b@);
    }
}

/// Texts in a row: each is found again in its place.
pub proof fn law_joined_texts(a: &str, b: &str, c: &str, two: String, three: String)
    requires
        call_ensures(join2, (a, b), two),
        call_ensures(join3, (a, b, c), three),
    ensures
        two@.len() == a@.len() + b@.len(),
        two@.subrange(0, a@.len() as int) == a@,
        two@.subrange(a@.len() as int, two@.len() as int) == b@,
        three@.len() == two@.len() + c@.len(),
        three@.subrange(0, two@.len() as int) == two@,
        three@.subrange(two@.len() as int, three@.len() as int) == c@,
{
    assert(two@.subrange(0, a@.len() as int) =~= a@);
    assert(two@.subrange(a@.len() as int, two@.len() as int) =~= b@);
    assert(three@.subrange(0, two@.len() as int) =~= two@);
    assert(three@.subrange(two@.len() as int, three@.len() as int) =~= c@);
}

/// An identifier gives back the number that it was made of.
pub proof fn law_identifier_keeps_its_number(value: u128, id: Uuid, back: u128)
    requires
        call_ensures(Uuid::from_u128, (value,), id),
        call_ensures(Uuid::as_u128, (&id,), back),
    ensures
        back == value,
{
}

/// An instant gives back the seconds and nanoseconds that it was made of, and its text is
/// theirs.
pub proof fn law_instant_keeps_its_parts(
    seconds: i64,
    nanos: u32,
    made: Option<Timestamp>,
    parts: (i64, u32),
    text: String,
)
    requires
        call_ensures(Timestamp::new, (seconds, nanos), made),
        made matches Some(t) ==> call_ensures(Timestamp::parts, (&t,), parts) && call_ensures(
            Timestamp::to_rfc3339,
            (&t,),
            text,
        ),
    ensures
        made is Some <==> rfc3339(seconds, nanos) is Some,
        made is Some ==> parts == (seconds, nanos) && rfc3339(seconds, nanos) == Some(text@),
{
}

/// A caller belongs to the tenant that they came with.
pub proof fn law_callers_tenant(ctx: SecurityContext, tenant: Uuid)
    requires
        call_ensures(SecurityContext::subject_tenant_id, (&ctx,), tenant),
    ensures
        tenant == ctx.subject_tenant_id,
{
}

/// What is put into a request to register a provider is what can be read from it, and
/// what is not put in is off or absent.
pub proof fn law_provider_request_keeps_its_parts(
    slug: &str,
    name: &str,
    gts_type: String,
    managed: bool,
    metadata: serde_json::Value,
    enabled: bool,
    seconds: u32,
    b0: CreateProviderRequestBuilder,
    b1: CreateProviderRequestBuilder,
    b2: CreateProviderRequestBuilder,
    b3: CreateProviderRequestBuilder,
    b4: CreateProviderRequestBuilder,
    bare: CreateProviderRequestV1,
    full: CreateProviderRequestV1,
)
    requires
        call_ensures(CreateProviderRequestV1::builder, (slug, name, gts_type), b0),
        call_ensures(CreateProviderRequestBuilder::managed, (b0, managed), b1),
        call_ensures(CreateProviderRequestBuilder::metadata, (b1, metadata), b2),
        call_ensures(CreateProviderRequestBuilder::discovery_enabled, (b2, enabled), b3),
        call_ensures(CreateProviderRequestBuilder::discovery_interval_seconds, (b3, seconds), b4),
        call_ensures(CreateProviderRequestBuilder::build, (b0,), bare),
        call_ensures(CreateProviderRequestBuilder::build, (b4,), full),
    ensures
        forall|r: &str| #[trigger]
            call_ensures(CreateProviderRequestV1::slug, (&full,), r) ==> r@ == slug@,
        forall|r: &str| #[trigger]
            call_ensures(CreateProviderRequestV1::name, (&full,), r) ==> r@ == name@,
        forall|r: &str| #[trigger]
            call_ensures(CreateProviderRequestV1::gts_type, (&full,), r) ==> r@ == gts_type@,
        forall|r: bool| #[trigger]
            call_ensures(CreateProviderRequestV1::managed, (&full,), r) ==> r == managed,
        forall|r: Option<&serde_json::Value>| #[trigger]
            call_ensures(CreateProviderRequestV1::metadata, (&full,), r) ==> r is Some && *r->0
                == metadata,
        forall|r: bool| #[trigger]
            call_ensures(CreateProviderRequestV1::discovery_enabled, (&full,), r) ==> r == enabled,
        forall|r: Option<u32>| #[trigger]
            call_ensures(CreateProviderRequestV1::discovery_interval_seconds, (&full,), r) ==> r
                == Some(seconds),
        forall|r: bool| #[trigger]
            call_ensures(CreateProviderRequestV1::managed, (&bare,), r) ==> !r,
        forall|r: Option<&serde_json::Value>| #[trigger]
            call_ensures(CreateProviderRequestV1::metadata, (&bare,), r) ==> r is None,
        forall|r: bool| #[trigger]
            call_ensures(CreateProviderRequestV1::discovery_enabled, (&bare,), r) ==> !r,
        forall|r: Option<u32>| #[trigger]
            call_ensures(CreateProviderRequestV1::discovery_interval_seconds, (&bare,), r) ==> r
                is None,
{
}

/// A request that names its provider by a slug keeps everything once the provider is
/// known.
pub proof fn law_request_for_provider(
    request: CreateModelBySlug<ModelInfoV1>,
    provider_id: Uuid,
    r: CreateModelRequestV1,
)
    requires
        call_ensures(CreateModelBySlug::<ModelInfoV1>::for_provider, (request, provider_id), r),
    ensures
        r.provider_id == provider_id,
        r.lifecycle_status == request.lifecycle_status,
        r.approval_status == request.approval_status,
        r.info == request.info,
{
}

/// Lives end as deprecated or sunset, and have their names.
pub proof fn law_ended_lives(status: LifecycleStatus, r: bool, name: &'static str)
    requires
        call_ensures(LifecycleStatus::is_terminal, (status,), r),
        call_ensures(LifecycleStatus::name, (status,), name),
    ensures
        r <==> status is Deprecated || status is Sunset,
        name@ == status_name(status),
{
}

/// A filter lists an identifier exactly where it is on the property and the identifier is
/// one of its values.
pub proof fn law_filter_lists(filter: ScopeFilter, property: &str, id: Uuid, r: bool)
    requires
        call_ensures(ScopeFilter::lists, (&filter, property, id), r),
    ensures
        r <==> filter.property@ == property@ && exists|i: int|
            0 <= i < filter.values@.len() && (#[trigger] filter.values@[i])@
                == ScopeValueView::Uuid(id),
{
    let values = filter@.values;
    assert(forall|i: int|
        0 <= i < filter.values@.len() ==> #[trigger] values[i] == filter.values@[i]@);
    if exists|i: int|
        0 <= i < filter.values@.len() && (#[trigger] filter.values@[i])@ == ScopeValueView::Uuid(
            id,
        ) {
        let i = choose|i: int|
            0 <= i < filter.values@.len() && (#[trigger] filter.values@[i])@
                == ScopeValueView::Uuid(id);
        assert(values[i] == ScopeValueView::Uuid(id));
    }
    if values.contains(ScopeValueView::Uuid(id)) {
        let i = choose|i: int| 0 <= i < values.len() && values[i] == ScopeValueView::Uuid(id);
        assert(filter.values@[i]@ == ScopeValueView::Uuid(id));
    }
}

/// An alternative gives back the filters that it was made of.
pub proof fn law_alternative_keeps_its_filters(
    filters: Vec<ScopeFilter>,
    constraint: ScopeConstraint,
    back: &[ScopeFilter],
)
    requires
        call_ensures(ScopeConstraint::new, (filters,), constraint),
        call_ensures(ScopeConstraint::filters, (&constraint,), back),
    ensures
        back@ == filters@,
{
}

/// A scope gives back the alternatives that it was made of.
pub proof fn law_scope_keeps_its_alternatives(
    constraints: Vec<ScopeConstraint>,
    scope: AccessScope,
    back: &[ScopeConstraint],
)
    requires
        call_ensures(AccessScope::from_constraints, (constraints,), scope),
        call_ensures(AccessScope::constraints, (&scope,), back),
    ensures
        back@.len() == constraints@.len(),
        forall|i: int| 0 <= i < back@.len() ==> (#[trigger] back@[i])@ == constraints@[i]@,
{
    let views = scope@.constraints;
    let told = back@.map_values(|c: ScopeConstraint| c@);
    assert(told == views);
    assert(told.len() == back@.len());
    assert(views.len() == constraints@.len());
    assert forall|i: int| 0 <= i < back@.len() implies (#[trigger] back@[i])@
        == constraints@[i]@ by {
        assert(told[i] == back@[i]@);
        assert(views[i] == constraints@[i]@);
    }
}

/// A failure that is made tells what it is about.
pub proof fn law_domain_errors_made(
    text: &str,
    id: Uuid,
    count: u64,
    model_not_found: DomainError,
    provider_not_found_by_slug: DomainError,
    model_deprecated: DomainError,
    model_not_approved: DomainError,
    provider_conflict: DomainError,
    invalid_transition: DomainError,
    validation: DomainError,
    model_not_found_by_id: DomainError,
    provider_not_found: DomainError,
    provider_disabled: DomainError,
    provider_has_models: DomainError,
    forbidden: DomainError,
    provider_not_owned: DomainError,
    internal: DomainError,
)
    requires
        call_ensures(DomainError::model_not_found, (text,), model_not_found),
        call_ensures(DomainError::provider_not_found_by_slug, (text,), provider_not_found_by_slug),
        call_ensures(DomainError::model_deprecated, (text,), model_deprecated),
        call_ensures(DomainError::model_not_approved, (text,), model_not_approved),
        call_ensures(DomainError::provider_conflict, (text,), provider_conflict),
        call_ensures(DomainError::invalid_transition, (text,), invalid_transition),
        call_ensures(DomainError::validation, (text,), validation),
        call_ensures(DomainError::model_not_found_by_id, (id,), model_not_found_by_id),
        call_ensures(DomainError::provider_not_found, (id,), provider_not_found),
        call_ensures(DomainError::provider_disabled, (id,), provider_disabled),
        call_ensures(DomainError::provider_has_models, (id, count), provider_has_models),
        call_ensures(DomainError::forbidden, (text,), forbidden),
        call_ensures(DomainError::provider_not_owned, (text,), provider_not_owned),
        call_ensures(DomainError::internal, (text,), internal),
    ensures
        model_not_found matches DomainError::ModelNotFound { canonical_id } && canonical_id@ == text@,
        provider_not_found_by_slug matches DomainError::ProviderNotFoundBySlug { slug } && slug@ == text@,
        model_deprecated matches DomainError::ModelDeprecated { canonical_id } && canonical_id@ == text@,
        model_not_approved matches DomainError::ModelNotApproved { canonical_id } && canonical_id@ == text@,
        provider_conflict matches DomainError::ProviderConflict { slug } && slug@ == text@,
        invalid_transition matches DomainError::InvalidTransition { detail } && detail@ == text@,
        validation matches DomainError::Validation { message } && message@ == text@,
        model_not_found_by_id matches DomainError::ModelNotFoundById { id: about } && about == id,
        provider_not_found matches DomainError::ProviderNotFound { id: about } && about == id,
        provider_disabled matches DomainError::ProviderDisabled { id: about } && about == id,
        provider_has_models matches DomainError::ProviderHasModels { id: about, model_count } && about == id
            && model_count == count,
        forbidden matches DomainError::Forbidden(message) && message@ == text@,
        provider_not_owned matches DomainError::ProviderNotOwned { slug } && slug@ == text@,
        internal matches DomainError::Internal { detail, source: None } && detail@ == text@,
{
}

/// A failure that is made tells what it is about.
pub proof fn law_registry_errors_made(
    text: &str,
    id: Uuid,
    count: u64,
    model_not_found: ModelRegistryError,
    provider_not_found_by_slug: ModelRegistryError,
    model_deprecated: ModelRegistryError,
    model_not_approved: ModelRegistryError,
    provider_conflict: ModelRegistryError,
    invalid_transition: ModelRegistryError,
    validation: ModelRegistryError,
    model_not_found_by_id: ModelRegistryError,
    provider_not_found: ModelRegistryError,
    provider_disabled: ModelRegistryError,
    provider_has_models: ModelRegistryError,
    forbidden: ModelRegistryError,
    internal: ModelRegistryError,
)
    requires
        call_ensures(ModelRegistryError::model_not_found, (text,), model_not_found),
        call_ensures(ModelRegistryError::provider_not_found_by_slug, (text,), provider_not_found_by_slug),
        call_ensures(ModelRegistryError::model_deprecated, (text,), model_deprecated),
        call_ensures(ModelRegistryError::model_not_approved, (text,), model_not_approved),
        call_ensures(ModelRegistryError::provider_conflict, (text,), provider_conflict),
        call_ensures(ModelRegistryError::invalid_transition, (text,), invalid_transition),
        call_ensures(ModelRegistryError::validation, (text,), validation),
        call_ensures(ModelRegistryError::model_not_found_by_id, (id,), model_not_found_by_id),
        call_ensures(ModelRegistryError::provider_not_found, (id,), provider_not_found),
        call_ensures(ModelRegistryError::provider_disabled, (id,), provider_disabled),
        call_ensures(ModelRegistryError::provider_has_models, (id, count), provider_has_models),
        call_ensures(ModelRegistryError::forbidden, (text,), forbidden),
        call_ensures(ModelRegistryError::internal, (text,), internal),
    ensures
        model_not_found matches ModelRegistryError::ModelNotFound { canonical_id } && canonical_id@ == text@,
        provider_not_found_by_slug matches ModelRegistryError::ProviderNotFoundBySlug { slug } && slug@ == text@,
        model_deprecated matches ModelRegistryError::ModelDeprecated { canonical_id } && canonical_id@ == text@,
        model_not_approved matches ModelRegistryError::ModelNotApproved { canonical_id } && canonical_id@ == text@,
        provider_conflict matches ModelRegistryError::ProviderConflict { slug } && slug@ == text@,
        invalid_transition matches ModelRegistryError::InvalidTransition { detail } && detail@ == text@,
        validation matches ModelRegistryError::Validation { message } && message@ == text@,
        model_not_found_by_id matches ModelRegistryError::ModelNotFoundById { id: about } && about == id,
        provider_not_found matches ModelRegistryError::ProviderNotFound { id: about } && about == id,
        provider_disabled matches ModelRegistryError::ProviderDisabled { id: about } && about == id,
        provider_has_models matches ModelRegistryError::ProviderHasModels { id: about, model_count } && about == id
            && model_count == count,
        forbidden matches ModelRegistryError::Forbidden { message } && message@ == text@,
        internal matches ModelRegistryError::Internal { detail, source: None } && detail@ == text@,
{
}

/// A body's type is documented by its own name.
pub proof fn law_body_names(schema: BodySchema, name: &'static str)
    requires
        call_ensures(BodySchema::name, (schema,), name),
    ensures
        name@ == (match schema {
            BodySchema::ModelList => "ModelList"@,
            BodySchema::Model => "Model"@,
            BodySchema::ModelManagementList => "ModelManagementList"@,
            BodySchema::ProviderList => "ProviderList"@,
            BodySchema::Provider => "Provider"@,
            BodySchema::CreateModelRequest => "CreateModelRequest"@,
            BodySchema::UpdateModelRequest => "UpdateModelRequest"@,
            BodySchema::CreateProviderRequest => "CreateProviderRequest"@,
            BodySchema::UpdateProviderRequest => "UpdateProviderRequest"@,
        }) + "Dto"@,
{
    reveal_strlit("Dto");
    reveal_strlit("ModelList");
    reveal_strlit("ModelListDto");
    reveal_strlit("Model");
    reveal_strlit("ModelDto");
    reveal_strlit("ModelManagementList");
    reveal_strlit("ModelManagementListDto");
    reveal_strlit("ProviderList");
    reveal_strlit("ProviderListDto");
    reveal_strlit("Provider");
    reveal_strlit("ProviderDto");
    reveal_strlit("CreateModelRequest");
    reveal_strlit("CreateModelRequestDto");
    reveal_strlit("UpdateModelRequest");
    reveal_strlit("UpdateModelRequestDto");
    reveal_strlit("CreateProviderRequest");
    reveal_strlit("CreateProviderRequestDto");
    reveal_strlit("UpdateProviderRequest");
    reveal_strlit("UpdateProviderRequestDto");
    assert("ModelListDto"@ =~= "ModelList"@ + "Dto"@);
    assert("ModelDto"@ =~= "Model"@ + "Dto"@);
    assert("ModelManagementListDto"@ =~= "ModelManagementList"@ + "Dto"@);
    assert("ProviderListDto"@ =~= "ProviderList"@ + "Dto"@);
    assert("ProviderDto"@ =~= "Provider"@ + "Dto"@);
    assert("CreateModelRequestDto"@ =~= "CreateModelRequest"@ + "Dto"@);
    assert("UpdateModelRequestDto"@ =~= "UpdateModelRequest"@ + "Dto"@);
    assert("CreateProviderRequestDto"@ =~= "CreateProviderRequest"@ + "Dto"@);
    assert("UpdateProviderRequestDto"@ =~= "UpdateProviderRequest"@ + "Dto"@);
}

/// What an endpoint takes is described exactly where it takes something.
pub proof fn law_request_descriptions(
    e: Endpoint,
    schema: Option<BodySchema>,
    description: Option<&'static str>,
)
    requires
        call_ensures(Endpoint::request_schema, (e,), schema),
        call_ensures(Endpoint::request_description, (e,), description),
    ensures
        description is Some <==> schema is Some,
        schema == Some(BodySchema::CreateModelRequest) ==> description->0@
            == "Model creation data"@,
        schema == Some(BodySchema::UpdateModelRequest) ==> description->0@ == "Model update data"@,
        schema == Some(BodySchema::CreateProviderRequest) ==> description->0@
            == "Provider creation data"@,
        schema == Some(BodySchema::UpdateProviderRequest) ==> description->0@
            == "Provider update data"@,
{
}

/// What is answered is described as goes with it.
pub proof fn law_response_descriptions(
    e: Endpoint,
    schema: Option<BodySchema>,
    response: &'static str,
)
    requires
        call_ensures(Endpoint::response_schema, (e,), schema),
        call_ensures(Endpoint::response, (e,), response),
    ensures
        schema == Some(BodySchema::ModelList) ==> response@ == "Paginated model list"@,
        schema == Some(BodySchema::ModelManagementList) ==> response@
            == "Paginated model management list"@,
        schema == Some(BodySchema::ProviderList) ==> response@ == "Paginated provider list"@,
        e is GetTenantModel || e is GetModel ==> response@ == "Model details"@,
        e is GetProvider ==> response@ == "Provider details"@,
        e is CreateModel ==> response@ == "Model created"@,
        e is CreateProvider ==> response@ == "Provider created"@,
        e is UpdateModel ==> response@ == "Model updated"@,
        e is UpdateProvider ==> response@ == "Provider updated"@,
        e is DeleteModel ==> response@ == "Model deleted"@,
        e is DeleteProvider ==> response@ == "Provider deleted"@,
{
}

/// Problems are made of what they are given.
pub proof fn law_problems_made(
    a: &str,
    b: &str,
    text: String,
    field: CanonicalError,
    missing: CanonicalError,
    denied: CanonicalError,
    taken: CanonicalError,
)
    requires
        call_ensures(CanonicalError::field_violation, (a, text, b), field),
        call_ensures(ModelRegistryResourceError::not_found, (a, text), missing),
        call_ensures(ModelRegistryResourceError::permission_denied, (text,), denied),
        call_ensures(ModelRegistryResourceError::already_exists, (a, text), taken),
    ensures
        crate::registry::laws::wire::tells_of(field, a@, text@, b@),
        missing matches CanonicalError::NotFound { detail, resource_name } && detail@ == a@
            && resource_name@ == text@,
        denied matches CanonicalError::PermissionDenied { reason } && reason@ == text@,
        taken matches CanonicalError::AlreadyExists { detail, resource_name } && detail@ == a@
            && resource_name@ == text@,
{
}

/// An endpoint in a few words: what it does, and to what.
pub proof fn law_summaries(e: Endpoint, summary: &'static str)
    requires
        call_ensures(Endpoint::summary, (e,), summary),
    ensures
        e is ListTenantModels ==> summary@ == "List models available for eval"@,
        e is GetTenantModel ==> summary@ == "Get a model by canonical ID"@,
        e is ListManagementModels ==> summary@ == "List models with management flags"@,
        e is CreateModel ==> summary@ == "Create a model"@,
        e is GetModel ==> summary@ == "Get a model by ID"@,
        e is UpdateModel ==> summary@ == "Update a model"@,
        e is DeleteModel ==> summary@ == "Delete a model"@,
        e is ListProviders ==> summary@ == "List providers"@,
        e is CreateProvider ==> summary@ == "Create a provider"@,
        e is GetProvider ==> summary@ == "Get a provider"@,
        e is UpdateProvider ==> summary@ == "Update a provider"@,
        e is DeleteProvider ==> summary@ == "Delete a provider"@,
{
}

} // verus!
