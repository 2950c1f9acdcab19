//! What goes over the wire: statuses as texts, bodies as requests, results as bodies.
use vstd::prelude::*;
use crate::ids::rfc3339;
use crate::registry::models::{
    ApprovalStatus, CreateModelBySlug, CreateProviderRequestV1, LifecycleStatus, ModelManagementV1,
    ModelV1, ProviderStatus, ProviderV1, SupportedApi, UpdateModelRequestV1,
    UpdateProviderRequestV1,
};
use crate::registry::odata::values::{ODataValue, ODataValueView};
use crate::registry::query::{ODataQuery, Page, PageInfo};
use crate::registry::rest::dto::{
    nullable, CreateModelRequestDto, CreateProviderRequestDto, ModelDto, ModelListDto,
    ModelManagementListDto, PageInfoDto, ProviderDto, ProviderListDto, UpdateModelRequestDto,
    UpdateProviderRequestDto,
};
use crate::registry::rest::handlers::{
    create_model_request, create_provider_request, management_list, model_list, page_info_dto,
    provider_list, update_model_request, update_provider_request,
};
use crate::registry::rest::parse::{
    approval_status, law_approval_status_wire, law_lifecycle_status_wire, law_provider_status_wire,
    lifecycle_status, provider_status, reject_select,
};
use crate::registry::rest::problem::{CanonicalError, CanonicalErrorView};

verus! {

/// How a provider's status is written.
pub open spec fn provider_word(status: ProviderStatus) -> Seq<char> {
    if status is Active {
        "active"@
    } else {
        "disabled"@
    }
}

/// How a lifecycle status is written.
pub open spec fn lifecycle_word(status: LifecycleStatus) -> Seq<char> {
    if status is Production {
        "production"@
    } else if status is Preview {
        "preview"@
    } else if status is Experimental {
        "experimental"@
    } else if status is Deprecated {
        "deprecated"@
    } else {
        "sunset"@
    }
}

/// How an approval status is written.
pub open spec fn approval_word(status: ApprovalStatus) -> Seq<char> {
    if status is Pending {
        "pending"@
    } else if status is Approved {
        "approved"@
    } else if status is Rejected {
        "rejected"@
    } else {
        "revoked"@
    }
}

/// Whether a text is a provider status.
pub open spec fn is_provider_word(text: Seq<char>) -> bool {
    text == "active"@ || text == "disabled"@
}

/// Whether a text is a lifecycle status.
pub open spec fn is_lifecycle_word(text: Seq<char>) -> bool {
    text == "production"@ || text == "preview"@ || text == "experimental"@ || text
        == "deprecated"@ || text == "sunset"@
}

/// Whether a text is an approval status.
pub open spec fn is_approval_word(text: Seq<char>) -> bool {
    text == "pending"@ || text == "approved"@ || text == "rejected"@ || text == "revoked"@
}

/// Whether a problem tells of one field, what is wrong with it and by which rule.
pub open spec fn tells_of(
    e: CanonicalError,
    field: Seq<char>,
    description: Seq<char>,
    reason: Seq<char>,
) -> bool {
    &&& e@ matches CanonicalErrorView::InvalidFields { field_violations }
    &&& field_violations.len() == 1
    &&& field_violations[0].field == field
    &&& field_violations[0].description == description
    &&& field_violations[0].reason == reason
}

/// What is told of a text that is none of the expected ones.
pub open spec fn not_one_of(raw: Seq<char>, expected: Seq<char>) -> Seq<char> {
    "unknown value `"@ + raw + "`, expected one of: "@ + expected
}

/// Whether a problem tells of an unknown provider status.
pub open spec fn tells_of_provider_status(e: CanonicalError, raw: Seq<char>) -> bool {
    tells_of(e, "status"@, not_one_of(raw, "active, disabled"@), "INVALID_PROVIDER_STATUS"@)
}

/// Whether a problem tells of an unknown lifecycle status.
pub open spec fn tells_of_lifecycle(e: CanonicalError, raw: Seq<char>) -> bool {
    tells_of(
        e,
        "lifecycle_status"@,
        not_one_of(raw, "production, preview, experimental, deprecated, sunset"@),
        "INVALID_LIFECYCLE_STATUS"@,
    )
}

/// Whether a problem tells of an unknown approval status.
pub open spec fn tells_of_approval(e: CanonicalError, raw: Seq<char>) -> bool {
    tells_of(
        e,
        "approval_status"@,
        not_one_of(raw, "pending, approved, rejected, revoked"@),
        "INVALID_APPROVAL_STATUS"@,
    )
}

/// A provider status is written as its word, in responses and in filters, and read back from
/// it.
pub proof fn law_provider_status_reads_back(
    status: ProviderStatus,
    text: &'static str,
    value: ODataValue,
    read: Result<ProviderStatus, CanonicalError>,
    known: Option<ProviderStatus>,
)
    requires
        call_ensures(ProviderStatus::as_str, (status,), text),
        call_ensures(ProviderStatus::into_odata_value, (status,), value),
        call_ensures(provider_status, (text,), read),
        call_ensures(ProviderStatus::from_wire, (text,), known),
    ensures
        text@ == provider_word(status),
        value@ == ODataValueView::String(provider_word(status)),
        read == Ok::<ProviderStatus, CanonicalError>(status),
        known == Some(status),
{
    if read is Ok {
        law_provider_status_wire(read->Ok_0, status);
    }
    if known is Some {
        law_provider_status_wire(known->0, status);
    }
    assert(status.wire() == text@);
}

/// A text is read as a provider status exactly where it is the word of one, and told of
/// where it is none.
pub proof fn law_provider_status_known(raw: &str, r: Result<ProviderStatus, CanonicalError>)
    requires
        call_ensures(provider_status, (raw,), r),
    ensures
        r is Ok <==> is_provider_word(raw@),
        r matches Ok(status) ==> raw@ == provider_word(status),
        r matches Err(e) ==> tells_of_provider_status(e, raw@),
{
    assert(ProviderStatus::Active.wire() == provider_word(ProviderStatus::Active));
    assert(ProviderStatus::Disabled.wire() == provider_word(ProviderStatus::Disabled));
}

/// A lifecycle status is written as its word, in responses and in filters, and read back from
/// it.
pub proof fn law_lifecycle_status_reads_back(
    status: LifecycleStatus,
    text: &'static str,
    value: ODataValue,
    read: Result<LifecycleStatus, CanonicalError>,
    known: Option<LifecycleStatus>,
)
    requires
        call_ensures(LifecycleStatus::as_str, (status,), text),
        call_ensures(LifecycleStatus::into_odata_value, (status,), value),
        call_ensures(lifecycle_status, (text,), read),
        call_ensures(LifecycleStatus::from_wire, (text,), known),
    ensures
        text@ == lifecycle_word(status),
        value@ == ODataValueView::String(lifecycle_word(status)),
        read == Ok::<LifecycleStatus, CanonicalError>(status),
        known == Some(status),
{
    if read is Ok {
        law_lifecycle_status_wire(read->Ok_0, status);
    }
    if known is Some {
        law_lifecycle_status_wire(known->0, status);
    }
    assert(status.wire() == text@);
}

/// A text is read as a lifecycle status exactly where it is the word of one, and told of
/// where it is none.
pub proof fn law_lifecycle_status_known(raw: &str, r: Result<LifecycleStatus, CanonicalError>)
    requires
        call_ensures(lifecycle_status, (raw,), r),
    ensures
        r is Ok <==> is_lifecycle_word(raw@),
        r matches Ok(status) ==> raw@ == lifecycle_word(status),
        r matches Err(e) ==> tells_of_lifecycle(e, raw@),
{
    assert(LifecycleStatus::Production.wire() == lifecycle_word(LifecycleStatus::Production));
    assert(LifecycleStatus::Preview.wire() == lifecycle_word(LifecycleStatus::Preview));
    assert(LifecycleStatus::Experimental.wire() == lifecycle_word(LifecycleStatus::Experimental));
    assert(LifecycleStatus::Deprecated.wire() == lifecycle_word(LifecycleStatus::Deprecated));
    assert(LifecycleStatus::Sunset.wire() == lifecycle_word(LifecycleStatus::Sunset));
}

/// A approval status is written as its word, in responses and in filters, and read back from
/// it.
pub proof fn law_approval_status_reads_back(
    status: ApprovalStatus,
    text: &'static str,
    value: ODataValue,
    read: Result<ApprovalStatus, CanonicalError>,
    known: Option<ApprovalStatus>,
)
    requires
        call_ensures(ApprovalStatus::as_str, (status,), text),
        call_ensures(ApprovalStatus::into_odata_value, (status,), value),
        call_ensures(approval_status, (text,), read),
        call_ensures(ApprovalStatus::from_wire, (text,), known),
    ensures
        text@ == approval_word(status),
        value@ == ODataValueView::String(approval_word(status)),
        read == Ok::<ApprovalStatus, CanonicalError>(status),
        known == Some(status),
{
    if read is Ok {
        law_approval_status_wire(read->Ok_0, status);
    }
    if known is Some {
        law_approval_status_wire(known->0, status);
    }
    assert(status.wire() == text@);
}

/// A text is read as a approval status exactly where it is the word of one, and told of
/// where it is none.
pub proof fn law_approval_status_known(raw: &str, r: Result<ApprovalStatus, CanonicalError>)
    requires
        call_ensures(approval_status, (raw,), r),
    ensures
        r is Ok <==> is_approval_word(raw@),
        r matches Ok(status) ==> raw@ == approval_word(status),
        r matches Err(e) ==> tells_of_approval(e, raw@),
{
    assert(ApprovalStatus::Pending.wire() == approval_word(ApprovalStatus::Pending));
    assert(ApprovalStatus::Approved.wire() == approval_word(ApprovalStatus::Approved));
    assert(ApprovalStatus::Rejected.wire() == approval_word(ApprovalStatus::Rejected));
    assert(ApprovalStatus::Revoked.wire() == approval_word(ApprovalStatus::Revoked));
}

/// The one supported API is written as its word.
pub proof fn law_api_word(api: SupportedApi, text: &'static str, value: ODataValue)
    requires
        call_ensures(SupportedApi::as_str, (api,), text),
        call_ensures(SupportedApi::into_odata_value, (api,), value),
    ensures
        text@ == "completion"@,
        value@ == ODataValueView::String("completion"@),
{
}

/// A listing over the wire refuses exactly a projection.
pub proof fn law_wire_refuses_projections(query: ODataQuery, r: Result<(), CanonicalError>)
    requires
        call_ensures(reject_select, (&query,), r),
    ensures
        r is Err <==> query.select is Some,
        r matches Err(e) ==> tells_of(
            e,
            "$select"@,
            "$select is not supported by this endpoint; responses always carry every field"@,
            "UNSUPPORTED_SELECT"@,
        ),
{
}

/// A field that is there counts as given, though it holds null.
pub proof fn law_null_is_given<T, E>(
    decoded: Result<Option<T>, E>,
    r: Result<Option<Option<T>>, E>,
)
    requires
        call_ensures(nullable::<T, E>, (decoded,), r),
    ensures
        decoded matches Ok(value) ==> r == Ok::<Option<Option<T>>, E>(Some(value)),
        decoded matches Err(e) ==> r == Err::<Option<Option<T>>, E>(e),
{
}

/// A body to register a provider is taken as it is, field by field.
pub proof fn law_body_registers_a_provider(
    body: CreateProviderRequestDto,
    request: CreateProviderRequestV1,
)
    requires
        call_ensures(create_provider_request, (body,), request),
    ensures
        request@.slug == body.slug@,
        request@.name == body.name@,
        request@.gts_type == body.gts_type@,
        request@.managed == body.managed,
        request@.metadata == body.metadata,
        request@.discovery_enabled == body.discovery_enabled,
        request@.discovery_interval_seconds == body.discovery_interval_seconds,
{
}

/// A body to change a provider is taken as it is, field by field, with the status by its
/// word. Exactly an unknown status is refused.
pub proof fn law_body_changes_a_provider(
    body: UpdateProviderRequestDto,
    r: Result<UpdateProviderRequestV1, CanonicalError>,
)
    requires
        call_ensures(update_provider_request, (body,), r),
    ensures
        r is Err <==> (body.status matches Some(text) && !is_provider_word(text@)),
        r matches Err(e) ==> tells_of_provider_status(e, body.status->0@),
        r matches Ok(request) ==> {
            &&& body.status is None ==> request.status is None
            &&& body.status matches Some(text) ==> request.status is Some && provider_word(
                request.status->0,
            ) == text@
            &&& request.name == body.name
            &&& request.managed == body.managed
            &&& request.metadata == body.metadata
            &&& request.discovery_enabled == body.discovery_enabled
            &&& request.discovery_interval_seconds == body.discovery_interval_seconds
        },
{
    assert(ProviderStatus::Active.wire() == "active"@);
    assert(ProviderStatus::Disabled.wire() == "disabled"@);
}

proof fn lemma_lifecycle_words(text: Seq<char>)
    ensures
        is_lifecycle_word(text) <==> exists|s: LifecycleStatus| #[trigger] s.wire() == text,
        forall|s: LifecycleStatus| #[trigger] s.wire() == lifecycle_word(s),
{
    assert(LifecycleStatus::Production.wire() == "production"@);
    assert(LifecycleStatus::Preview.wire() == "preview"@);
    assert(LifecycleStatus::Experimental.wire() == "experimental"@);
    assert(LifecycleStatus::Deprecated.wire() == "deprecated"@);
    assert(LifecycleStatus::Sunset.wire() == "sunset"@);
}

proof fn lemma_approval_words(text: Seq<char>)
    ensures
        is_approval_word(text) <==> exists|s: ApprovalStatus| #[trigger] s.wire() == text,
        forall|s: ApprovalStatus| #[trigger] s.wire() == approval_word(s),
{
    assert(ApprovalStatus::Pending.wire() == "pending"@);
    assert(ApprovalStatus::Approved.wire() == "approved"@);
    assert(ApprovalStatus::Rejected.wire() == "rejected"@);
    assert(ApprovalStatus::Revoked.wire() == "revoked"@);
}

/// A body to register a model is taken as it is, with its statuses by their words. It is
/// refused exactly where a status is unknown or the description could not be read, and
/// the first of these is told.
pub proof fn law_body_registers_a_model<I>(
    body: CreateModelRequestDto<I>,
    r: Result<CreateModelBySlug<I>, CanonicalError>,
)
    requires
        call_ensures(create_model_request::<I>, (body,), r),
    ensures
        r is Ok <==> is_lifecycle_word(body.lifecycle_status@) && (body.approval_status matches Some(
            text,
        ) ==> is_approval_word(text@)) && body.info is Ok,
        r matches Ok(request) ==> {
            &&& request.provider_slug == body.provider_slug
            &&& lifecycle_word(request.lifecycle_status) == body.lifecycle_status@
            &&& body.approval_status is None ==> request.approval_status is None
            &&& body.approval_status matches Some(text) ==> request.approval_status is Some
                && approval_word(request.approval_status->0) == text@
            &&& body.info == Ok::<I, String>(request.info)
        },
        r matches Err(e) ==> if !is_lifecycle_word(body.lifecycle_status@) {
            tells_of_lifecycle(e, body.lifecycle_status@)
        } else if body.approval_status is Some && !is_approval_word(body.approval_status->0@) {
            tells_of_approval(e, body.approval_status->0@)
        } else {
            tells_of(e, "info"@, body.info->Err_0@, "INVALID_MODEL_INFO"@)
        },
{
    lemma_lifecycle_words(body.lifecycle_status@);
    if body.approval_status is Some {
        lemma_approval_words(body.approval_status->0@);
    }
    lemma_approval_words(Seq::empty());
}

/// Whether a nested document of a change is taken: as it is where it was read, and as
/// left alone where it is not there.
pub open spec fn takes_document(
    given: Option<Result<serde_json::Value, String>>,
    taken: Option<serde_json::Value>,
) -> bool {
    &&& given matches Some(Ok(value)) ==> taken == Some(value)
    &&& given is None ==> taken is None
}

/// Whether a nested document is there and could not be read.
pub open spec fn is_broken(given: Option<Result<serde_json::Value, String>>) -> bool {
    given is Some && given->0 is Err
}

/// Whether a text is there and no approval status.
pub open spec fn no_approval(text: Option<String>) -> bool {
    text is Some && !is_approval_word(text->0@)
}

/// Whether a text is there and no lifecycle status.
pub open spec fn no_lifecycle(text: Option<String>) -> bool {
    text is Some && !is_lifecycle_word(text->0@)
}

/// A body to change a model is taken as it is, field by field, with its statuses by
/// their words. It is refused exactly where a status is unknown or a nested document
/// could not be read, and the first of these is told.
#[verifier::rlimit(40)]
pub proof fn law_body_changes_a_model(
    body: UpdateModelRequestDto,
    r: Result<UpdateModelRequestV1, CanonicalError>,
)
    requires
        call_ensures(update_model_request, (body,), r),
    ensures
        r is Ok <==> !no_approval(body.approval_status) && !no_lifecycle(body.lifecycle_status)
            && !is_broken(body.performance)
            && !is_broken(body.capabilities)
            && !is_broken(body.disabled_capabilities)
            && !is_broken(body.context_window)
            && !is_broken(body.default_parameters),
        r matches Ok(request) ==> {
            &&& body.approval_status is None ==> request.approval_status is None
            &&& body.approval_status matches Some(text) ==> request.approval_status is Some
                && approval_word(request.approval_status->0) == text@
            &&& body.lifecycle_status is None ==> request.lifecycle_status is None
            &&& body.lifecycle_status matches Some(text) ==> request.lifecycle_status is Some
                && lifecycle_word(request.lifecycle_status->0) == text@
            &&& request.display_name == body.display_name
            &&& request.description == body.description
            &&& request.family == body.family
            &&& request.vendor == body.vendor
            &&& request.managed == body.managed
            &&& request.architecture == body.architecture
            &&& request.size_bytes == body.size_bytes
            &&& request.format == body.format
            &&& request.region == body.region
            &&& request.hosted_by == body.hosted_by
            &&& request.reasoning_level == body.reasoning_level
            &&& request.version == body.version
            &&& request.sort_order == body.sort_order
            &&& request.icon == body.icon
            &&& request.multiplier_display == body.multiplier_display
            &&& request.allow_parameter_override == body.allow_parameter_override
            &&& request.allow_extra_params == body.allow_extra_params
            &&& request.provider_settings == body.provider_settings
            &&& takes_document(body.performance, request.performance)
            &&& takes_document(body.capabilities, request.capabilities)
            &&& takes_document(body.disabled_capabilities, request.disabled_capabilities)
            &&& takes_document(body.context_window, request.context_window)
            &&& takes_document(body.default_parameters, request.default_parameters)
        },
        r matches Err(e) ==> if no_approval(body.approval_status) {
            tells_of_approval(e, body.approval_status->0@)
        } else if no_lifecycle(body.lifecycle_status) {
            tells_of_lifecycle(e, body.lifecycle_status->0@)
        } else if is_broken(body.performance) {
            tells_of(
                e,
                "performance"@,
                body.performance->0->Err_0@,
                "INVALID_PERFORMANCE"@,
            )
        } else if is_broken(body.capabilities) {
            tells_of(
                e,
                "capabilities"@,
                body.capabilities->0->Err_0@,
                "INVALID_CAPABILITIES"@,
            )
        } else if is_broken(body.disabled_capabilities) {
            tells_of(
                e,
                "disabled_capabilities"@,
                body.disabled_capabilities->0->Err_0@,
                "INVALID_DISABLED_CAPABILITIES"@,
            )
        } else if is_broken(body.context_window) {
            tells_of(
                e,
                "context_window"@,
                body.context_window->0->Err_0@,
                "INVALID_CONTEXT_WINDOW"@,
            )
        } else {
            tells_of(
                e,
                "default_parameters"@,
                body.default_parameters->0->Err_0@,
                "INVALID_DEFAULT_PARAMETERS"@,
            )
        },
{
    if body.lifecycle_status is Some {
        lemma_lifecycle_words(body.lifecycle_status->0@);
    }
    if body.approval_status is Some {
        lemma_approval_words(body.approval_status->0@);
    }
    lemma_lifecycle_words(Seq::empty());
    lemma_approval_words(Seq::empty());
}

/// Whether a body shows a provider: its status by its word, its instants by RFC 3339 and
/// everything else as it is. The owner is not shown.
pub open spec fn body_of_provider(body: ProviderDto, provider: ProviderV1) -> bool {
    &&& body.status@ == provider_word(provider.status)
    &&& body.id == provider.id
    &&& body.slug == provider.slug
    &&& body.name == provider.name
    &&& body.gts_type == provider.gts_type
    &&& body.managed == provider.managed
    &&& body.metadata == provider.metadata
    &&& body.discovery_enabled == provider.discovery_enabled
    &&& body.discovery_interval_seconds == provider.discovery_interval_seconds
    &&& rfc3339(provider.created_at.seconds(), provider.created_at.nanos()) == Some(body.created_at@)
    &&& rfc3339(provider.updated_at.seconds(), provider.updated_at.nanos()) == Some(body.updated_at@)
}

/// Whether a body shows a model, whose description reads as `info`.
pub open spec fn body_of_model(body: ModelDto, model: ModelV1, info: serde_json::Value) -> bool {
    &&& body.id == model.id
    &&& body.provider_id == model.provider_id
    &&& body.canonical_id == model.canonical_id
    &&& body.lifecycle_status@ == lifecycle_word(model.lifecycle_status)
    &&& body.approval_status@ == approval_word(model.approval_status)
    &&& body.info == info
}

/// Whether a body says where a page stands.
pub open spec fn body_of_page(body: PageInfoDto, info: PageInfo) -> bool {
    &&& body.next_cursor == info.next_cursor
    &&& body.prev_cursor == info.prev_cursor
    &&& body.limit == info.limit
}

/// Whether a problem tells of a page size that the wire cannot carry.
pub open spec fn tells_of_page_size(e: CanonicalError) -> bool {
    e@ == (CanonicalErrorView::Internal { detail: "page limit exceeds u32 range"@ })
}

/// A provider is shown field by field.
pub proof fn law_provider_shown(provider: ProviderV1, body: ProviderDto)
    requires
        call_ensures(<ProviderDto as From<ProviderV1>>::from, (provider,), body),
    ensures
        body_of_provider(body, provider),
{
}

/// A model is shown field by field.
pub proof fn law_model_shown(model: ModelV1, info: serde_json::Value, body: ModelDto)
    requires
        call_ensures(ModelDto::from_model, (model, info), body),
    ensures
        body_of_model(body, model, info),
{
}

/// Where a page stands is shown as it is, unless its size does not fit the wire.
pub proof fn law_page_shown(info: PageInfo, r: Result<PageInfoDto, CanonicalError>)
    requires
        call_ensures(page_info_dto, (info,), r),
    ensures
        r is Err <==> info.limit > 4294967295,
        r matches Ok(body) ==> body_of_page(body, info),
        r matches Err(e) ==> tells_of_page_size(e),
{
}

/// A page of providers shows every provider, in its place.
pub proof fn law_providers_shown(
    page: Page<ProviderV1>,
    r: Result<ProviderListDto, CanonicalError>,
)
    requires
        call_ensures(provider_list, (page,), r),
    ensures
        r is Err <==> page.page_info.limit > 4294967295,
        r matches Err(e) ==> tells_of_page_size(e),
        r matches Ok(body) ==> {
            &&& body_of_page(body.page_info, page.page_info)
            &&& body.items@.len() == page.items@.len()
            &&& forall|i: int|
                0 <= i < page.items@.len() ==> body_of_provider(
                    #[trigger] body.items@[i],
                    page.items@[i],
                )
        },
{
}

/// A page of models shows every model, in its place, with its own description.
pub proof fn law_models_shown(
    page: Page<(ModelV1, serde_json::Value)>,
    r: Result<ModelListDto, CanonicalError>,
)
    requires
        call_ensures(model_list, (page,), r),
    ensures
        r is Err <==> page.page_info.limit > 4294967295,
        r matches Err(e) ==> tells_of_page_size(e),
        r matches Ok(body) ==> {
            &&& body_of_page(body.page_info, page.page_info)
            &&& body.items@.len() == page.items@.len()
            &&& forall|i: int|
                0 <= i < page.items@.len() ==> body_of_model(
                    #[trigger] body.items@[i],
                    page.items@[i].0,
                    page.items@[i].1,
                )
        },
{
}

/// A page for administration shows every model, in its place, with its own description
/// and its own notes.
pub proof fn law_noted_models_shown(
    page: Page<(ModelManagementV1, serde_json::Value)>,
    r: Result<ModelManagementListDto, CanonicalError>,
)
    requires
        call_ensures(management_list, (page,), r),
    ensures
        r is Err <==> page.page_info.limit > 4294967295,
        r matches Err(e) ==> tells_of_page_size(e),
        r matches Ok(body) ==> {
            &&& body_of_page(body.page_info, page.page_info)
            &&& body.items@.len() == page.items@.len()
            &&& forall|i: int|
                0 <= i < page.items@.len() ==> {
                    &&& body_of_model(
                        (#[trigger] body.items@[i]).model,
                        page.items@[i].0.model,
                        page.items@[i].1,
                    )
                    &&& body.items@[i].provider_disabled == page.items@[i].0.provider_disabled
                    &&& body.items@[i].available_for_eval == page.items@[i].0.available_for_eval
                }
        },
{
}

} // verus!
