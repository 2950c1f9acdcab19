//! What handlers do between the wire and the service: bodies into requests, and
//! results into bodies.
use vstd::prelude::*;
use vstd::string::*;
use crate::registry::models::{
    ApprovalStatus, CreateModelBySlug, CreateProviderRequestV1, CreateProviderView,
    LifecycleStatus, ModelManagementV1, ModelV1, ProviderStatus, ProviderV1,
    UpdateModelRequestV1, UpdateProviderRequestV1,
};
use crate::registry::query::{Page, PageInfo};
use crate::registry::rest::dto::{
    shows_model, shows_provider, CreateModelRequestDto, CreateProviderRequestDto, ModelDto,
    ModelListDto, ModelManagementDto, ModelManagementListDto, PageInfoDto, ProviderDto,
    ProviderListDto, UpdateModelRequestDto, UpdateProviderRequestDto,
};
use crate::registry::rest::parse::{
    approval_status, approval_status_problem, lifecycle_status, lifecycle_status_problem,
    provider_status, provider_status_problem,
};
use crate::registry::rest::problem::{CanonicalError, CanonicalErrorView};

verus! {

/// `gts::GtsTypeId::new`, which keeps the text it is given without looking at it,
/// and the text it holds.
#[verifier::external_body]
fn gts_type_id(text: &str) -> (r: String)
    ensures
        r@ == text@,
{
    gts::GtsTypeId::new(text).into_string()
}

/// The request that a body to register a provider stands for.
pub fn create_provider_request(dto: CreateProviderRequestDto) -> (r: CreateProviderRequestV1)
    ensures
        r@ == (CreateProviderView {
            slug: dto.slug@,
            name: dto.name@,
            gts_type: dto.gts_type@,
            managed: dto.managed,
            metadata: dto.metadata,
            discovery_enabled: dto.discovery_enabled,
            discovery_interval_seconds: dto.discovery_interval_seconds,
        }),
{
    let gts_type = gts_type_id(dto.gts_type.as_str());
    let request = CreateProviderRequestV1::builder(
        dto.slug.as_str(),
        dto.name.as_str(),
        gts_type,
    ).managed(dto.managed).discovery_enabled(dto.discovery_enabled);
    let request = match dto.metadata {
        Some(metadata) => request.metadata(metadata),
        None => request,
    };
    let request = match dto.discovery_interval_seconds {
        Some(seconds) => request.discovery_interval_seconds(seconds),
        None => request,
    };
    request.build()
}

/// Whether `raw` is read as `status`, where it is there.
pub open spec fn reads_provider_status(raw: Option<String>, status: Option<ProviderStatus>) -> bool {
    match (raw, status) {
        (Some(text), Some(s)) => s.wire() == text@,
        (None, None) => true,
        _ => false,
    }
}

/// Whether `raw` is read as `status`, where it is there.
pub open spec fn reads_approval(raw: Option<String>, status: Option<ApprovalStatus>) -> bool {
    match (raw, status) {
        (Some(text), Some(s)) => s.wire() == text@,
        (None, None) => true,
        _ => false,
    }
}

/// Whether `raw` is read as `status`, where it is there.
pub open spec fn reads_lifecycle(raw: Option<String>, status: Option<LifecycleStatus>) -> bool {
    match (raw, status) {
        (Some(text), Some(s)) => s.wire() == text@,
        (None, None) => true,
        _ => false,
    }
}

/// Whether `raw` is there and no provider status.
pub open spec fn bad_provider_status(raw: Option<String>) -> bool {
    raw matches Some(text) && forall|s: ProviderStatus| #[trigger] s.wire() != text@
}

/// Whether `raw` is there and no approval status.
pub open spec fn bad_approval(raw: Option<String>) -> bool {
    raw matches Some(text) && forall|s: ApprovalStatus| #[trigger] s.wire() != text@
}

/// Whether `raw` is there and no lifecycle status.
pub open spec fn bad_lifecycle(raw: Option<String>) -> bool {
    raw matches Some(text) && forall|s: LifecycleStatus| #[trigger] s.wire() != text@
}

fn optional_approval(raw: Option<String>) -> (r: Result<Option<ApprovalStatus>, CanonicalError>)
    ensures
        match r {
            Ok(status) => reads_approval(raw, status) && !bad_approval(raw),
            Err(e) => bad_approval(raw) && e@ == approval_status_problem(raw->0@),
        },
{
    match raw {
        Some(text) => match approval_status(text.as_str()) {
            Ok(status) => Ok(Some(status)),
            Err(e) => Err(e),
        },
        None => Ok(None),
    }
}

fn optional_lifecycle(raw: Option<String>) -> (r: Result<Option<LifecycleStatus>, CanonicalError>)
    ensures
        match r {
            Ok(status) => reads_lifecycle(raw, status) && !bad_lifecycle(raw),
            Err(e) => bad_lifecycle(raw) && e@ == lifecycle_status_problem(raw->0@),
        },
{
    match raw {
        Some(text) => match lifecycle_status(text.as_str()) {
            Ok(status) => Ok(Some(status)),
            Err(e) => Err(e),
        },
        None => Ok(None),
    }
}

/// The request that a body to change a provider stands for.
pub fn update_provider_request(dto: UpdateProviderRequestDto) -> (r: Result<
    UpdateProviderRequestV1,
    CanonicalError,
>)
    ensures
        match r {
            Ok(request) => {
                &&& !bad_provider_status(dto.status)
                &&& reads_provider_status(dto.status, request.status)
                &&& request.name == dto.name
                &&& request.managed == dto.managed
                &&& request.metadata == dto.metadata
                &&& request.discovery_enabled == dto.discovery_enabled
                &&& request.discovery_interval_seconds == dto.discovery_interval_seconds
            },
            Err(e) => bad_provider_status(dto.status) && e@ == provider_status_problem(
                dto.status->0@,
            ),
        },
{
    let status = match dto.status {
        Some(text) => match provider_status(text.as_str()) {
            Ok(status) => Some(status),
            Err(e) => {
                return Err(e);
            },
        },
        None => None,
    };
    Ok(
        UpdateProviderRequestV1 {
            name: dto.name,
            status,
            managed: dto.managed,
            metadata: dto.metadata,
            discovery_enabled: dto.discovery_enabled,
            discovery_interval_seconds: dto.discovery_interval_seconds,
        },
    )
}

/// What is wrong with a body to register a model, if anything: the first of its
/// lifecycle status, its approval status and its description.
pub open spec fn create_model_problem<I>(dto: CreateModelRequestDto<I>) -> Option<
    CanonicalErrorView,
> {
    if bad_lifecycle(Some(dto.lifecycle_status)) {
        Some(lifecycle_status_problem(dto.lifecycle_status@))
    } else if bad_approval(dto.approval_status) {
        Some(approval_status_problem(dto.approval_status->0@))
    } else {
        match dto.info {
            Ok(_) => None,
            Err(why) => Some(CanonicalErrorView::field("info"@, why@, "INVALID_MODEL_INFO"@)),
        }
    }
}

/// The request that a body to register a model stands for.
pub fn create_model_request<I>(dto: CreateModelRequestDto<I>) -> (r: Result<
    CreateModelBySlug<I>,
    CanonicalError,
>)
    ensures
        match r {
            Ok(request) => {
                &&& create_model_problem(dto) is None
                &&& request.provider_slug == dto.provider_slug
                &&& request.lifecycle_status.wire() == dto.lifecycle_status@
                &&& reads_approval(dto.approval_status, request.approval_status)
                &&& dto.info == Ok::<I, String>(request.info)
            },
            Err(e) => create_model_problem(dto) == Some(e@),
        },
{
    let lifecycle_status = match lifecycle_status(dto.lifecycle_status.as_str()) {
        Ok(status) => status,
        Err(e) => {
            return Err(e);
        },
    };
    let approval_status = match optional_approval(dto.approval_status) {
        Ok(status) => status,
        Err(e) => {
            return Err(e);
        },
    };
    let info = match dto.info {
        Ok(info) => info,
        Err(why) => {
            return Err(CanonicalError::field_violation("info", why, "INVALID_MODEL_INFO"));
        },
    };
    Ok(
        CreateModelBySlug {
            provider_slug: dto.provider_slug,
            lifecycle_status,
            approval_status,
            info,
        },
    )
}

/// The document of a field that is there and was read.
pub open spec fn document(field: Option<Result<serde_json::Value, String>>) -> Option<
    serde_json::Value,
> {
    match field {
        Some(Ok(value)) => Some(value),
        _ => None,
    }
}

/// Whether a field is there and could not be read.
pub open spec fn unreadable(field: Option<Result<serde_json::Value, String>>) -> bool {
    field matches Some(Err(_))
}

/// Why a field that is there could not be read.
pub open spec fn why_unreadable(field: Option<Result<serde_json::Value, String>>) -> Seq<char> {
    field->0->Err_0@
}

fn optional_document(
    field: Option<Result<serde_json::Value, String>>,
    name: &str,
    code: &str,
) -> (r: Result<Option<serde_json::Value>, CanonicalError>)
    ensures
        match r {
            Ok(value) => !unreadable(field) && value == document(field),
            Err(e) => unreadable(field) && e@ == CanonicalErrorView::field(
                name@,
                why_unreadable(field),
                code@,
            ),
        },
{
    match field {
        Some(read) => match read {
            Ok(value) => Ok(Some(value)),
            Err(why) => Err(CanonicalError::field_violation(name, why, code)),
        },
        None => Ok(None),
    }
}

/// What is wrong with a body to change a model, if anything: the first of its two
/// statuses and its five nested documents, in the order in which they are listed.
pub open spec fn update_model_problem(dto: UpdateModelRequestDto) -> Option<CanonicalErrorView> {
    if bad_approval(dto.approval_status) {
        Some(approval_status_problem(dto.approval_status->0@))
    } else if bad_lifecycle(dto.lifecycle_status) {
        Some(lifecycle_status_problem(dto.lifecycle_status->0@))
    } else if unreadable(dto.performance) {
        Some(
            CanonicalErrorView::field(
                "performance"@,
                why_unreadable(dto.performance),
                "INVALID_PERFORMANCE"@,
            ),
        )
    } else if unreadable(dto.capabilities) {
        Some(
            CanonicalErrorView::field(
                "capabilities"@,
                why_unreadable(dto.capabilities),
                "INVALID_CAPABILITIES"@,
            ),
        )
    } else if unreadable(dto.disabled_capabilities) {
        Some(
            CanonicalErrorView::field(
                "disabled_capabilities"@,
                why_unreadable(dto.disabled_capabilities),
                "INVALID_DISABLED_CAPABILITIES"@,
            ),
        )
    } else if unreadable(dto.context_window) {
        Some(
            CanonicalErrorView::field(
                "context_window"@,
                why_unreadable(dto.context_window),
                "INVALID_CONTEXT_WINDOW"@,
            ),
        )
    } else if unreadable(dto.default_parameters) {
        Some(
            CanonicalErrorView::field(
                "default_parameters"@,
                why_unreadable(dto.default_parameters),
                "INVALID_DEFAULT_PARAMETERS"@,
            ),
        )
    } else {
        None
    }
}

/// Whether `request` asks for what the body `dto` says.
pub open spec fn reads_update(dto: UpdateModelRequestDto, request: UpdateModelRequestV1) -> bool {
    &&& reads_approval(dto.approval_status, request.approval_status)
    &&& reads_lifecycle(dto.lifecycle_status, request.lifecycle_status)
    &&& request.display_name == dto.display_name
    &&& request.description == dto.description
    &&& request.family == dto.family
    &&& request.vendor == dto.vendor
    &&& request.managed == dto.managed
    &&& request.architecture == dto.architecture
    &&& request.size_bytes == dto.size_bytes
    &&& request.format == dto.format
    &&& request.region == dto.region
    &&& request.hosted_by == dto.hosted_by
    &&& request.reasoning_level == dto.reasoning_level
    &&& request.version == dto.version
    &&& request.sort_order == dto.sort_order
    &&& request.icon == dto.icon
    &&& request.multiplier_display == dto.multiplier_display
    &&& request.performance == document(dto.performance)
    &&& request.capabilities == document(dto.capabilities)
    &&& request.disabled_capabilities == document(dto.disabled_capabilities)
    &&& request.context_window == document(dto.context_window)
    &&& request.default_parameters == document(dto.default_parameters)
    &&& request.allow_parameter_override == dto.allow_parameter_override
    &&& request.allow_extra_params == dto.allow_extra_params
    &&& request.provider_settings == dto.provider_settings
}

/// The request that a body to change a model stands for.
pub fn update_model_request(dto: UpdateModelRequestDto) -> (r: Result<
    UpdateModelRequestV1,
    CanonicalError,
>)
    ensures
        match r {
            Ok(request) => update_model_problem(dto) is None && reads_update(dto, request),
            Err(e) => update_model_problem(dto) == Some(e@),
        },
{
    let approval_status = match optional_approval(dto.approval_status) {
        Ok(status) => status,
        Err(e) => {
            return Err(e);
        },
    };
    let lifecycle_status = match optional_lifecycle(dto.lifecycle_status) {
        Ok(status) => status,
        Err(e) => {
            return Err(e);
        },
    };
    let performance = match optional_document(
        dto.performance,
        "performance",
        "INVALID_PERFORMANCE",
    ) {
        Ok(value) => value,
        Err(e) => {
            return Err(e);
        },
    };
    let capabilities = match optional_document(
        dto.capabilities,
        "capabilities",
        "INVALID_CAPABILITIES",
    ) {
        Ok(value) => value,
        Err(e) => {
            return Err(e);
        },
    };
    let disabled_capabilities = match optional_document(
        dto.disabled_capabilities,
        "disabled_capabilities",
        "INVALID_DISABLED_CAPABILITIES",
    ) {
        Ok(value) => value,
        Err(e) => {
            return Err(e);
        },
    };
    let context_window = match optional_document(
        dto.context_window,
        "context_window",
        "INVALID_CONTEXT_WINDOW",
    ) {
        Ok(value) => value,
        Err(e) => {
            return Err(e);
        },
    };
    let default_parameters = match optional_document(
        dto.default_parameters,
        "default_parameters",
        "INVALID_DEFAULT_PARAMETERS",
    ) {
        Ok(value) => value,
        Err(e) => {
            return Err(e);
        },
    };
    Ok(
        UpdateModelRequestV1 {
            approval_status,
            lifecycle_status,
            display_name: dto.display_name,
            description: dto.description,
            family: dto.family,
            vendor: dto.vendor,
            managed: dto.managed,
            architecture: dto.architecture,
            size_bytes: dto.size_bytes,
            format: dto.format,
            region: dto.region,
            hosted_by: dto.hosted_by,
            reasoning_level: dto.reasoning_level,
            version: dto.version,
            sort_order: dto.sort_order,
            icon: dto.icon,
            multiplier_display: dto.multiplier_display,
            performance,
            capabilities,
            disabled_capabilities,
            context_window,
            default_parameters,
            allow_parameter_override: dto.allow_parameter_override,
            allow_extra_params: dto.allow_extra_params,
            provider_settings: dto.provider_settings,
        },
    )
}

/// The problem of a page size that the wire cannot carry.
pub open spec fn limit_problem() -> CanonicalErrorView {
    CanonicalErrorView::Internal { detail: "page limit exceeds u32 range"@ }
}

/// Where a page stands, for a response.
pub fn page_info_dto(info: PageInfo) -> (r: Result<PageInfoDto, CanonicalError>)
    ensures
        match r {
            Ok(dto) => {
                &&& dto.next_cursor == info.next_cursor
                &&& dto.prev_cursor == info.prev_cursor
                &&& dto.limit == info.limit
            },
            Err(e) => info.limit > u32::MAX && e@ == limit_problem(),
        },
{
    if info.limit > u32::MAX as u64 {
        return Err(CanonicalError::Internal { detail: "page limit exceeds u32 range".to_owned() });
    }
    Ok(
        PageInfoDto {
            next_cursor: info.next_cursor,
            prev_cursor: info.prev_cursor,
            limit: info.limit as u32,
        },
    )
}

/// The response for a page of providers.
pub fn provider_list(page: Page<ProviderV1>) -> (r: Result<ProviderListDto, CanonicalError>)
    ensures
        match r {
            Ok(dto) => {
                &&& dto.items@.len() == page.items@.len()
                &&& forall|i: int|
                    0 <= i < page.items@.len() ==> shows_provider(
                        #[trigger] dto.items@[i],
                        page.items@[i],
                    )
                &&& dto.page_info.next_cursor == page.page_info.next_cursor
                &&& dto.page_info.prev_cursor == page.page_info.prev_cursor
                &&& dto.page_info.limit == page.page_info.limit
            },
            Err(e) => page.page_info.limit > u32::MAX && e@ == limit_problem(),
        },
{
    let page_info = match page_info_dto(page.page_info) {
        Ok(info) => info,
        Err(e) => {
            return Err(e);
        },
    };
    let mut items: Vec<ProviderDto> = Vec::new();
    let ghost all = page.items@;
    for provider in it: page.items
        invariant
            it.seq() == all,
            items@.len() == it.index(),
            forall|i: int| 0 <= i < items@.len() ==> shows_provider(#[trigger] items@[i], all[i]),
    {
        items.push(ProviderDto::from(provider));
    }
    Ok(ProviderListDto { items, page_info })
}

/// The response for a page of models, each with what its description reads as a
/// document.
pub fn model_list(page: Page<(ModelV1, serde_json::Value)>) -> (r: Result<
    ModelListDto,
    CanonicalError,
>)
    ensures
        match r {
            Ok(dto) => {
                &&& dto.items@.len() == page.items@.len()
                &&& forall|i: int|
                    0 <= i < page.items@.len() ==> shows_model(
                        #[trigger] dto.items@[i],
                        page.items@[i].0,
                        page.items@[i].1,
                    )
                &&& dto.page_info.next_cursor == page.page_info.next_cursor
                &&& dto.page_info.prev_cursor == page.page_info.prev_cursor
                &&& dto.page_info.limit == page.page_info.limit
            },
            Err(e) => page.page_info.limit > u32::MAX && e@ == limit_problem(),
        },
{
    let page_info = match page_info_dto(page.page_info) {
        Ok(info) => info,
        Err(e) => {
            return Err(e);
        },
    };
    let mut items: Vec<ModelDto> = Vec::new();
    let ghost all = page.items@;
    for described in it: page.items
        invariant
            it.seq() == all,
            items@.len() == it.index(),
            forall|i: int|
                0 <= i < items@.len() ==> shows_model(#[trigger] items@[i], all[i].0, all[i].1),
    {
        let (model, info) = described;
        items.push(ModelDto::from_model(model, info));
    }
    Ok(ModelListDto { items, page_info })
}

/// The response for a page of models for administration, each with what its
/// description reads as a document.
pub fn management_list(page: Page<(ModelManagementV1, serde_json::Value)>) -> (r: Result<
    ModelManagementListDto,
    CanonicalError,
>)
    ensures
        match r {
            Ok(dto) => {
                &&& dto.items@.len() == page.items@.len()
                &&& forall|i: int|
                    0 <= i < page.items@.len() ==> {
                        let (noted, info) = page.items@[i];
                        &&& shows_model((#[trigger] dto.items@[i]).model, noted.model, info)
                        &&& dto.items@[i].provider_disabled == noted.provider_disabled
                        &&& dto.items@[i].available_for_eval == noted.available_for_eval
                    }
                &&& dto.page_info.next_cursor == page.page_info.next_cursor
                &&& dto.page_info.prev_cursor == page.page_info.prev_cursor
                &&& dto.page_info.limit == page.page_info.limit
            },
            Err(e) => page.page_info.limit > u32::MAX && e@ == limit_problem(),
        },
{
    let page_info = match page_info_dto(page.page_info) {
        Ok(info) => info,
        Err(e) => {
            return Err(e);
        },
    };
    let mut items: Vec<ModelManagementDto> = Vec::new();
    let ghost all = page.items@;
    for described in it: page.items
        invariant
            it.seq() == all,
            items@.len() == it.index(),
            forall|i: int|
                0 <= i < items@.len() ==> {
                    let (noted, info) = all[i];
                    &&& shows_model((#[trigger] items@[i]).model, noted.model, info)
                    &&& items@[i].provider_disabled == noted.provider_disabled
                    &&& items@[i].available_for_eval == noted.available_for_eval
                },
    {
        let (noted, info) = described;
        items.push(
            ModelManagementDto {
                model: ModelDto::from_model(noted.model, info),
                provider_disabled: noted.provider_disabled,
                available_for_eval: noted.available_for_eval,
            },
        );
    }
    Ok(ModelManagementListDto { items, page_info })
}

} // verus!
