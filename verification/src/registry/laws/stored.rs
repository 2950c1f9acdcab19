//! What stored rows hold, field by field.
use vstd::prelude::*;
use crate::ids::Uuid;
use crate::registry::error::{DomainError, DomainErrorView};
use crate::registry::laws::writes::life_ended;
use crate::registry::models::{
    CreateModelRequestV1, CreateProviderRequestV1, ModelV1, ProviderV1, UpdateModelRequestV1,
    UpdateProviderRequestV1,
};
use crate::registry::operation::{is_run, Reply, Request, Step};
use crate::registry::query::ListVisibility;
use crate::registry::rest::dto::UpdateProviderRequestDto;
use crate::registry::rest::handlers::update_provider_request;
use crate::registry::rest::parse::AdminModelsQuery;
use crate::registry::rest::problem::CanonicalError;
use crate::registry::rows::{
    check_provider_is_unused, check_slug_is_free, models_of, new_model, patch_model,
    patch_provider, retire_model,
};
use crate::registry::security::SecurityContext;
use crate::registry::service::Service;
use crate::registry::single_call::UpdateProvider;

verus! {

/// Whether a field holds what a change says: the new value where the change names one,
/// and else what it held before.
pub open spec fn follows<T>(after: T, before: T, change: Option<T>) -> bool {
    &&& change matches Some(value) ==> after == value
    &&& change is None ==> after == before
}

/// A changed provider has each field that the change names, its status among them, as
/// the change says, and every other field as it was.
pub proof fn law_changed_provider(
    before: ProviderV1,
    change: UpdateProviderRequestV1,
    after: ProviderV1,
)
    requires
        call_ensures(patch_provider, (before, change), after),
    ensures
        change.status matches Some(status) ==> after.status == status,
        follows(after.name, before.name, change.name),
        follows(after.status, before.status, change.status),
        follows(after.managed, before.managed, change.managed),
        follows(after.metadata, before.metadata, change.metadata),
        follows(after.discovery_enabled, before.discovery_enabled, change.discovery_enabled),
        follows(after.discovery_interval_seconds, before.discovery_interval_seconds, change.discovery_interval_seconds),
        after.id == before.id,
        after.tenant_id == before.tenant_id,
        after.slug == before.slug,
        after.gts_type == before.gts_type,
        after.created_at == before.created_at,
        after.updated_at == before.updated_at,
{
}

/// A changed model has each field that the change names as the change says, and every
/// other field as it was. What makes it the model it is no change can name.
pub proof fn law_changed_model(before: ModelV1, change: UpdateModelRequestV1, after: ModelV1)
    requires
        call_ensures(patch_model, (before, change), after),
    ensures
        follows(after.lifecycle_status, before.lifecycle_status, change.lifecycle_status),
        follows(after.approval_status, before.approval_status, change.approval_status),
        follows(after.info.display_name, before.info.display_name, change.display_name),
        follows(after.info.description, before.info.description, change.description),
        follows(after.info.family, before.info.family, change.family),
        follows(after.info.vendor, before.info.vendor, change.vendor),
        follows(after.info.managed, before.info.managed, change.managed),
        follows(after.info.architecture, before.info.architecture, change.architecture),
        follows(after.info.size_bytes, before.info.size_bytes, change.size_bytes),
        follows(after.info.format, before.info.format, change.format),
        follows(after.info.region, before.info.region, change.region),
        follows(after.info.hosted_by, before.info.hosted_by, change.hosted_by),
        follows(after.info.reasoning_level, before.info.reasoning_level, change.reasoning_level),
        follows(after.info.version, before.info.version, change.version),
        follows(after.info.sort_order, before.info.sort_order, change.sort_order),
        follows(after.info.icon, before.info.icon, change.icon),
        follows(
            after.info.multiplier_display,
            before.info.multiplier_display,
            change.multiplier_display,
        ),
        follows(after.info.performance, before.info.performance, change.performance),
        follows(after.info.capabilities, before.info.capabilities, change.capabilities),
        follows(
            after.info.disabled_capabilities,
            before.info.disabled_capabilities,
            change.disabled_capabilities,
        ),
        follows(after.info.context_window, before.info.context_window, change.context_window),
        follows(
            after.info.default_parameters,
            before.info.default_parameters,
            change.default_parameters,
        ),
        follows(
            after.info.allow_parameter_override,
            before.info.allow_parameter_override,
            change.allow_parameter_override,
        ),
        follows(
            after.info.allow_extra_params,
            before.info.allow_extra_params,
            change.allow_extra_params,
        ),
        follows(
            after.info.provider_settings,
            before.info.provider_settings,
            change.provider_settings,
        ),
        after.id == before.id,
        after.tenant_id == before.tenant_id,
        after.provider_id == before.provider_id,
        after.canonical_id == before.canonical_id,
        after.info.gts_type == before.info.gts_type,
        after.info.last_release_at == before.info.last_release_at,
        after.info.additional_info == before.info.additional_info,
        after.info.supported_api == before.info.supported_api,
        after.info.provider_model_id == before.info.provider_model_id,
{
}

/// A new model is the provider's, in the provider's tenant, and described, and in the
/// state, as the request says. Without a word on approval it waits for one. Its
/// canonical id is the provider's slug, two colons and the provider's name of the model.
pub proof fn law_new_model(
    id: Uuid,
    provider: ProviderV1,
    request: CreateModelRequestV1,
    model: ModelV1,
)
    requires
        call_ensures(new_model, (id, &provider, request), model),
    ensures
        model.id == id,
        model.tenant_id == provider.tenant_id,
        model.provider_id == provider.id,
        model.lifecycle_status == request.lifecycle_status,
        request.approval_status matches Some(status) ==> model.approval_status == status,
        request.approval_status is None ==> model.approval_status is Pending,
        model.info == request.info,
        model.canonical_id@ == provider.slug@ + seq![':', ':'] + request.info.provider_model_id@,
{
    reveal_strlit("::");
    assert("::"@ =~= seq![':', ':']);
}

/// A model taken out of service is deprecated, and otherwise as it was.
pub proof fn law_retired_model(before: ModelV1, after: ModelV1)
    requires
        call_ensures(retire_model, (before,), after),
    ensures
        after.lifecycle_status is Deprecated,
        after.id == before.id,
        after.tenant_id == before.tenant_id,
        after.provider_id == before.provider_id,
        after.canonical_id == before.canonical_id,
        after.approval_status == before.approval_status,
        after.info == before.info,
{
}

/// A listing for use shows a model exactly where its provider is on the list, its life
/// has not ended and it is approved. A listing for administration shows every model, or
/// every one whose life has not ended.
pub proof fn law_shown_models(visibility: ListVisibility, model: ModelV1, shown: bool)
    requires
        call_ensures(ListVisibility::admits, (&visibility, &model), shown),
    ensures
        match visibility {
            ListVisibility::Eval { allow_list } => shown <==> (exists|i: int|
                0 <= i < allow_list@.len() && #[trigger] allow_list@[i] == model.provider_id)
                && !life_ended(model.lifecycle_status) && model.approval_status is Approved,
            ListVisibility::Management { include_deprecated } => shown <==> include_deprecated
                || !life_ended(model.lifecycle_status),
        },
{
}

/// A slug is refused exactly where the tenant itself has a provider with it, and the
/// refusal names the slug.
pub proof fn law_slug_is_free(
    rows: Vec<ProviderV1>,
    tenant_id: Uuid,
    request: CreateProviderRequestV1,
    r: Result<(), DomainError>,
)
    requires
        call_ensures(check_slug_is_free, (&rows, tenant_id, &request), r),
    ensures
        r is Err <==> exists|i: int|
            0 <= i < rows@.len() && (#[trigger] rows@[i]).tenant_id == tenant_id && rows@[i].slug@
                == request@.slug,
        r matches Err(e) ==> e@ == (DomainErrorView::ProviderConflict { slug: request@.slug }),
{
}

proof fn lemma_models_of(models: Seq<ModelV1>, id: Uuid)
    ensures
        models_of(models, id) == models.filter(|m: ModelV1| m.provider_id == id).len(),
        models_of(models, id) > 0 <==> exists|i: int|
            0 <= i < models.len() && (#[trigger] models[i]).provider_id == id,
    decreases models.len(),
{
    reveal(Seq::filter);
    if models.len() > 0 {
        let front = models.drop_last();
        lemma_models_of(front, id);
        if models_of(front, id) > 0 {
            let i = choose|i: int| 0 <= i < front.len() && (#[trigger] front[i]).provider_id == id;
            assert(models[i].provider_id == id);
        }
        if models_of(models, id) == 0 {
            assert forall|i: int| 0 <= i < models.len() implies (#[trigger] models[i]).provider_id
                != id by {
                if i < front.len() {
                    assert(front[i].provider_id != id);
                }
            }
        }
    }
}

/// A provider cannot be removed exactly as long as it has models, in whatever state,
/// and the refusal says how many.
pub proof fn law_unused_provider(id: Uuid, models: Vec<ModelV1>, r: Result<(), DomainError>)
    requires
        call_ensures(check_provider_is_unused, (id, &models), r),
    ensures
        r is Err <==> exists|i: int|
            0 <= i < models@.len() && (#[trigger] models@[i]).provider_id == id,
        r matches Err(e) ==> e@ == (DomainErrorView::ProviderHasModels {
            id,
            model_count: models@.filter(|m: ModelV1| m.provider_id == id).len() as u64,
        }),
{
    lemma_models_of(models@, id);
}

/// A body that says nothing changes nothing.
pub proof fn law_empty_change_changes_nothing(
    body: UpdateProviderRequestDto,
    request: Result<UpdateProviderRequestV1, CanonicalError>,
    before: ProviderV1,
    after: ProviderV1,
)
    requires
        call_ensures(<UpdateProviderRequestDto as Default>::default, (), body),
        call_ensures(update_provider_request, (body,), request),
        request matches Ok(change) ==> call_ensures(patch_provider, (before, change), after),
    ensures
        request is Ok,
        after == before,
{
}

/// Without a word on it, administration lists exactly the models whose life has not ended.
pub proof fn law_ended_models_hidden_by_default(
    asked: AdminModelsQuery,
    model: ModelV1,
    shown: bool,
)
    requires
        call_ensures(<AdminModelsQuery as Default>::default, (), asked),
        call_ensures(
            ListVisibility::admits,
            (
                &ListVisibility::Management { include_deprecated: asked.include_deprecated },
                &model,
            ),
            shown,
        ),
    ensures
        shown <==> !life_ended(model.lifecycle_status),
{
}

/// A change of status that a caller asks for is what the provider's row has after the
/// change that the service writes.
pub proof fn law_status_change_is_stored(
    service: Service,
    ctx: SecurityContext,
    id: Uuid,
    change: UpdateProviderRequestV1,
    steps: Seq<Step<UpdateProvider, ProviderV1>>,
    replies: Seq<Reply>,
    written: UpdateProviderRequestV1,
    before: ProviderV1,
    after: ProviderV1,
)
    requires
        call_ensures(Service::update_provider, (&service, &ctx, id, change), steps[0]),
        is_run(steps, replies),
        replies.len() >= 1,
        steps[1] matches Step::Ask { request: Request::UpdateProvider { request, .. }, .. }
            && request == written,
        call_ensures(patch_provider, (before, written), after),
    ensures
        change.status matches Some(status) ==> after.status == status,
        change.status is None ==> after.status == before.status,
        after.id == before.id,
        after.slug == before.slug,
{
    assert(steps[0] is Ask);
}

} // verus!
