//! What a store of providers and models is expected to do to its rows. A store calls
//! these functions to make, change, show and refuse rows as the registry relies on.
use vstd::prelude::*;
use vstd::string::*;
use crate::ids::Uuid;
use crate::text::{join3, same_text};
use crate::registry::error::{DomainError, DomainErrorView};
use crate::registry::evaluation::gate;
use crate::registry::inheritance::{kept, law_one_winner_per_slug, seen, wins, ChainProvider};
use crate::registry::listing::lists_usable;
use crate::registry::models::{
    ApprovalStatus, CreateModelRequestV1, CreateProviderRequestV1, LifecycleStatus, ModelInfoV1,
    ModelV1, ProviderV1, UpdateModelRequestV1, UpdateProviderRequestV1,
};
use crate::registry::query::ListVisibility;
use crate::registry::validate::{law_canonical_id_names_its_slug, slug_part, valid_slug};

verus! {

impl ListVisibility {
    /// Whether a listing shows `model`. For use, a model must be one of an allowed
    /// provider, in service and approved, whatever the query's filter says.
    pub open spec fn shows(self, model: ModelV1) -> bool {
        match self {
            ListVisibility::Eval { allow_list } => allow_list@.contains(model.provider_id)
                && !model.lifecycle_status.terminal() && model.approval_status is Approved,
            ListVisibility::Management { include_deprecated } => include_deprecated
                || !model.lifecycle_status.terminal(),
        }
    }

    /// Whether a listing shows `model`.
    pub fn admits(&self, model: &ModelV1) -> (r: bool)
        ensures
            r == self.shows(*model),
    {
        match self {
            ListVisibility::Eval { allow_list } => {
                let mut i: usize = 0;
                while i < allow_list.len()
                    invariant
                        i <= allow_list.len(),
                        self == (ListVisibility::Eval { allow_list: *allow_list }),
                        forall|j: int| 0 <= j < i ==> allow_list@[j] != model.provider_id,
                    decreases allow_list.len() - i,
                {
                    if allow_list[i] == model.provider_id {
                        assert(allow_list@.contains(model.provider_id));
                        return !model.lifecycle_status.is_terminal() && model.approval_status
                            == ApprovalStatus::Approved;
                    }
                    i += 1;
                }
                false
            },
            ListVisibility::Management { include_deprecated } => *include_deprecated
                || !model.lifecycle_status.is_terminal(),
        }
    }
}

/// The canonical id of a provider's model.
pub open spec fn canonical_id_of(slug: Seq<char>, provider_model_id: Seq<char>) -> Seq<char> {
    slug + "::"@ + provider_model_id
}

/// Whether `model` is the row for a request to register a model of `provider`. It
/// belongs to the provider's tenant, and waits for approval unless the request says
/// otherwise.
pub open spec fn is_new_model(
    model: ModelV1,
    id: Uuid,
    provider: ProviderV1,
    request: CreateModelRequestV1,
) -> bool {
    &&& model.id == id
    &&& model.tenant_id == provider.tenant_id
    &&& model.provider_id == provider.id
    &&& model.canonical_id@ == canonical_id_of(provider.slug@, request.info.provider_model_id@)
    &&& model.lifecycle_status == request.lifecycle_status
    &&& model.approval_status == (match request.approval_status {
        Some(status) => status,
        None => ApprovalStatus::Pending,
    })
    &&& model.info == request.info
}

/// The row for a request to register a model of `provider`.
pub fn new_model(id: Uuid, provider: &ProviderV1, request: CreateModelRequestV1) -> (r: ModelV1)
    ensures
        is_new_model(r, id, *provider, request),
{
    let canonical_id = join3(
        provider.slug.as_str(),
        "::",
        request.info.provider_model_id.as_str(),
    );
    ModelV1 {
        id,
        tenant_id: provider.tenant_id,
        provider_id: provider.id,
        canonical_id,
        lifecycle_status: request.lifecycle_status,
        approval_status: request.approval_status.unwrap_or(ApprovalStatus::Pending),
        info: request.info,
    }
}

/// A field after a change that may leave it alone.
pub open spec fn patched<T>(field: T, change: Option<T>) -> T {
    match change {
        Some(value) => value,
        None => field,
    }
}

fn patch<T>(field: T, change: Option<T>) -> (r: T)
    ensures
        r == patched(field, change),
{
    match change {
        Some(value) => value,
        None => field,
    }
}

/// A description after a change. Its type, the provider's own name of the model and
/// what no change can name stay as they are.
pub open spec fn patched_info(info: ModelInfoV1, change: UpdateModelRequestV1) -> ModelInfoV1 {
    ModelInfoV1 {
        display_name: patched(info.display_name, change.display_name),
        description: patched(info.description, change.description),
        family: patched(info.family, change.family),
        vendor: patched(info.vendor, change.vendor),
        managed: patched(info.managed, change.managed),
        architecture: patched(info.architecture, change.architecture),
        size_bytes: patched(info.size_bytes, change.size_bytes),
        format: patched(info.format, change.format),
        region: patched(info.region, change.region),
        hosted_by: patched(info.hosted_by, change.hosted_by),
        reasoning_level: patched(info.reasoning_level, change.reasoning_level),
        version: patched(info.version, change.version),
        sort_order: patched(info.sort_order, change.sort_order),
        icon: patched(info.icon, change.icon),
        multiplier_display: patched(info.multiplier_display, change.multiplier_display),
        performance: patched(info.performance, change.performance),
        capabilities: patched(info.capabilities, change.capabilities),
        disabled_capabilities: patched(info.disabled_capabilities, change.disabled_capabilities),
        context_window: patched(info.context_window, change.context_window),
        default_parameters: patched(info.default_parameters, change.default_parameters),
        allow_parameter_override: patched(
            info.allow_parameter_override,
            change.allow_parameter_override,
        ),
        allow_extra_params: patched(info.allow_extra_params, change.allow_extra_params),
        provider_settings: patched(info.provider_settings, change.provider_settings),
        ..info
    }
}

/// A model after a change.
pub open spec fn patched_model(model: ModelV1, change: UpdateModelRequestV1) -> ModelV1 {
    ModelV1 {
        approval_status: patched(model.approval_status, change.approval_status),
        lifecycle_status: patched(model.lifecycle_status, change.lifecycle_status),
        info: patched_info(model.info, change),
        ..model
    }
}

/// A model after a change: the fields that the change names are set, all others stay.
pub fn patch_model(model: ModelV1, change: UpdateModelRequestV1) -> (r: ModelV1)
    ensures
        r == patched_model(model, change),
{
    let info = model.info;
    ModelV1 {
        id: model.id,
        tenant_id: model.tenant_id,
        provider_id: model.provider_id,
        canonical_id: model.canonical_id,
        approval_status: patch(model.approval_status, change.approval_status),
        lifecycle_status: patch(model.lifecycle_status, change.lifecycle_status),
        info: ModelInfoV1 {
            gts_type: info.gts_type,
            display_name: patch(info.display_name, change.display_name),
            description: patch(info.description, change.description),
            family: patch(info.family, change.family),
            vendor: patch(info.vendor, change.vendor),
            managed: patch(info.managed, change.managed),
            architecture: patch(info.architecture, change.architecture),
            size_bytes: patch(info.size_bytes, change.size_bytes),
            format: patch(info.format, change.format),
            region: patch(info.region, change.region),
            hosted_by: patch(info.hosted_by, change.hosted_by),
            last_release_at: info.last_release_at,
            reasoning_level: patch(info.reasoning_level, change.reasoning_level),
            version: patch(info.version, change.version),
            sort_order: patch(info.sort_order, change.sort_order),
            icon: patch(info.icon, change.icon),
            multiplier_display: patch(info.multiplier_display, change.multiplier_display),
            performance: patch(info.performance, change.performance),
            additional_info: info.additional_info,
            supported_api: info.supported_api,
            provider_model_id: info.provider_model_id,
            capabilities: patch(info.capabilities, change.capabilities),
            disabled_capabilities: patch(info.disabled_capabilities, change.disabled_capabilities),
            context_window: patch(info.context_window, change.context_window),
            default_parameters: patch(info.default_parameters, change.default_parameters),
            allow_parameter_override: patch(
                info.allow_parameter_override,
                change.allow_parameter_override,
            ),
            allow_extra_params: patch(info.allow_extra_params, change.allow_extra_params),
            provider_settings: patch(info.provider_settings, change.provider_settings),
        },
    }
}

/// A model after it was taken out of service: the row stays, as a deprecated model.
pub open spec fn retired(model: ModelV1) -> ModelV1 {
    ModelV1 { lifecycle_status: LifecycleStatus::Deprecated, ..model }
}

/// Takes a model out of service.
pub fn retire_model(model: ModelV1) -> (r: ModelV1)
    ensures
        r == retired(model),
{
    ModelV1 { lifecycle_status: LifecycleStatus::Deprecated, ..model }
}

/// A provider after a change. Its slug stays as it is.
pub open spec fn patched_provider(
    provider: ProviderV1,
    change: UpdateProviderRequestV1,
) -> ProviderV1 {
    ProviderV1 {
        name: patched(provider.name, change.name),
        status: patched(provider.status, change.status),
        managed: patched(provider.managed, change.managed),
        metadata: patched(provider.metadata, change.metadata),
        discovery_enabled: patched(provider.discovery_enabled, change.discovery_enabled),
        discovery_interval_seconds: patched(
            provider.discovery_interval_seconds,
            change.discovery_interval_seconds,
        ),
        ..provider
    }
}

/// A provider after a change: the fields that the change names are set, all others
/// stay.
pub fn patch_provider(provider: ProviderV1, change: UpdateProviderRequestV1) -> (r: ProviderV1)
    ensures
        r == patched_provider(provider, change),
{
    ProviderV1 {
        id: provider.id,
        tenant_id: provider.tenant_id,
        slug: provider.slug,
        name: patch(provider.name, change.name),
        gts_type: provider.gts_type,
        status: patch(provider.status, change.status),
        managed: patch(provider.managed, change.managed),
        metadata: patch(provider.metadata, change.metadata),
        discovery_enabled: patch(provider.discovery_enabled, change.discovery_enabled),
        discovery_interval_seconds: patch(
            provider.discovery_interval_seconds,
            change.discovery_interval_seconds,
        ),
        created_at: provider.created_at,
        updated_at: provider.updated_at,
    }
}

/// Checks that the tenant does not own the slug yet. Other tenants may.
pub fn check_slug_is_free(
    rows: &Vec<ProviderV1>,
    tenant_id: Uuid,
    request: &CreateProviderRequestV1,
) -> (r: Result<(), DomainError>)
    ensures
        match r {
            Ok(_) => forall|i: int|
                0 <= i < rows@.len() ==> !((#[trigger] rows@[i]).tenant_id == tenant_id
                    && rows@[i].slug@ == request@.slug),
            Err(e) => (exists|i: int|
                0 <= i < rows@.len() && (#[trigger] rows@[i]).tenant_id == tenant_id
                    && rows@[i].slug@ == request@.slug) && e@ == (DomainErrorView::ProviderConflict {
                slug: request@.slug,
            }),
        },
{
    let mut i: usize = 0;
    while i < rows.len()
        invariant
            i <= rows.len(),
            forall|j: int|
                0 <= j < i ==> !((#[trigger] rows@[j]).tenant_id == tenant_id && rows@[j].slug@
                    == request@.slug),
        decreases rows.len() - i,
    {
        if rows[i].tenant_id == tenant_id && same_text(rows[i].slug.as_str(), request.slug()) {
            assert(rows@[i as int].tenant_id == tenant_id);
            return Err(DomainError::provider_conflict(request.slug()));
        }
        i += 1;
    }
    Ok(())
}

/// Checks that a provider has no models, so that it can be removed. Models out of
/// service count too.
pub fn check_provider_is_unused(id: Uuid, models: &Vec<ModelV1>) -> (r: Result<(), DomainError>)
    ensures
        match r {
            Ok(_) => models_of(models@, id) == 0,
            Err(e) => models_of(models@, id) > 0 && e@ == (DomainErrorView::ProviderHasModels {
                id,
                model_count: models_of(models@, id) as u64,
            }),
        },
{
    let mut count: usize = 0;
    let mut i: usize = 0;
    while i < models.len()
        invariant
            i <= models.len(),
            count <= i,
            count == models_of(models@.subrange(0, i as int), id),
        decreases models.len() - i,
    {
        let ghost after = models@.subrange(0, i + 1);
        assert(after.drop_last() =~= models@.subrange(0, i as int));
        assert(after.last() == models@[i as int]);
        if models[i].provider_id == id {
            count += 1;
        }
        i += 1;
    }
    assert(models@.subrange(0, i as int) =~= models@);
    if count > 0 {
        return Err(DomainError::provider_has_models(id, count as u64));
    }
    Ok(())
}

/// How many of the models belong to the provider.
pub open spec fn models_of(models: Seq<ModelV1>, provider: Uuid) -> nat
    decreases models.len(),
{
    if models.len() == 0 {
        0
    } else {
        models_of(models.drop_last(), provider) + if models.last().provider_id == provider {
            1nat
        } else {
            0nat
        }
    }
}

/// No change touches what a model is known by: its identifier, owner, provider and
/// canonical id, the provider's own name for it, and the type of its description.
pub proof fn law_identity_is_immutable(model: ModelV1, change: UpdateModelRequestV1)
    ensures
        ({
            let after = patched_model(model, change);
            &&& after.id == model.id
            &&& after.tenant_id == model.tenant_id
            &&& after.provider_id == model.provider_id
            &&& after.canonical_id == model.canonical_id
            &&& after.info.provider_model_id == model.info.provider_model_id
            &&& after.info.gts_type == model.info.gts_type
        }),
{
}

/// No change touches a provider's identifier, owner and slug.
pub proof fn law_slug_is_immutable(provider: ProviderV1, change: UpdateProviderRequestV1)
    ensures
        patched_provider(provider, change).id == provider.id,
        patched_provider(provider, change).tenant_id == provider.tenant_id,
        patched_provider(provider, change).slug == provider.slug,
{
}

/// A model taken out of service is hidden from every listing that does not ask for
/// such models, and refused to every read for use. Nothing else of it changes.
pub proof fn law_retired_is_hidden(
    model: ModelV1,
    visibility: ListVisibility,
    canonical_id: Seq<char>,
    winner: ChainProvider,
)
    ensures
        visibility.shows(retired(model)) ==> visibility == (ListVisibility::Management {
            include_deprecated: true,
        }),
        gate(canonical_id, winner, retired(model)) is Some,
        retired(model).id == model.id && retired(model).info == model.info,
{
}

/// What was registered is found again: the canonical id of a new model leads to its
/// provider's slug, and a read under that provider, while it is active, yields the
/// model exactly where the model is in service and approved.
pub proof fn law_new_model_is_found(
    model: ModelV1,
    id: Uuid,
    provider: ProviderV1,
    request: CreateModelRequestV1,
    winner: ChainProvider,
)
    requires
        is_new_model(model, id, provider, request),
        valid_slug(provider.slug@),
        winner.id == provider.id,
        winner.status is Active,
    ensures
        slug_part(model.canonical_id@) == Some(provider.slug@),
        gate(model.canonical_id@, winner, model) is None <==> (!request.lifecycle_status.terminal()
            && request.approval_status == Some(ApprovalStatus::Approved)),
{
    law_canonical_id_names_its_slug(provider.slug@, request.info.provider_model_id@);
}

/// Every model that the listing for use shows can be read, under the provider that
/// won its slug.
pub proof fn law_listed_can_be_read(
    canonical_id: Seq<char>,
    chain: Seq<Uuid>,
    rows: Seq<ProviderV1>,
    allow_list: Vec<Uuid>,
    model: ModelV1,
) -> (i: int)
    requires
        lists_usable(chain, rows, allow_list@),
        (ListVisibility::Eval { allow_list }).shows(model),
    ensures
        kept(chain, rows, i),
        wins(chain, rows, i),
        rows[i].id == model.provider_id,
        gate(canonical_id, seen(chain, rows, i), model) is None,
{
    assert(allow_list@.contains(model.provider_id));
    choose|i: int|
        #[trigger] kept(chain, rows, i) && wins(chain, rows, i) && rows[i].id
            == model.provider_id && rows[i].status is Active
}

/// Whether a model agrees with the row of its provider: it belongs to the provider's
/// tenant, and its canonical id begins with the provider's slug.
pub open spec fn agrees_with_provider(model: ModelV1, rows: Seq<ProviderV1>) -> bool {
    forall|k: int|
        0 <= k < rows.len() && (#[trigger] rows[k]).id == model.provider_id ==> model.tenant_id
            == rows[k].tenant_id && slug_part(model.canonical_id@) == Some(rows[k].slug@)
}

/// No model is listed twice for use: where no tenant has a canonical id twice and
/// models agree with their providers, two models that are shown under the same
/// canonical id are one row, though the listing spans a whole chain.
pub proof fn law_no_model_is_listed_twice(
    chain: Seq<Uuid>,
    rows: Seq<ProviderV1>,
    allow_list: Vec<Uuid>,
    models: Seq<ModelV1>,
    i: int,
    j: int,
)
    requires
        lists_usable(chain, rows, allow_list@),
        forall|a: int, b: int|
            0 <= a < models.len() && 0 <= b < models.len() && (#[trigger] models[a]).tenant_id == (
            #[trigger] models[b]).tenant_id && models[a].canonical_id@ == models[b].canonical_id@
                ==> a == b,
        0 <= i < models.len(),
        0 <= j < models.len(),
        agrees_with_provider(models[i], rows),
        agrees_with_provider(models[j], rows),
        (ListVisibility::Eval { allow_list }).shows(models[i]),
        (ListVisibility::Eval { allow_list }).shows(models[j]),
        models[i].canonical_id@ == models[j].canonical_id@,
    ensures
        i == j,
{
    let p = law_listed_can_be_read(models[i].canonical_id@, chain, rows, allow_list, models[i]);
    let q = law_listed_can_be_read(models[j].canonical_id@, chain, rows, allow_list, models[j]);
    assert(rows[p].id == models[i].provider_id && rows[q].id == models[j].provider_id);
    law_one_winner_per_slug(chain, rows, p, q);
}

} // verus!
