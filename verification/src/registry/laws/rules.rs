//! The rules of requests, the configuration, and what callers inside the process get.
use vstd::prelude::*;
use crate::registry::cache::{choose_cache, CacheChoice};
use crate::registry::config::{
    ConfigKeys, LimitCfg, ModelRegistryConfig, PageLimits,
};
use crate::registry::error::{DomainError, DomainErrorView};
use crate::registry::laws::lists::{largest_page, page_for, usual_page};
use crate::registry::laws::reads::{id_begins_with, lemma_separator, without_separator};
use crate::registry::laws::single::lemma_slug_rule;
use crate::registry::laws::writes::life_ended;
use crate::registry::laws::{fails_with, interval_rule, name_rule, slug_rule};
use crate::registry::model_writes::{check_creation, check_update};
use crate::registry::models::{
    CreateProviderRequestV1, LifecycleStatus, ProviderV1, UpdateModelRequestV1,
    UpdateProviderRequestV1,
};
use crate::registry::operation::Step;
use crate::registry::query::ODataQuery;
use crate::registry::security::SecurityContext;
use crate::registry::service::Service;
use crate::registry::single_call::{CreateProvider, UpdateProvider};
use crate::registry::validate::{
    reject_select, slug_of, validate_discovery_interval, validate_lifecycle_transition,
    validate_name, validate_slug,
};

verus! {

/// What is told of a slug that breaks its rule.
pub open spec fn slug_complaint(slug: Seq<char>) -> Seq<char> {
    if slug.len() == 0 {
        "provider slug cannot be empty"@
    } else if slug.len() > 64 {
        "provider slug must be at most 64 characters"@
    } else {
        "provider slug must be lowercase alphanumeric with hyphens"@
    }
}

/// What is told of a name that breaks its rule.
pub open spec fn name_complaint(name: Seq<char>) -> Seq<char> {
    if name.len() == 0 {
        "provider name cannot be empty"@
    } else {
        "provider name must be at most 255 characters"@
    }
}

/// Whether the error tells of a broken rule, with the given text.
pub open spec fn complains(e: DomainError, message: Seq<char>) -> bool {
    e@ == (DomainErrorView::Validation { message })
}

/// Whether the error tells of an interval that is too long, and which.
pub open spec fn complains_of_interval(e: DomainError) -> bool {
    let told = "discovery_interval_seconds must not exceed 2147483647 (i32::MAX), got "@;
    &&& e@ matches DomainErrorView::Validation { message }
    &&& message.len() > told.len()
    &&& message.subrange(0, told.len() as int) == told
}

/// Slugs are taken exactly where they keep their rule.
pub proof fn law_slugs_taken(slug: &str, r: Result<(), DomainError>)
    requires
        call_ensures(validate_slug, (slug,), r),
    ensures
        r is Ok <==> slug_rule(slug@),
        r matches Err(e) ==> complains(e, slug_complaint(slug@)),
{
    lemma_slug_rule(slug@);
}

/// Names are taken exactly where they keep their rule.
pub proof fn law_names_taken(name: &str, r: Result<(), DomainError>)
    requires
        call_ensures(validate_name, (name,), r),
    ensures
        r is Ok <==> name_rule(name@),
        r matches Err(e) ==> complains(e, name_complaint(name@)),
{
}

/// Intervals are taken exactly where they keep their rule.
pub proof fn law_intervals_taken(interval: Option<u32>, r: Result<(), DomainError>)
    requires
        call_ensures(validate_discovery_interval, (interval,), r),
    ensures
        r is Ok <==> interval_rule(interval),
        r matches Err(e) ==> complains_of_interval(e),
{
    if r is Err {
        let told = "discovery_interval_seconds must not exceed 2147483647 (i32::MAX), got "@;
        let n = interval->0 as nat;
        let message = told + crate::text::decimal_of(n);
        crate::text::lemma_decimal_is_text(n);
        assert(message.subrange(0, told.len() as int) =~= told);
    }
}

/// How a lifecycle status is called in what is told.
pub open spec fn status_name(status: LifecycleStatus) -> Seq<char> {
    if status is Production {
        "Production"@
    } else if status is Preview {
        "Preview"@
    } else if status is Experimental {
        "Experimental"@
    } else if status is Deprecated {
        "Deprecated"@
    } else {
        "Sunset"@
    }
}

/// A change of lifecycle is refused exactly out of an ended life, whatever it leads to.
pub proof fn law_lives_end_once(
    from: LifecycleStatus,
    to: LifecycleStatus,
    r: Result<(), DomainError>,
)
    requires
        call_ensures(validate_lifecycle_transition, (from, to), r),
    ensures
        r is Err <==> life_ended(from),
        r matches Err(e) ==> e@ == (DomainErrorView::InvalidTransition {
            detail: "cannot transition from terminal status "@ + status_name(from) + " to "@
                + status_name(to),
        }),
{
}

/// A model may begin with every status but those of an ended life.
pub proof fn law_lives_begin(status: LifecycleStatus, r: Result<(), DomainError>)
    requires
        call_ensures(check_creation, (status,), r),
    ensures
        r is Err <==> life_ended(status),
        r matches Err(e) ==> complains(
            e,
            "cannot create a model with terminal lifecycle status `"@ + status_name(status) + "`"@,
        ),
{
}

/// A change is refused exactly where a life has ended and the change names the lifecycle
/// or the approval.
pub proof fn law_changes_of_the_ended(
    status: LifecycleStatus,
    request: UpdateModelRequestV1,
    r: Result<(), DomainError>,
)
    requires
        call_ensures(check_update, (status, &request), r),
    ensures
        r is Err <==> life_ended(status) && (request.lifecycle_status is Some
            || request.approval_status is Some),
        r matches Err(e) ==> e@ == (DomainErrorView::InvalidTransition {
            detail: match request.lifecycle_status {
                Some(to) => "cannot transition from terminal status "@ + status_name(status)
                    + " to "@ + status_name(to),
                None => "cannot modify approval status on a deprecated or sunset model"@,
            },
        }),
{
}

/// Exactly a projection is refused.
pub proof fn law_projections_refused(query: ODataQuery, r: Result<(), DomainError>)
    requires
        call_ensures(reject_select, (&query,), r),
    ensures
        r is Err <==> query.select is Some,
        r matches Err(e) ==> complains(
            e,
            "$select is not supported by this endpoint; responses always carry every field"@,
        ),
{
}

/// The slug of an id is what stands before its first two colons in a row; an id without
/// any names no slug.
pub proof fn law_slug_of_an_id(id: &str, r: Option<String>)
    requires
        call_ensures(slug_of, (id,), r),
    ensures
        r matches Some(slug) ==> id_begins_with(id@, slug@),
        r is None <==> without_separator(id@),
{
    lemma_separator(id@);
}

/// Of a provider that breaks several rules, the first is told: of its slug, its name and
/// its interval.
pub proof fn law_creation_tells_the_first_broken_rule(
    service: Service,
    ctx: SecurityContext,
    request: CreateProviderRequestV1,
    step: Step<CreateProvider, ProviderV1>,
)
    requires
        call_ensures(Service::create_provider, (&service, &ctx, request), step),
    ensures
        !slug_rule(request@.slug) ==> fails_with(
            step,
            DomainErrorView::Validation { message: slug_complaint(request@.slug) },
        ),
        slug_rule(request@.slug) && !name_rule(request@.name) ==> fails_with(
            step,
            DomainErrorView::Validation { message: name_complaint(request@.name) },
        ),
        slug_rule(request@.slug) && name_rule(request@.name) && !interval_rule(
            request@.discovery_interval_seconds,
        ) ==> (step matches Step::Done { result: Err(e) } && complains_of_interval(e)),
{
    lemma_slug_rule(request@.slug);
    let told = "discovery_interval_seconds must not exceed 2147483647 (i32::MAX), got "@;
    let n = request@.discovery_interval_seconds->0 as nat;
    let message = told + crate::text::decimal_of(n);
    crate::text::lemma_decimal_is_text(n);
    assert(message.subrange(0, told.len() as int) =~= told);
}

/// The interval that a change sets, where it sets one.
pub open spec fn interval_set(request: UpdateProviderRequestV1) -> Option<u32> {
    match request.discovery_interval_seconds {
        Some(Some(v)) => Some(v),
        _ => None,
    }
}

/// Of a change that breaks several rules, the first is told: of the name and the
/// interval. What a change leaves alone or clears breaks none.
pub proof fn law_change_tells_the_first_broken_rule(
    service: Service,
    ctx: SecurityContext,
    id: crate::ids::Uuid,
    request: UpdateProviderRequestV1,
    step: Step<UpdateProvider, ProviderV1>,
)
    requires
        call_ensures(Service::update_provider, (&service, &ctx, id, request), step),
    ensures
        request.name matches Some(name) ==> !name_rule(name@) ==> fails_with(
            step,
            DomainErrorView::Validation { message: name_complaint(name@) },
        ),
        (request.name matches Some(name) ==> name_rule(name@)) && !interval_rule(
            interval_set(request),
        ) ==> (step matches Step::Done { result: Err(e) } && complains_of_interval(e)),
        (request.name matches Some(name) ==> name_rule(name@)) && interval_rule(
            interval_set(request),
        ) ==> step is Ask,
{
    let told = "discovery_interval_seconds must not exceed 2147483647 (i32::MAX), got "@;
    let n = interval_set(request)->0 as nat;
    let message = told + crate::text::decimal_of(n);
    crate::text::lemma_decimal_is_text(n);
    assert(message.subrange(0, told.len() as int) =~= told);
}

/// Pages are as large as asked for, as far as the configuration allows, and hold at
/// least one row. The storage layer gets the same bounds.
pub proof fn law_page_sizes(
    config: ModelRegistryConfig,
    limits: PageLimits,
    asked: Option<u64>,
    limit: u64,
    cfg: LimitCfg,
)
    requires
        call_ensures(ModelRegistryConfig::page_limits, (&config,), limits),
        call_ensures(PageLimits::clamp, (limits, asked), limit),
        call_ensures(PageLimits::limit_cfg, (limits,), cfg),
    ensures
        limit == page_for(config, asked),
        cfg.default == usual_page(config),
        cfg.max == largest_page(config),
{
}

/// Every key that is written down is taken as it is; the others have their defaults.
pub proof fn law_keys_taken(keys: ConfigKeys, config: ModelRegistryConfig)
    requires
        call_ensures(ModelRegistryConfig::from_keys, (keys,), config),
    ensures
        keys.chain_cache_ttl_seconds matches Some(v) ==> config.chain_cache_ttl_seconds == v,
        keys.chain_cache_ttl_seconds is None ==> config.chain_cache_ttl_seconds == 30,
        keys.cache_enabled matches Some(v) ==> config.cache_enabled == v,
        keys.cache_enabled is None ==> config.cache_enabled,
        keys.default_page_size matches Some(v) ==> config.default_page_size == v,
        keys.default_page_size is None ==> config.default_page_size == 20,
        keys.max_page_size matches Some(v) ==> config.max_page_size == v,
        keys.max_page_size is None ==> config.max_page_size == 100,
{
}

/// A configuration without any key is the default one.
pub proof fn law_no_keys_is_default(
    keys: ConfigKeys,
    read: ModelRegistryConfig,
    default: ModelRegistryConfig,
)
    requires
        keys.chain_cache_ttl_seconds is None,
        keys.cache_enabled is None,
        keys.default_page_size is None,
        keys.max_page_size is None,
        call_ensures(ModelRegistryConfig::from_keys, (keys,), read),
        call_ensures(<ModelRegistryConfig as Default>::default, (), default),
    ensures
        read == default,
{
}

/// Chains are cached exactly where that is switched on and there is a cache, and for as
/// long as configured.
pub proof fn law_cache_chosen(config: ModelRegistryConfig, shared_is_bound: bool, r: CacheChoice)
    requires
        call_ensures(choose_cache, (&config, shared_is_bound), r),
    ensures
        r is Shared <==> config.cache_enabled && shared_is_bound,
        r matches CacheChoice::Shared { ttl_seconds } ==> ttl_seconds
            == config.chain_cache_ttl_seconds,
{
}

/// A clause set on a query leaves all others as they were.
pub proof fn law_query_clauses(
    before: ODataQuery,
    fields: Vec<String>,
    limit: u64,
    text: String,
    selected: ODataQuery,
    limited: ODataQuery,
    hashed: ODataQuery,
    filtered: ODataQuery,
)
    requires
        call_ensures(ODataQuery::with_select, (before, fields), selected),
        call_ensures(ODataQuery::with_limit, (before, limit), limited),
        call_ensures(ODataQuery::with_filter_hash, (before, text), hashed),
        call_ensures(ODataQuery::with_filter, (before, text), filtered),
    ensures
        selected.select == Some(fields),
        selected.filter == before.filter,
        selected.filter_hash == before.filter_hash,
        selected.order == before.order,
        selected.limit == before.limit,
        selected.cursor == before.cursor,
        limited.limit == Some(limit),
        limited.filter == before.filter,
        limited.filter_hash == before.filter_hash,
        limited.order == before.order,
        limited.cursor == before.cursor,
        limited.select == before.select,
        hashed.filter_hash == Some(text),
        hashed.filter == before.filter,
        hashed.order == before.order,
        hashed.limit == before.limit,
        hashed.cursor == before.cursor,
        hashed.select == before.select,
        filtered.filter == Some(text),
        filtered.filter_hash == before.filter_hash,
        filtered.order == before.order,
        filtered.limit == before.limit,
        filtered.cursor == before.cursor,
        filtered.select == before.select,
{
}

} // verus!
