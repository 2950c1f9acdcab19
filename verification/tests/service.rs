use std::collections::HashMap;

use gears::ids::{Timestamp, Uuid};
use gears::registry::config::ModelRegistryConfig;
use gears::registry::error::{DomainError, EnforcerError};
use gears::registry::models::{
    ApprovalStatus, CreateModelBySlug, CreateModelRequestV1, CreateProviderRequestV1,
    LifecycleStatus, ModelInfoV1,
    ModelManagementV1, ModelV1, ProviderStatus, ProviderV1, SupportedApi, UpdateModelRequestV1,
    UpdateProviderRequestV1,
};
use gears::registry::odata::builder::QueryBuilder;
use gears::registry::odata::models::MODEL_APPROVAL_STATUS;
use gears::registry::operation::{Action, Operation, Reply, Request, ResourceType, Step};
use gears::registry::query::{ListVisibility, ODataQuery, OrderKey, Page, PageInfo};
use gears::registry::rows::{
    check_provider_is_unused, check_slug_is_free, new_model, patch_model, patch_provider,
    retire_model,
};
use gears::registry::security::{
    AccessScope, ScopeConstraint, ScopeFilter, ScopeValue, SecurityContext, OWNER_TENANT_ID,
    RESOURCE_ID,
};
use gears::registry::service::Service;

// Storage, directory, cache and decisions, in memory.
#[derive(Default)]
struct World {
    providers: Vec<ProviderV1>,
    models: Vec<ModelV1>,
    ancestors: HashMap<u128, Vec<Uuid>>,
    cache: HashMap<u128, Vec<Uuid>>,
    cache_gets: usize,
    cache_puts: usize,
    directory_calls: usize,
    provider_queries: usize,
    model_queries: usize,
    decisions: Vec<(ResourceType, Action, Option<Uuid>)>,
    granted: Option<AccessScope>,
    denied: bool,
    failing_providers: Option<&'static str>,
    database_down: bool,
    failing_models: Option<&'static str>,
    next_id: u128,
}

fn value_holds(filter: &ScopeFilter, tenant: Uuid, id: Uuid) -> bool {
    let value = if filter.property == OWNER_TENANT_ID {
        tenant
    } else if filter.property == RESOURCE_ID {
        id
    } else {
        return false;
    };
    filter.values.contains(&ScopeValue::Uuid(value))
}

fn admits(scope: &AccessScope, tenant: Uuid, id: Uuid) -> bool {
    scope.is_unconstrained()
        || scope
            .constraints()
            .iter()
            .any(|c| c.filters().iter().all(|f| value_holds(f, tenant, id)))
}

impl World {
    fn fresh(&mut self) -> Uuid {
        self.next_id += 1;
        Uuid::from_u128(0xaaaa_0000 + self.next_id)
    }

    fn provider_failure(&mut self) -> Option<DomainError> {
        self.provider_queries += 1;
        if self.database_down {
            return Some(DomainError::Database("pool closed".to_owned()));
        }
        self.failing_providers.map(DomainError::internal)
    }

    fn list_models(
        &mut self,
        scope: &AccessScope,
        query: &ODataQuery,
        visibility: &ListVisibility,
        limits: u64,
    ) -> Page<ModelV1> {
        let mut rows: Vec<ModelV1> = self
            .models
            .iter()
            .filter(|m| admits(scope, m.tenant_id, m.id))
            .filter(|m| visibility.admits(m))
            .filter(|m| match query.filter.as_deref() {
                Some(text) => {
                    text == format!("approval_status eq '{}'", m.approval_status.as_str())
                }
                None => true,
            })
            .cloned()
            .collect();
        rows.sort_by(|a, b| a.canonical_id.cmp(&b.canonical_id));
        if query.order.first().map(|k| k.descending).unwrap_or(false) {
            rows.reverse();
        }
        let start: usize = query.cursor.as_deref().map(|c| c.parse().unwrap()).unwrap_or(0);
        let end = rows.len().min(start + limits as usize);
        let next = if end < rows.len() { Some(end.to_string()) } else { None };
        Page {
            items: rows[start..end].to_vec(),
            page_info: PageInfo { next_cursor: next, prev_cursor: None, limit: limits },
        }
    }

    fn perform(&mut self, config: &ModelRegistryConfig, request: Request) -> Reply {
        match request {
            Request::Authorize { ctx, resource, action, resource_id } => {
                self.decisions.push((resource, action, resource_id));
                if self.denied {
                    return Reply::Scope(Err(EnforcerError::Denied { deny_reason: None }));
                }
                let own = AccessScope::single(ScopeConstraint::new(vec![ScopeFilter::eq(
                    OWNER_TENANT_ID,
                    ctx.subject_tenant_id,
                )]));
                Reply::Scope(Ok(self.granted.clone().unwrap_or(own)))
            }
            Request::CachedChain { tenant_id } => {
                self.cache_gets += 1;
                Reply::CachedChain(self.cache.get(&tenant_id.as_u128()).cloned())
            }
            Request::Ancestors { tenant_id, .. } => {
                self.directory_calls += 1;
                Reply::Ancestors(Ok(self
                    .ancestors
                    .get(&tenant_id.as_u128())
                    .cloned()
                    .unwrap_or_default()))
            }
            Request::StoreChain { tenant_id, ancestor_ids } => {
                self.cache_puts += 1;
                self.cache.insert(tenant_id.as_u128(), ancestor_ids);
                Reply::Stored
            }
            Request::FindProvider { scope, id } => Reply::Provider(
                self.providers
                    .iter()
                    .find(|p| p.id == id && admits(&scope, p.tenant_id, p.id))
                    .cloned()
                    .ok_or(DomainError::provider_not_found(id)),
            ),
            Request::FindProvidersBySlug { scope, slug } => {
                if let Some(e) = self.provider_failure() {
                    return Reply::Providers(Err(e));
                }
                Reply::Providers(Ok(self
                    .providers
                    .iter()
                    .filter(|p| p.slug == slug && admits(&scope, p.tenant_id, p.id))
                    .cloned()
                    .collect()))
            }
            Request::ListProvidersOfTenants { scope } => {
                if let Some(e) = self.provider_failure() {
                    return Reply::Providers(Err(e));
                }
                Reply::Providers(Ok(self
                    .providers
                    .iter()
                    .filter(|p| admits(&scope, p.tenant_id, p.id))
                    .cloned()
                    .collect()))
            }
            Request::FindProvidersByIds { scope, ids } => {
                self.provider_queries += 1;
                assert!(ids.windows(2).all(|w| w[0].as_u128() < w[1].as_u128()));
                Reply::Providers(Ok(self
                    .providers
                    .iter()
                    .filter(|p| ids.contains(&p.id) && admits(&scope, p.tenant_id, p.id))
                    .cloned()
                    .collect()))
            }
            Request::ListProviders { scope, query } => {
                self.provider_queries += 1;
                let items: Vec<ProviderV1> = self
                    .providers
                    .iter()
                    .filter(|p| admits(&scope, p.tenant_id, p.id))
                    .cloned()
                    .collect();
                Reply::ProviderPage(Ok(Page {
                    items,
                    page_info: PageInfo {
                        next_cursor: None,
                        prev_cursor: None,
                        limit: config.page_limits().clamp(query.limit),
                    },
                }))
            }
            Request::CreateProvider { scope, tenant_id, request } => {
                let id = self.fresh();
                if !admits(&scope, tenant_id, id) {
                    return Reply::Provider(Err(DomainError::forbidden("out of scope")));
                }
                if let Err(e) = check_slug_is_free(&self.providers, tenant_id, &request) {
                    return Reply::Provider(Err(e));
                }
                let mut row = provider(id, tenant_id, request.slug());
                row.name = request.name().to_owned();
                row.discovery_interval_seconds = request.discovery_interval_seconds();
                self.providers.push(row.clone());
                Reply::Provider(Ok(row))
            }
            Request::UpdateProvider { scope, id, request } => {
                let found = self
                    .providers
                    .iter_mut()
                    .find(|p| p.id == id && admits(&scope, p.tenant_id, p.id));
                Reply::Provider(match found {
                    Some(row) => {
                        *row = patch_provider(row.clone(), request);
                        Ok(row.clone())
                    }
                    None => Err(DomainError::provider_not_found(id)),
                })
            }
            Request::DeleteProvider { scope, id } => {
                if let Err(e) = check_provider_is_unused(id, &self.models) {
                    return Reply::Deleted(Err(e));
                }
                let before = self.providers.len();
                self.providers.retain(|p| !(p.id == id && admits(&scope, p.tenant_id, p.id)));
                Reply::Deleted(if self.providers.len() < before {
                    Ok(())
                } else {
                    Err(DomainError::provider_not_found(id))
                })
            }
            Request::FindModel { scope, id } => Reply::Model(
                self.models
                    .iter()
                    .find(|m| m.id == id && admits(&scope, m.tenant_id, m.id))
                    .cloned()
                    .ok_or(DomainError::model_not_found_by_id(id)),
            ),
            Request::FindModelByCanonical { scope, canonical_id } => {
                self.model_queries += 1;
                Reply::Model(
                    self.models
                        .iter()
                        .find(|m| {
                            m.canonical_id == canonical_id && admits(&scope, m.tenant_id, m.id)
                        })
                        .cloned()
                        .ok_or(DomainError::model_not_found("some other text")),
                )
            }
            Request::ListModels { scope, query, visibility } => {
                self.model_queries += 1;
                if let Some(e) = self.failing_models {
                    return Reply::ModelPage(Err(DomainError::internal(e)));
                }
                let limit = config.page_limits().clamp(query.limit);
                Reply::ModelPage(Ok(self.list_models(&scope, &query, &visibility, limit)))
            }
            Request::CreateModel { scope, tenant_id, provider, request } => {
                let id = self.fresh();
                if !admits(&scope, tenant_id, id) {
                    return Reply::Model(Err(DomainError::forbidden("out of scope")));
                }
                let row = new_model(id, &provider, request);
                self.models.push(row.clone());
                Reply::Model(Ok(row))
            }
            Request::UpdateModel { scope, id, request } => {
                let found = self
                    .models
                    .iter_mut()
                    .find(|m| m.id == id && admits(&scope, m.tenant_id, m.id));
                Reply::Model(match found {
                    Some(row) => {
                        *row = patch_model(row.clone(), request);
                        Ok(row.clone())
                    }
                    None => Err(DomainError::model_not_found_by_id(id)),
                })
            }
            Request::DeleteModel { scope, id } => {
                let found = self
                    .models
                    .iter_mut()
                    .find(|m| m.id == id && admits(&scope, m.tenant_id, m.id));
                Reply::Deleted(match found {
                    Some(row) => {
                        *row = retire_model(row.clone());
                        Ok(())
                    }
                    None => Err(DomainError::model_not_found_by_id(id)),
                })
            }
        }
    }

    fn run<O: Operation>(&mut self, first: Step<O, O::Output>) -> Result<O::Output, DomainError> {
        let config = ModelRegistryConfig::default();
        let mut step = first;
        loop {
            match step {
                Step::Ask { state, request } => {
                    let reply = self.perform(&config, request);
                    step = state.resume(reply);
                }
                Step::Done { result } => return result,
            }
        }
    }

    fn add_provider(&mut self, tenant: Uuid, slug: &str) -> Uuid {
        let id = self.fresh();
        self.providers.push(provider(id, tenant, slug));
        id
    }

    fn add_model(&mut self, provider_id: Uuid, name: &str, approval: ApprovalStatus) -> Uuid {
        let owner = self.providers.iter().find(|p| p.id == provider_id).unwrap().clone();
        let id = self.fresh();
        self.models.push(ModelV1 {
            id,
            tenant_id: owner.tenant_id,
            provider_id,
            canonical_id: format!("{}::{name}", owner.slug),
            lifecycle_status: LifecycleStatus::Production,
            approval_status: approval,
            info: info(name),
        });
        id
    }

    fn disable(&mut self, provider_id: Uuid) {
        self.providers.iter_mut().find(|p| p.id == provider_id).unwrap().status =
            ProviderStatus::Disabled;
    }

    fn set_lifecycle(&mut self, model_id: Uuid, status: LifecycleStatus) {
        self.models.iter_mut().find(|m| m.id == model_id).unwrap().lifecycle_status = status;
    }

    fn get(&mut self, tenant: Uuid, canonical_id: &str) -> Result<ModelV1, DomainError> {
        let step = service().get_tenant_model(&ctx(tenant), canonical_id);
        self.run(step)
    }

    fn list(&mut self, tenant: Uuid, query: ODataQuery) -> Result<Page<ModelV1>, DomainError> {
        let step = service().list_tenant_models(&ctx(tenant), query);
        self.run(step)
    }

    fn manage(&mut self, tenant: Uuid, all: bool) -> Page<ModelManagementV1> {
        let step =
            service().list_tenant_models_management(&ctx(tenant), ODataQuery::default(), all);
        self.run(step).unwrap()
    }
}

fn service() -> Service {
    Service::new(ModelRegistryConfig::default())
}

fn ctx(tenant: Uuid) -> SecurityContext {
    SecurityContext { subject_id: Uuid::from_u128(9), subject_tenant_id: tenant }
}

fn child() -> Uuid {
    Uuid::from_u128(0x10)
}

fn parent() -> Uuid {
    Uuid::from_u128(0x1)
}

fn grandparent() -> Uuid {
    Uuid::from_u128(0x2)
}

fn other() -> Uuid {
    Uuid::from_u128(0xff)
}

fn chain_world() -> World {
    let mut world = World::default();
    world.ancestors.insert(child().as_u128(), vec![parent(), grandparent()]);
    world
}

fn provider(id: Uuid, tenant_id: Uuid, slug: &str) -> ProviderV1 {
    let now = Timestamp::new(1_750_000_000, 0).unwrap();
    ProviderV1 {
        id,
        tenant_id,
        slug: slug.to_owned(),
        name: slug.to_owned(),
        gts_type: "gts.cf.genai.model.provider.v1~cf.genai._.openai.v1~".to_owned(),
        status: ProviderStatus::Active,
        managed: false,
        metadata: None,
        discovery_enabled: false,
        discovery_interval_seconds: None,
        created_at: now,
        updated_at: now,
    }
}

fn info(name: &str) -> ModelInfoV1 {
    let object = || serde_json::Value::Object(serde_json::Map::new());
    ModelInfoV1 {
        gts_type: "gts.cf.genai.model.info.v1~cf.genai._.openai.v1~".to_owned(),
        display_name: format!("Test {name}"),
        description: None,
        family: Some("test-family".to_owned()),
        vendor: Some("TestVendor".to_owned()),
        managed: false,
        architecture: Some("transformer".to_owned()),
        size_bytes: None,
        format: Some("api-only".to_owned()),
        region: None,
        hosted_by: None,
        last_release_at: None,
        reasoning_level: None,
        version: None,
        sort_order: None,
        icon: None,
        multiplier_display: None,
        performance: object(),
        additional_info: object(),
        supported_api: vec![SupportedApi::Completion],
        provider_model_id: name.to_owned(),
        capabilities: object(),
        disabled_capabilities: object(),
        context_window: object(),
        default_parameters: object(),
        allow_parameter_override: false,
        allow_extra_params: Vec::new(),
        provider_settings: object(),
    }
}

fn create_req(provider_id: Uuid, name: &str) -> CreateModelRequestV1 {
    CreateModelRequestV1 {
        provider_id,
        lifecycle_status: LifecycleStatus::Production,
        approval_status: None,
        info: info(name),
    }
}

fn no_change() -> UpdateModelRequestV1 {
    UpdateModelRequestV1 {
        approval_status: None,
        lifecycle_status: None,
        display_name: None,
        description: None,
        family: None,
        vendor: None,
        managed: None,
        architecture: None,
        size_bytes: None,
        format: None,
        region: None,
        hosted_by: None,
        reasoning_level: None,
        version: None,
        sort_order: None,
        icon: None,
        multiplier_display: None,
        performance: None,
        capabilities: None,
        disabled_capabilities: None,
        context_window: None,
        default_parameters: None,
        allow_parameter_override: None,
        allow_extra_params: None,
        provider_settings: None,
    }
}

fn no_provider_change() -> UpdateProviderRequestV1 {
    UpdateProviderRequestV1 {
        name: None,
        status: None,
        managed: None,
        metadata: None,
        discovery_enabled: None,
        discovery_interval_seconds: None,
    }
}

fn names(page: &Page<ModelV1>) -> Vec<String> {
    page.items.iter().map(|m| m.canonical_id.clone()).collect()
}

fn provider_req(slug: &str, name: &str) -> CreateProviderRequestV1 {
    let gts = "gts.cf.genai.model.provider.v1~cf.genai._.openai.v1~".to_owned();
    CreateProviderRequestV1::builder(slug, name, gts).build()
}

// Listing what a tenant may use.

#[test]
fn test_list_providers_issues_one_query_and_never_fans_out() {
    let mut world = chain_world();
    let step = service().list_providers(&ctx(child()), ODataQuery::default());
    let page = world.run(step).unwrap();
    assert!(page.items.is_empty());
    assert_eq!(world.provider_queries, 1);
    assert_eq!(world.cache_gets + world.directory_calls, 0);
}

#[test]
fn test_list_tenant_models_returns_own_rows_when_ancestors_have_none() {
    let mut world = chain_world();
    let p = world.add_provider(child(), "openai");
    world.add_model(p, "gpt-4o", ApprovalStatus::Approved);
    let page = world.list(child(), ODataQuery::default()).unwrap();
    assert_eq!(names(&page), ["openai::gpt-4o"]);
}

#[test]
fn test_list_tenant_models_empty_allow_list_skips_the_model_query() {
    let mut world = chain_world();
    let page = world.list(child(), ODataQuery::default()).unwrap();
    assert!(page.items.is_empty());
    assert_eq!(
        page.page_info.limit,
        ModelRegistryConfig::default().page_limits().clamp(None),
        "the synthetic page carries the limit the repository would have resolved"
    );
    assert_eq!(world.model_queries, 0);
    let page = world.list(child(), ODataQuery::default().with_limit(1_000)).unwrap();
    assert_eq!(page.page_info.limit, 100);
    assert_eq!(page.page_info.next_cursor, None);
    assert_eq!(page.page_info.prev_cursor, None);
}

#[test]
fn test_list_tenant_models_issues_one_query_per_entity() {
    let mut world = chain_world();
    world.add_provider(child(), "openai");
    world.list(child(), ODataQuery::default()).unwrap();
    assert_eq!(world.provider_queries, 1);
    assert_eq!(world.model_queries, 1);
}

#[test]
fn test_list_tenant_models_fails_closed_when_the_provider_query_fails() {
    let mut world = chain_world();
    world.failing_providers = Some("provider set unavailable");
    let err = world.list(child(), ODataQuery::default()).unwrap_err();
    assert!(err.to_string().contains("provider set unavailable"));
    assert_eq!(world.model_queries, 0);
}

#[test]
fn test_list_tenant_models_fails_when_the_model_query_fails() {
    let mut world = chain_world();
    world.add_provider(child(), "openai");
    world.failing_models = Some("model listing unavailable");
    let err = world.list(child(), ODataQuery::default()).unwrap_err();
    assert!(err.to_string().contains("model listing unavailable"));
}

fn interleaved() -> World {
    let mut world = chain_world();
    let p = world.add_provider(parent(), "openai");
    world.add_model(p, "a", ApprovalStatus::Approved);
    world.add_model(p, "c", ApprovalStatus::Approved);
    let c = world.add_provider(child(), "child-co");
    world.add_model(c, "b", ApprovalStatus::Approved);
    world
}

#[test]
fn test_list_tenant_models_orders_inherited_rows_inline_with_own_rows() {
    let page = interleaved().list(child(), ODataQuery::default()).unwrap();
    assert_eq!(names(&page), ["child-co::b", "openai::a", "openai::c"]);
}

#[test]
fn test_list_tenant_models_pages_across_inherited_rows() {
    let mut world = interleaved();
    let first = world.list(child(), ODataQuery::default().with_limit(2)).unwrap();
    assert_eq!(names(&first), ["child-co::b", "openai::a"]);
    let mut query = ODataQuery::default().with_limit(2);
    query.cursor = Some(first.page_info.next_cursor.unwrap());
    let second = world.list(child(), query).unwrap();
    assert_eq!(names(&second), ["openai::c"]);
    assert!(second.page_info.next_cursor.is_none());
}

#[test]
fn test_list_tenant_models_honours_an_explicit_orderby_across_the_chain() {
    let mut query = ODataQuery::default();
    query.order = vec![OrderKey { field: "canonical_id".to_owned(), descending: true }];
    let page = interleaved().list(child(), query).unwrap();
    assert_eq!(names(&page), ["openai::c", "openai::a", "child-co::b"]);
}

#[test]
fn test_list_tenant_models_keeps_pdp_constraints_on_own_rows() {
    let mut world = chain_world();
    let p = world.add_provider(parent(), "openai");
    world.add_model(p, "gpt-4o", ApprovalStatus::Approved);
    let c = world.add_provider(child(), "child-co");
    let visible = world.add_model(c, "a", ApprovalStatus::Approved);
    world.add_model(c, "z", ApprovalStatus::Approved);
    world.granted = Some(AccessScope::single(ScopeConstraint::new(vec![
        ScopeFilter::eq(OWNER_TENANT_ID, child()),
        ScopeFilter::in_uuids(RESOURCE_ID, vec![visible]),
    ])));
    let page = world.list(child(), ODataQuery::default()).unwrap();
    assert_eq!(names(&page), ["child-co::a", "openai::gpt-4o"]);
}

#[test]
fn test_list_tenant_models_returns_own_models() {
    let mut world = World::default();
    let p = world.add_provider(child(), "openai");
    world.add_model(p, "gpt-4o", ApprovalStatus::Approved);
    world.add_model(p, "gpt-4o-mini", ApprovalStatus::Approved);
    let page = world.list(child(), ODataQuery::default()).unwrap();
    assert_eq!(names(&page), ["openai::gpt-4o", "openai::gpt-4o-mini"]);
}

#[test]
fn test_list_tenant_models_excludes_deprecated() {
    let mut world = World::default();
    let p = world.add_provider(child(), "openai");
    world.add_model(p, "gpt-4o", ApprovalStatus::Approved);
    let mini = world.add_model(p, "gpt-4o-mini", ApprovalStatus::Approved);
    world.set_lifecycle(mini, LifecycleStatus::Deprecated);
    let page = world.list(child(), ODataQuery::default()).unwrap();
    assert_eq!(names(&page), ["openai::gpt-4o"]);
}

#[test]
fn test_list_tenant_models_inherits_from_ancestors() {
    let mut world = chain_world();
    let p = world.add_provider(parent(), "openai");
    world.add_model(p, "gpt-4o", ApprovalStatus::Approved);
    let page = world.list(child(), ODataQuery::default()).unwrap();
    assert_eq!(names(&page), ["openai::gpt-4o"]);
}

#[test]
fn test_list_tenant_models_child_shadows_ancestor() {
    let mut world = chain_world();
    let own = world.add_provider(child(), "openai");
    let theirs = world.add_provider(parent(), "openai");
    world.add_model(own, "gpt-4o", ApprovalStatus::Approved);
    world.add_model(theirs, "gpt-4o", ApprovalStatus::Approved);
    let page = world.list(child(), ODataQuery::default()).unwrap();
    assert_eq!(names(&page), ["openai::gpt-4o"]);
    assert_eq!(page.items[0].tenant_id, child());
}

#[test]
fn test_list_tenant_models_parent_shadows_grandparent() {
    let mut world = chain_world();
    let near = world.add_provider(parent(), "openai");
    let far = world.add_provider(grandparent(), "openai");
    world.add_model(near, "gpt-4o", ApprovalStatus::Approved);
    world.add_model(far, "gpt-4o", ApprovalStatus::Approved);
    let page = world.list(child(), ODataQuery::default()).unwrap();
    assert_eq!(names(&page), ["openai::gpt-4o"], "parent must shadow grandparent");
}

#[test]
fn test_list_tenant_models_respects_odata_limit() {
    let mut world = World::default();
    let p = world.add_provider(child(), "openai");
    for i in 0..3 {
        world.add_model(p, &format!("model-{i}"), ApprovalStatus::Approved);
    }
    let page = world.list(child(), ODataQuery::default().with_limit(2)).unwrap();
    assert_eq!(page.items.len(), 2);
}

#[test]
fn test_listing_rejects_select() {
    let mut world = World::default();
    let query = || ODataQuery::default().with_select(vec!["vendor".to_owned()]);
    let text = "$select is not supported";
    let err = world.list(child(), query()).unwrap_err();
    assert!(matches!(&err, DomainError::Validation { message } if message.contains(text)));
    let step = service().list_providers(&ctx(child()), query());
    let err = world.run(step).unwrap_err();
    assert!(matches!(&err, DomainError::Validation { message } if message.contains(text)));
    let step = service().list_tenant_models_management(&ctx(child()), query(), true);
    let err = world.run(step).unwrap_err();
    assert!(matches!(&err, DomainError::Validation { message } if message.contains(text)));
    assert!(world.decisions.is_empty(), "nothing is asked before the refusal");
}

#[test]
fn test_list_tenant_models_tenant_isolation() {
    let mut world = World::default();
    let p = world.add_provider(child(), "openai");
    world.add_model(p, "gpt-4o", ApprovalStatus::Approved);
    assert!(world.list(other(), ODataQuery::default()).unwrap().items.is_empty());
}

// Administration.

#[test]
fn test_list_tenant_models_management_returns_only_scoped_rows() {
    let mut world = chain_world();
    let own = world.add_provider(child(), "openai");
    let theirs = world.add_provider(parent(), "openai");
    world.add_model(own, "gpt-4o-child", ApprovalStatus::Approved);
    world.add_model(theirs, "gpt-4o-parent", ApprovalStatus::Approved);
    let managed = world.manage(child(), false);
    assert_eq!(managed.items.len(), 1);
    assert_eq!(managed.items[0].model.canonical_id, "openai::gpt-4o-child");
    assert!(managed.items[0].available_for_eval);
    assert!(!managed.items[0].provider_disabled);
    assert_eq!(world.cache_gets, 0);
    let eval = world.list(child(), ODataQuery::default()).unwrap();
    assert_eq!(names(&eval), ["openai::gpt-4o-child"]);
}

#[test]
fn test_list_tenant_models_management_spans_every_tenant_the_pdp_grants() {
    let mut world = chain_world();
    let own = world.add_provider(child(), "openai");
    let theirs = world.add_provider(parent(), "anthropic");
    world.add_model(own, "gpt-4o", ApprovalStatus::Approved);
    world.add_model(theirs, "sonnet", ApprovalStatus::Approved);
    world.granted = Some(AccessScope::for_tenants(vec![child(), parent()]));
    let managed = world.manage(child(), false);
    let ids: Vec<&str> = managed.items.iter().map(|m| m.model.canonical_id.as_str()).collect();
    assert_eq!(ids, ["anthropic::sonnet", "openai::gpt-4o"]);
    assert!(managed.items.iter().all(|m| m.available_for_eval && !m.provider_disabled));
    assert_eq!(world.decisions[0].1, Action::ListManagement);
}

#[test]
fn test_list_tenant_models_management_disabled_provider() {
    let mut world = World::default();
    let p = world.add_provider(child(), "openai");
    world.add_model(p, "gpt-4o", ApprovalStatus::Approved);
    world.disable(p);
    let managed = world.manage(child(), false);
    assert_eq!(managed.items.len(), 1);
    assert!(managed.items[0].provider_disabled);
    assert!(!managed.items[0].available_for_eval);
    assert!(world.list(child(), ODataQuery::default()).unwrap().items.is_empty());
}

#[test]
fn test_list_tenant_models_management_non_approved_model() {
    let mut world = World::default();
    let p = world.add_provider(child(), "openai");
    world.add_model(p, "gpt-4o", ApprovalStatus::Pending);
    let managed = world.manage(child(), false);
    assert_eq!(managed.items.len(), 1, "management should show the model");
    assert!(!managed.items[0].available_for_eval);
    assert!(!managed.items[0].provider_disabled);
    assert!(world.list(child(), ODataQuery::default()).unwrap().items.is_empty());
    let pending = MODEL_APPROVAL_STATUS.eq(ApprovalStatus::Pending.into_odata_value());
    let query = QueryBuilder::new().filter(pending).build(|text| text);
    assert_eq!(query.filter.as_deref(), Some("approval_status eq 'pending'"));
    assert!(
        world.list(child(), query).unwrap().items.is_empty(),
        "a filter that names `pending` must not bring the model back"
    );
}

#[test]
fn test_list_tenant_models_management_include_deprecated() {
    let mut world = World::default();
    let p = world.add_provider(child(), "openai");
    world.add_model(p, "gpt-4o-active", ApprovalStatus::Approved);
    let old = world.add_model(p, "gpt-4o-deprecated", ApprovalStatus::Approved);
    world.set_lifecycle(old, LifecycleStatus::Deprecated);
    let managed = world.manage(child(), false);
    assert_eq!(managed.items.len(), 1, "default should hide deprecated");
    assert_eq!(managed.items[0].model.canonical_id, "openai::gpt-4o-active");
    let managed = world.manage(child(), true);
    assert_eq!(managed.items.len(), 2);
    let old = managed
        .items
        .iter()
        .find(|m| m.model.canonical_id == "openai::gpt-4o-deprecated")
        .unwrap();
    assert!(!old.available_for_eval);
}

#[test]
fn a_model_whose_provider_cannot_be_read_carries_no_note() {
    let mut world = World::default();
    let p = world.add_provider(child(), "openai");
    world.add_model(p, "gpt-4o", ApprovalStatus::Approved);
    world.providers.clear();
    let managed = world.manage(child(), false);
    assert!(!managed.items[0].available_for_eval);
    assert!(!managed.items[0].provider_disabled);
}

// Reading a model for use.

#[test]
fn test_get_tenant_model_not_found() {
    let err = World::default().get(child(), "nonexistent::model").unwrap_err();
    assert!(matches!(&err, DomainError::ProviderNotFoundBySlug { slug } if slug == "nonexistent"));
}

#[test]
fn a_missing_model_is_named_as_it_was_asked_for() {
    let mut world = World::default();
    world.add_provider(child(), "openai");
    let err = world.get(child(), "openai::missing").unwrap_err();
    assert!(matches!(
        &err,
        DomainError::ModelNotFound { canonical_id } if canonical_id == "openai::missing"
    ));
}

#[test]
fn test_get_tenant_model_deprecated_returns_error() {
    let mut world = World::default();
    let p = world.add_provider(child(), "openai");
    let m = world.add_model(p, "gpt-4o", ApprovalStatus::Approved);
    world.set_lifecycle(m, LifecycleStatus::Deprecated);
    let err = world.get(child(), "openai::gpt-4o").unwrap_err();
    assert!(matches!(
        &err,
        DomainError::ModelDeprecated { canonical_id } if canonical_id == "openai::gpt-4o"
    ));
}

#[test]
fn test_get_tenant_model_sunset_returns_deprecated_error() {
    let mut world = World::default();
    let p = world.add_provider(child(), "openai");
    let m = world.add_model(p, "gpt-4o", ApprovalStatus::Approved);
    world.set_lifecycle(m, LifecycleStatus::Sunset);
    let err = world.get(child(), "openai::gpt-4o").unwrap_err();
    assert!(matches!(
        &err,
        DomainError::ModelDeprecated { canonical_id } if canonical_id == "openai::gpt-4o"
    ));
}

#[test]
fn test_get_tenant_model_pending_returns_not_approved() {
    let mut world = World::default();
    let p = world.add_provider(child(), "openai");
    world.add_model(p, "gpt-4o", ApprovalStatus::Pending);
    let err = world.get(child(), "openai::gpt-4o").unwrap_err();
    assert!(matches!(
        &err,
        DomainError::ModelNotApproved { canonical_id } if canonical_id == "openai::gpt-4o"
    ));
}

#[test]
fn test_get_tenant_model_rejected_and_revoked_are_not_approved() {
    for status in [ApprovalStatus::Rejected, ApprovalStatus::Revoked] {
        let mut world = World::default();
        let p = world.add_provider(child(), "openai");
        world.add_model(p, "gpt-4o", status);
        let err = world.get(child(), "openai::gpt-4o").unwrap_err();
        assert!(matches!(&err, DomainError::ModelNotApproved { .. }));
    }
}

#[test]
fn test_get_tenant_model_approved_returns_with_approved_status() {
    let mut world = World::default();
    let p = world.add_provider(child(), "openai");
    world.add_model(p, "gpt-4o", ApprovalStatus::Approved);
    let found = world.get(child(), "openai::gpt-4o").unwrap();
    assert_eq!(found.approval_status, ApprovalStatus::Approved);
    assert_eq!(world.decisions, vec![(ResourceType::Model, Action::Get, None)]);
}

#[test]
fn test_get_tenant_model_inherited_from_parent() {
    let mut world = chain_world();
    let p = world.add_provider(parent(), "openai");
    world.add_model(p, "gpt-4o", ApprovalStatus::Approved);
    let found = world.get(child(), "openai::gpt-4o").unwrap();
    assert_eq!(found.canonical_id, "openai::gpt-4o");
}

#[test]
fn test_get_tenant_model_cross_tenant_not_found() {
    let mut world = World::default();
    let p = world.add_provider(child(), "openai");
    world.add_model(p, "gpt-4o", ApprovalStatus::Approved);
    let err = world.get(other(), "openai::gpt-4o").unwrap_err();
    assert!(matches!(&err, DomainError::ProviderNotFoundBySlug { slug } if slug == "openai"));
}

#[test]
fn test_get_tenant_model_malformed_canonical_id() {
    let mut world = World::default();
    let err = world.get(child(), "no-separator").unwrap_err();
    assert!(matches!(
        &err,
        DomainError::ModelNotFound { canonical_id } if canonical_id == "no-separator"
    ));
    assert_eq!(world.provider_queries, 0);
}

#[test]
fn test_get_tenant_model_disabled_winner_provider() {
    let mut world = World::default();
    let p = world.add_provider(child(), "openai");
    world.add_model(p, "gpt-4o", ApprovalStatus::Approved);
    world.disable(p);
    let err = world.get(child(), "openai::gpt-4o").unwrap_err();
    assert!(matches!(&err, DomainError::ProviderDisabled { id } if *id == p));
}

#[test]
fn test_get_tenant_model_gate_order_lifecycle_before_provider_status() {
    let mut world = World::default();
    let p = world.add_provider(child(), "openai");
    let m = world.add_model(p, "gpt-4o", ApprovalStatus::Pending);
    world.set_lifecycle(m, LifecycleStatus::Deprecated);
    world.disable(p);
    let err = world.get(child(), "openai::gpt-4o").unwrap_err();
    assert!(matches!(
        &err,
        DomainError::ModelDeprecated { canonical_id } if canonical_id == "openai::gpt-4o"
    ));
}

#[test]
fn a_model_of_another_provider_is_not_found() {
    let mut world = World::default();
    let p = world.add_provider(child(), "openai");
    let m = world.add_model(p, "gpt-4o", ApprovalStatus::Approved);
    world.models.iter_mut().find(|x| x.id == m).unwrap().provider_id = Uuid::from_u128(3);
    let err = world.get(child(), "openai::gpt-4o").unwrap_err();
    assert!(matches!(&err, DomainError::ModelNotFound { .. }));
}

#[test]
fn test_get_tenant_model_unresolved_slug() {
    let mut world = World::default();
    world.add_provider(child(), "other-slug");
    let err = world.get(child(), "unknown::model").unwrap_err();
    assert!(matches!(&err, DomainError::ProviderNotFoundBySlug { slug } if slug == "unknown"));
}

#[test]
fn test_get_tenant_model_slug_resolved_from_parent() {
    let mut world = chain_world();
    let p = world.add_provider(parent(), "openai");
    world.add_model(p, "gpt-4o", ApprovalStatus::Approved);
    let found = world.get(child(), "openai::gpt-4o").unwrap();
    assert_eq!(found.canonical_id, "openai::gpt-4o");
    assert_eq!(found.tenant_id, parent());
}

#[test]
fn test_get_tenant_model_child_shadows_slug() {
    let mut world = chain_world();
    let own = world.add_provider(child(), "openai");
    let theirs = world.add_provider(parent(), "openai");
    world.add_model(theirs, "gpt-4o", ApprovalStatus::Approved);
    world.add_model(own, "gpt-4o", ApprovalStatus::Approved);
    let found = world.get(child(), "openai::gpt-4o").unwrap();
    assert_eq!(found.canonical_id, "openai::gpt-4o");
    assert_eq!(found.provider_id, own);
}

#[test]
fn test_get_tenant_model_fail_closed_on_slug_query_error() {
    let mut world = chain_world();
    world.failing_providers = Some("slug resolution unavailable");
    let err = world.get(child(), "openai::gpt-4o").unwrap_err();
    assert!(matches!(
        &err,
        DomainError::Internal { detail, .. } if detail == "slug resolution unavailable"
    ));
    assert_eq!(world.provider_queries, 1);
    assert_eq!(world.model_queries, 0);
    let mut world = chain_world();
    world.database_down = true;
    let err = world.get(child(), "openai::gpt-4o").unwrap_err();
    assert!(matches!(
        &err,
        DomainError::Internal { detail, source: None } if detail == "database error: pool closed"
    ));
    assert_eq!(world.provider_queries, 1);
    assert_eq!(world.model_queries, 0);
}

#[test]
fn test_get_tenant_model_issues_one_provider_query_for_a_deep_chain() {
    let mut world = World::default();
    let deep: Vec<Uuid> = (100..150).map(Uuid::from_u128).collect();
    world.ancestors.insert(child().as_u128(), deep);
    world.failing_providers = Some("stub");
    world.get(child(), "openai::gpt-4o").unwrap_err();
    assert_eq!(world.provider_queries, 1);
}

#[test]
fn a_denied_caller_is_told_nothing_else() {
    let mut world = chain_world();
    world.denied = true;
    let err = world.get(child(), "openai::gpt-4o").unwrap_err();
    assert_eq!(err.to_string(), "forbidden: access denied");
    assert_eq!(world.cache_gets + world.provider_queries + world.model_queries, 0);
}

// Changing models.

#[test]
fn test_create_model_success() {
    let mut world = World::default();
    let p = world.add_provider(child(), "openai");
    let step = service().create_model(&ctx(child()), create_req(p, "gpt-4o"));
    let model = world.run(step).unwrap();
    assert_eq!(model.canonical_id, "openai::gpt-4o");
    assert_eq!(model.provider_id, p);
    assert_eq!(model.lifecycle_status, LifecycleStatus::Production);
    assert_eq!(model.approval_status, ApprovalStatus::Pending);
    assert_eq!(
        world.decisions,
        vec![
            (ResourceType::Model, Action::Create, None),
            (ResourceType::Provider, Action::Get, Some(p)),
        ]
    );
}

#[test]
fn test_create_model_with_initial_approval() {
    let mut world = World::default();
    let p = world.add_provider(child(), "openai");
    let mut req = create_req(p, "gpt-4o");
    req.approval_status = Some(ApprovalStatus::Approved);
    let step = service().create_model(&ctx(child()), req);
    assert_eq!(world.run(step).unwrap().approval_status, ApprovalStatus::Approved);
}

#[test]
fn test_create_model_disabled_provider_rejected() {
    let mut world = World::default();
    let p = world.add_provider(child(), "openai");
    world.disable(p);
    let step = service().create_model(&ctx(child()), create_req(p, "gpt-4o"));
    let err = world.run(step).unwrap_err();
    assert!(matches!(&err, DomainError::ProviderDisabled { id } if *id == p));
}

#[test]
fn test_create_model_deprecated_lifecycle_rejected() {
    let mut world = World::default();
    let p = world.add_provider(child(), "openai");
    for (status, text) in
        [(LifecycleStatus::Deprecated, "`Deprecated`"), (LifecycleStatus::Sunset, "`Sunset`")]
    {
        let mut req = create_req(p, "gpt-4o");
        req.lifecycle_status = status;
        let step = service().create_model(&ctx(child()), req);
        let err = world.run(step).unwrap_err();
        assert!(matches!(&err, DomainError::Validation { message } if message.contains(text)));
    }
    assert!(world.decisions.is_empty());
}

#[test]
fn test_create_model_ancestor_provider_out_of_scope_is_not_found() {
    let mut world = chain_world();
    let p = world.add_provider(parent(), "openai");
    let step = service().create_model(&ctx(child()), create_req(p, "gpt-4o"));
    let err = world.run(step).unwrap_err();
    assert!(matches!(&err, DomainError::ProviderNotFound { id } if *id == p));
}

#[test]
fn test_create_model_takes_the_providers_tenant() {
    let mut world = chain_world();
    let p = world.add_provider(parent(), "openai");
    world.granted = Some(AccessScope::for_tenants(vec![child(), parent()]));
    let step = service().create_model(&ctx(child()), create_req(p, "gpt-4o"));
    let model = world.run(step).unwrap();
    assert_eq!(model.tenant_id, parent());
    assert_eq!(model.provider_id, p);
    assert_eq!(model.canonical_id, "openai::gpt-4o");
}

#[test]
fn test_create_model_provider_not_found() {
    let mut world = World::default();
    let missing = Uuid::from_u128(404);
    let step = service().create_model(&ctx(child()), create_req(missing, "gpt-4o"));
    let err = world.run(step).unwrap_err();
    assert!(matches!(&err, DomainError::ProviderNotFound { id } if *id == missing));
}

fn change(
    world: &mut World,
    id: Uuid,
    lifecycle: Option<LifecycleStatus>,
    approval: Option<ApprovalStatus>,
) -> Result<ModelV1, DomainError> {
    let mut req = no_change();
    req.lifecycle_status = lifecycle;
    req.approval_status = approval;
    let step = service().update_model(&ctx(child()), id, req);
    world.run(step)
}

#[test]
fn test_update_model_lifecycle_status() {
    let mut world = World::default();
    let p = world.add_provider(child(), "openai");
    let m = world.add_model(p, "gpt-4o", ApprovalStatus::Pending);
    let updated = change(&mut world, m, Some(LifecycleStatus::Preview), None).unwrap();
    assert_eq!(updated.lifecycle_status, LifecycleStatus::Preview);
    assert_eq!(updated.canonical_id, "openai::gpt-4o");
}

#[test]
fn test_update_model_approval_status() {
    let mut world = World::default();
    let p = world.add_provider(child(), "openai");
    let m = world.add_model(p, "gpt-4o", ApprovalStatus::Pending);
    for status in [ApprovalStatus::Approved, ApprovalStatus::Rejected, ApprovalStatus::Revoked] {
        let updated = change(&mut world, m, None, Some(status)).unwrap();
        assert_eq!(updated.approval_status, status);
    }
}

#[test]
fn test_update_model_both_fields_and_approval() {
    let mut world = World::default();
    let p = world.add_provider(child(), "openai");
    let m = world.add_model(p, "gpt-4o", ApprovalStatus::Pending);
    let updated = change(
        &mut world,
        m,
        Some(LifecycleStatus::Preview),
        Some(ApprovalStatus::Approved),
    )
    .unwrap();
    assert_eq!(updated.lifecycle_status, LifecycleStatus::Preview);
    assert_eq!(updated.approval_status, ApprovalStatus::Approved);
}

#[test]
fn test_update_model_not_found() {
    let mut world = World::default();
    let missing = Uuid::from_u128(404);
    let err = change(&mut world, missing, Some(LifecycleStatus::Preview), None).unwrap_err();
    assert!(matches!(&err, DomainError::ModelNotFoundById { id } if *id == missing));
}

#[test]
fn test_update_model_invalid_transition_from_deprecated() {
    let mut world = World::default();
    let p = world.add_provider(child(), "openai");
    let m = world.add_model(p, "gpt-4o", ApprovalStatus::Pending);
    world.set_lifecycle(m, LifecycleStatus::Deprecated);
    let err = change(&mut world, m, Some(LifecycleStatus::Production), None).unwrap_err();
    assert!(matches!(&err, DomainError::InvalidTransition { .. }));
    let err = change(&mut world, m, None, Some(ApprovalStatus::Approved)).unwrap_err();
    assert_eq!(
        err.to_string(),
        "invalid state transition: cannot modify approval status on a deprecated or sunset model"
    );
    assert!(change(&mut world, m, None, None).is_ok());
}

#[test]
fn test_delete_model_soft_deletes() {
    let mut world = World::default();
    let p = world.add_provider(child(), "openai");
    let m = world.add_model(p, "gpt-4o", ApprovalStatus::Approved);
    let step = service().delete_model(&ctx(child()), m);
    world.run(step).unwrap();
    let err = world.get(child(), "openai::gpt-4o").unwrap_err();
    assert!(matches!(
        &err,
        DomainError::ModelDeprecated { canonical_id } if canonical_id == "openai::gpt-4o"
    ));
}

#[test]
fn test_delete_model_not_found() {
    let mut world = World::default();
    let missing = Uuid::from_u128(404);
    let step = service().delete_model(&ctx(child()), missing);
    let err = world.run(step).unwrap_err();
    assert!(matches!(&err, DomainError::ModelNotFoundById { id } if *id == missing));
}

#[test]
fn the_management_read_passes_no_gate() {
    let mut world = World::default();
    let p = world.add_provider(child(), "openai");
    let m = world.add_model(p, "gpt-4o", ApprovalStatus::Pending);
    world.set_lifecycle(m, LifecycleStatus::Sunset);
    world.disable(p);
    let step = service().get_model(&ctx(child()), m);
    assert_eq!(world.run(step).unwrap().id, m);
    assert_eq!(world.decisions, vec![(ResourceType::Model, Action::GetManagement, Some(m))]);
}

// Writes and the cache.

#[test]
fn test_provider_writes_do_not_touch_the_cache() {
    let mut world = World::default();
    let step = service().create_provider(&ctx(child()), provider_req("openai", "OpenAI"));
    let created = world.run(step).unwrap();
    assert_eq!(created.tenant_id, child());
    let mut req = no_provider_change();
    req.name = Some("renamed".to_owned());
    let step = service().update_provider(&ctx(child()), created.id, req);
    assert_eq!(world.run(step).unwrap().name, "renamed");
    let step = service().get_provider(&ctx(child()), created.id);
    assert_eq!(world.run(step).unwrap().slug, "openai");
    let step = service().delete_provider(&ctx(child()), created.id);
    world.run(step).unwrap();
    assert_eq!(world.cache_gets, 0, "a provider write reads no cache entry");
    assert_eq!(world.cache_puts, 0, "a provider write writes no cache entry");
    assert_eq!(
        world.decisions.iter().map(|d| d.1).collect::<Vec<_>>(),
        vec![Action::Create, Action::Update, Action::Get, Action::Delete]
    );
}

#[test]
fn test_cross_tenant_provider_write_does_not_touch_the_cache() {
    let mut world = chain_world();
    let p = world.add_provider(parent(), "openai");
    world.granted = Some(AccessScope::for_tenants(vec![child(), parent()]));
    let mut req = no_provider_change();
    req.name = Some("renamed".to_owned());
    let step = service().update_provider(&ctx(child()), p, req);
    assert_eq!(world.run(step).unwrap().tenant_id, parent());
    let step = service().delete_provider(&ctx(child()), p);
    world.run(step).unwrap();
    assert_eq!(world.cache_gets, 0);
    assert_eq!(world.cache_puts, 0);
}

#[test]
fn test_model_writes_do_not_touch_the_cache() {
    let mut world = World::default();
    let p = world.add_provider(child(), "openai");
    let step = service().create_model(&ctx(child()), create_req(p, "gpt-4o"));
    let model = world.run(step).unwrap();
    change(&mut world, model.id, None, Some(ApprovalStatus::Approved)).unwrap();
    let step = service().delete_model(&ctx(child()), model.id);
    world.run(step).unwrap();
    assert_eq!(world.cache_gets, 0, "a model write reads no cache entry");
    assert_eq!(world.cache_puts, 0, "a model write writes no cache entry");
}

#[test]
fn test_approval_flip_is_visible_on_the_next_read() {
    let mut world = World::default();
    let p = world.add_provider(child(), "openai");
    let m = world.add_model(p, "gpt-4o", ApprovalStatus::Pending);
    let err = world.get(child(), "openai::gpt-4o").unwrap_err();
    assert!(matches!(&err, DomainError::ModelNotApproved { .. }));
    change(&mut world, m, None, Some(ApprovalStatus::Approved)).unwrap();
    let model = world.get(child(), "openai::gpt-4o").unwrap();
    assert_eq!(model.approval_status, ApprovalStatus::Approved);
    assert_eq!(world.directory_calls, 1, "the second read is served from the cache");
}

#[test]
fn bad_provider_requests_are_refused_before_any_decision() {
    let mut world = World::default();
    for (slug, name, text) in [
        ("", "n", "slug cannot be empty"),
        ("Bad", "n", "lowercase alphanumeric"),
        ("ok", "", "name cannot be empty"),
    ] {
        let step = service().create_provider(&ctx(child()), provider_req(slug, name));
        let err = world.run(step).unwrap_err();
        assert!(err.to_string().contains(text));
    }
    let gts = "gts".to_owned();
    let req = CreateProviderRequestV1::builder("ok", "n", gts)
        .discovery_interval_seconds(u32::MAX)
        .build();
    let step = service().create_provider(&ctx(child()), req);
    assert!(world.run(step).unwrap_err().to_string().contains("got 4294967295"));
    let mut change = no_provider_change();
    change.discovery_interval_seconds = Some(Some(2_147_483_648));
    let step = service().update_provider(&ctx(child()), Uuid::from_u128(1), change);
    assert!(world.run(step).unwrap_err().to_string().contains("got 2147483648"));
    let mut change = no_provider_change();
    change.name = Some("x".repeat(256));
    let step = service().update_provider(&ctx(child()), Uuid::from_u128(1), change);
    assert!(world.run(step).unwrap_err().to_string().contains("at most 255"));
    assert!(world.decisions.is_empty());
}

#[test]
fn decisions_are_named_for_policies() {
    assert_eq!(ResourceType::Provider.name(), "model_registry.provider");
    assert_eq!(ResourceType::Model.name(), "model_registry.model");
    assert_eq!(Action::ListManagement.name(), "list_management");
    assert_eq!(Action::GetManagement.name(), "get_management");
    assert_eq!(Action::List.name(), "list");
}

// Rows.

#[test]
fn a_change_keeps_what_a_model_is_known_by() {
    let mut world = World::default();
    let p = world.add_provider(child(), "openai");
    let m = world.add_model(p, "gpt-4o", ApprovalStatus::Pending);
    let before = world.models[0].clone();
    let mut req = no_change();
    req.display_name = Some("New".to_owned());
    req.description = Some(Some("text".to_owned()));
    req.family = Some(None);
    req.sort_order = Some(Some(4));
    req.allow_extra_params = Some(vec!["seed".to_owned()]);
    req.provider_settings = Some(serde_json::Value::Bool(true));
    let step = service().update_model(&ctx(child()), m, req);
    let after = world.run(step).unwrap();
    assert_eq!(after.info.display_name, "New");
    assert_eq!(after.info.description.as_deref(), Some("text"));
    assert_eq!(after.info.family, None);
    assert_eq!(after.info.vendor, before.info.vendor);
    assert_eq!(after.info.sort_order, Some(4));
    assert_eq!(after.info.allow_extra_params, ["seed"]);
    assert_eq!(after.info.provider_settings, serde_json::Value::Bool(true));
    assert_eq!(after.canonical_id, before.canonical_id);
    assert_eq!(after.info.gts_type, before.info.gts_type);
    assert_eq!(after.info.provider_model_id, before.info.provider_model_id);
    let unchanged = patch_model(after.clone(), no_change());
    assert_eq!(unchanged, after);
}

#[test]
fn a_slug_is_taken_once_per_tenant() {
    let mut world = World::default();
    let make = |world: &mut World, tenant: Uuid| {
        let step = service().create_provider(&ctx(tenant), provider_req("openai", "OpenAI"));
        world.run(step)
    };
    make(&mut world, child()).unwrap();
    let err = make(&mut world, child()).unwrap_err();
    assert!(matches!(&err, DomainError::ProviderConflict { slug } if slug == "openai"));
    make(&mut world, parent()).unwrap();
}

#[test]
fn a_provider_with_models_stays() {
    let mut world = World::default();
    let p = world.add_provider(child(), "openai");
    let m = world.add_model(p, "a", ApprovalStatus::Approved);
    world.add_model(p, "b", ApprovalStatus::Approved);
    world.set_lifecycle(m, LifecycleStatus::Deprecated);
    let step = service().delete_provider(&ctx(child()), p);
    let err = world.run(step).unwrap_err();
    assert!(matches!(
        &err,
        DomainError::ProviderHasModels { id, model_count: 2 } if *id == p
    ));
    world.models.clear();
    let step = service().delete_provider(&ctx(child()), p);
    world.run(step).unwrap();
}

#[test]
fn a_listing_for_use_shows_live_approved_models_of_allowed_providers() {
    let mut world = World::default();
    let p = world.add_provider(child(), "openai");
    world.add_model(p, "a", ApprovalStatus::Approved);
    let model = world.models[0].clone();
    let eval = |ids: Vec<Uuid>| ListVisibility::Eval { allow_list: ids };
    assert!(eval(vec![other(), p]).admits(&model));
    assert!(!eval(vec![other()]).admits(&model));
    assert!(!eval(vec![]).admits(&model));
    let old = retire_model(model.clone());
    assert!(!eval(vec![p]).admits(&old));
    assert!(!ListVisibility::Management { include_deprecated: false }.admits(&old));
    assert!(ListVisibility::Management { include_deprecated: true }.admits(&old));
    let mut pending = model;
    pending.approval_status = ApprovalStatus::Pending;
    assert!(!eval(vec![p]).admits(&pending));
    assert!(ListVisibility::Management { include_deprecated: false }.admits(&pending));
}

// Registering a model by its provider's slug.

fn by_slug(slug: &str, name: &str) -> CreateModelBySlug<ModelInfoV1> {
    CreateModelBySlug {
        provider_slug: slug.to_owned(),
        lifecycle_status: LifecycleStatus::Production,
        approval_status: Some(ApprovalStatus::Approved),
        info: info(name),
    }
}

#[test]
fn a_slug_means_the_callers_own_provider_first() {
    let mut world = chain_world();
    let theirs = world.add_provider(parent(), "openai");
    let own = world.add_provider(child(), "openai");
    world.granted = Some(AccessScope::for_tenants(vec![child(), parent()]));
    let step = service().create_model_by_slug(&ctx(child()), by_slug("openai", "gpt-4o"));
    let model = world.run(step).unwrap();
    assert_eq!(model.provider_id, own);
    assert_eq!(model.tenant_id, child());
    assert_eq!(model.canonical_id, "openai::gpt-4o");
    assert_eq!(model.approval_status, ApprovalStatus::Approved);
    assert_eq!(
        world.decisions,
        vec![
            (ResourceType::Model, Action::Create, None),
            (ResourceType::Provider, Action::Get, None),
        ]
    );
    world.providers.retain(|p| p.id != own);
    let step = service().create_model_by_slug(&ctx(child()), by_slug("openai", "gpt-4o"));
    let model = world.run(step).unwrap();
    assert_eq!(model.provider_id, theirs);
    assert_eq!(model.tenant_id, parent());
}

#[test]
fn a_slug_that_names_several_providers_is_refused() {
    for order in [[parent(), grandparent()], [grandparent(), parent()]] {
        let mut world = chain_world();
        for tenant in order {
            world.add_provider(tenant, "openai");
        }
        world.granted = Some(AccessScope::for_tenants(vec![child(), parent(), grandparent()]));
        let step = service().create_model_by_slug(&ctx(child()), by_slug("openai", "gpt-4o"));
        let err = world.run(step).unwrap_err();
        assert_eq!(
            err.to_string(),
            "validation error: provider slug `openai` names several providers"
        );
        assert!(world.models.is_empty());
    }
}

#[test]
fn a_slug_without_a_usable_provider_registers_nothing() {
    let mut world = World::default();
    let step = service().create_model_by_slug(&ctx(child()), by_slug("openai", "gpt-4o"));
    let err = world.run(step).unwrap_err();
    assert!(matches!(&err, DomainError::ProviderNotFoundBySlug { slug } if slug == "openai"));
    let p = world.add_provider(child(), "openai");
    world.disable(p);
    let step = service().create_model_by_slug(&ctx(child()), by_slug("openai", "gpt-4o"));
    let err = world.run(step).unwrap_err();
    assert!(matches!(&err, DomainError::ProviderDisabled { id } if *id == p));
    let mut request = by_slug("openai", "gpt-4o");
    request.lifecycle_status = LifecycleStatus::Sunset;
    world.decisions.clear();
    let step = service().create_model_by_slug(&ctx(child()), request);
    assert!(matches!(world.run(step).unwrap_err(), DomainError::Validation { .. }));
    assert!(world.decisions.is_empty());
    assert!(world.models.is_empty());
}
