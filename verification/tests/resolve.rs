use std::collections::HashMap;

use gears::ids::Uuid;
use gears::registry::cache::{choose_cache, CacheChoice, NoopResolutionCache};
use gears::registry::config::ModelRegistryConfig;
use gears::registry::error::DomainError;
use gears::registry::inheritance::InheritanceContext;
use gears::registry::operation::{BarrierMode, Operation, Reply, Request, Step};
use gears::registry::resolve::resolve_ancestors;
use gears::registry::security::SecurityContext;

fn id(n: u128) -> Uuid {
    Uuid::from_u128(n)
}

fn parent_id() -> Uuid {
    id(1)
}

fn grandparent_id() -> Uuid {
    id(2)
}

fn make_ancestor_ids() -> Vec<Uuid> {
    vec![parent_id(), grandparent_id()]
}

#[derive(Default)]
struct StubCache {
    chains: HashMap<u128, Vec<Uuid>>,
    puts: usize,
    noop: bool,
}

struct Directory {
    answer: Result<Vec<Uuid>, String>,
    calls: usize,
}

fn run(
    cache: &mut StubCache,
    directory: &mut Directory,
    ctx: &SecurityContext,
) -> Result<InheritanceContext, DomainError> {
    let mut step = resolve_ancestors(ctx);
    loop {
        let (state, request) = match step {
            Step::Ask { state, request } => (state, request),
            Step::Done { result } => return result,
        };
        let reply = match request {
            Request::CachedChain { tenant_id } => {
                assert_eq!(tenant_id, ctx.subject_tenant_id());
                if cache.noop {
                    Reply::CachedChain(NoopResolutionCache.get_chain(tenant_id))
                } else {
                    Reply::CachedChain(cache.chains.get(&tenant_id.as_u128()).cloned())
                }
            }
            Request::Ancestors { tenant_id, barrier_mode, ctx: asker } => {
                assert_eq!(tenant_id, ctx.subject_tenant_id());
                assert_eq!(asker, *ctx);
                assert_eq!(barrier_mode, BarrierMode::Respect);
                directory.calls += 1;
                Reply::Ancestors(directory.answer.clone())
            }
            Request::StoreChain { tenant_id, ancestor_ids } => {
                cache.puts += 1;
                if !cache.noop {
                    cache.chains.insert(tenant_id.as_u128(), ancestor_ids);
                }
                Reply::Stored
            }
            other => panic!("unexpected request {other:?}"),
        };
        step = state.resume(reply);
    }
}

fn noop() -> StubCache {
    StubCache { noop: true, ..StubCache::default() }
}

fn directory(ids: Vec<Uuid>) -> Directory {
    Directory { answer: Ok(ids), calls: 0 }
}

#[test]
fn test_resolve_ancestors_with_mock() {
    let ctx = SecurityContext::anonymous();
    let inheritance = run(&mut noop(), &mut directory(make_ancestor_ids()), &ctx).unwrap();
    assert_eq!(
        inheritance.chain_ids().to_vec(),
        vec![ctx.subject_tenant_id(), parent_id(), grandparent_id()]
    );
}

#[test]
fn test_resolve_ancestors_no_ancestors() {
    let ctx = SecurityContext::anonymous();
    let inheritance = run(&mut noop(), &mut directory(vec![]), &ctx).unwrap();
    assert_eq!(inheritance.chain_ids().len(), 1);
}

#[test]
fn test_resolve_ancestors_warm_chain_skips_resolver() {
    let ctx = SecurityContext::anonymous();
    let mut cache = StubCache::default();
    cache.chains.insert(ctx.subject_tenant_id().as_u128(), make_ancestor_ids());
    let mut resolver = directory(make_ancestor_ids());
    let inheritance = run(&mut cache, &mut resolver, &ctx).unwrap();
    assert_eq!(
        inheritance.chain_ids().to_vec(),
        vec![ctx.subject_tenant_id(), parent_id(), grandparent_id()]
    );
    assert_eq!(resolver.calls, 0, "a warm chain must not call the resolver");
    assert_eq!(cache.puts, 0, "a warm chain must not rewrite the entry");
}

#[test]
fn test_resolve_ancestors_cold_chain_populates_cache() {
    let ctx = SecurityContext::anonymous();
    let mut cache = StubCache::default();
    let mut resolver = directory(make_ancestor_ids());
    let first = run(&mut cache, &mut resolver, &ctx).unwrap();
    assert_eq!(resolver.calls, 1);
    assert_eq!(cache.puts, 1, "the cold chain is stored");
    let second = run(&mut cache, &mut resolver, &ctx).unwrap();
    assert_eq!(resolver.calls, 1, "the second resolution is served warm");
    assert_eq!(first.chain_ids(), second.chain_ids());
}

#[test]
fn test_resolve_ancestors_empty_chain_is_a_hit_not_a_miss() {
    let ctx = SecurityContext::anonymous();
    let mut cache = StubCache::default();
    let mut resolver = directory(vec![]);
    run(&mut cache, &mut resolver, &ctx).unwrap();
    assert_eq!(resolver.calls, 1);
    let warm = run(&mut cache, &mut resolver, &ctx).unwrap();
    assert_eq!(resolver.calls, 1, "an empty ancestor list is a hit, not a miss");
    assert_eq!(warm.chain_ids().len(), 1);
}

#[test]
fn test_resolve_ancestors_noop_cache_always_calls_resolver() {
    let ctx = SecurityContext::anonymous();
    let mut resolver = directory(make_ancestor_ids());
    for expected_calls in 1..=3 {
        let inheritance = run(&mut noop(), &mut resolver, &ctx).unwrap();
        assert_eq!(inheritance.chain_ids().len(), 3);
        assert_eq!(resolver.calls, expected_calls);
    }
}

#[test]
fn test_resolve_ancestors_failure_returns_internal_error() {
    let ctx = SecurityContext::anonymous();
    let mut failing = Directory { answer: Err("resolver unavailable".to_owned()), calls: 0 };
    let err = run(&mut noop(), &mut failing, &ctx).unwrap_err();
    assert!(err.to_string().contains("tenant-resolver ancestors call failed"));
    match err {
        DomainError::Internal { source, .. } => {
            assert!(source.unwrap().contains("resolver unavailable"));
        }
        other => panic!("expected Internal error, got {other:?}"),
    }
}

#[test]
fn test_noop_cache_always_misses() {
    let tenant_id = id(77);
    let mut cache = NoopResolutionCache;
    cache.put_chain(tenant_id, &[id(78)]);
    assert!(cache.get_chain(tenant_id).is_none());
    cache.put_chain(tenant_id, &[]);
    assert!(
        cache.get_chain(tenant_id).is_none(),
        "an empty stored chain must not become a hit either"
    );
}

#[test]
fn the_shared_cache_needs_configuration_and_binding() {
    let config = ModelRegistryConfig::default();
    assert_eq!(choose_cache(&config, true), CacheChoice::Shared { ttl_seconds: 30 });
    assert_eq!(choose_cache(&config, false), CacheChoice::Noop);
    let off = ModelRegistryConfig { cache_enabled: false, ..config };
    assert_eq!(choose_cache(&off, true), CacheChoice::Noop);
}
