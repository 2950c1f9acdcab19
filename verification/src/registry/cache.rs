//! The cache of tenant chains: which one is installed, and the one that holds
//! nothing.
use vstd::prelude::*;
use crate::ids::Uuid;
use crate::registry::config::ModelRegistryConfig;

verus! {

/// The cache to install.
#[derive(Clone, Copy, Debug, PartialEq, Eq, Structural)]
pub enum CacheChoice {
    /// The shared cache, whose entries live for the given number of seconds.
    Shared { ttl_seconds: u64 },
    /// [`NoopResolutionCache`].
    Noop,
}

/// Chooses the cache: the shared one where it is configured and there is one.
pub fn choose_cache(config: &ModelRegistryConfig, shared_is_bound: bool) -> (r: CacheChoice)
    ensures
        r == if config.cache_enabled && shared_is_bound {
            CacheChoice::Shared { ttl_seconds: config.chain_cache_ttl_seconds }
        } else {
            CacheChoice::Noop
        },
{
    if config.cache_enabled && shared_is_bound {
        CacheChoice::Shared { ttl_seconds: config.chain_cache_ttl_seconds }
    } else {
        CacheChoice::Noop
    }
}

/// A cache that always misses and never stores.
#[derive(Clone, Copy, Debug)]
pub struct NoopResolutionCache;

impl NoopResolutionCache {
    /// Misses, whatever was stored before.
    pub fn get_chain(&self, tenant_id: Uuid) -> (r: Option<Vec<Uuid>>)
        ensures
            r is None,
    {
        None
    }

    /// Stores nothing.
    pub fn put_chain(&mut self, tenant_id: Uuid, chain: &[Uuid])
        ensures
            *final(self) == *old(self),
    {
    }
}

} // verus!
