//! Configuration of the model registry, and the page bounds it resolves to.
use vstd::prelude::*;

verus! {

/// Configuration of the model registry.
#[derive(Clone, Copy, Debug)]
pub struct ModelRegistryConfig {
    /// How long, in seconds, a cached ancestor chain stays fresh. The entry is
    /// never invalidated, so this bounds how stale a chain can be.
    pub chain_cache_ttl_seconds: u64,
    /// Whether ancestor chains are cached at all.
    pub cache_enabled: bool,
    /// Page size of a listing whose request names none.
    pub default_page_size: u32,
    /// Largest page size of a listing.
    pub max_page_size: u32,
}

/// Seconds a cached chain stays fresh where the configuration names none.
pub const DEFAULT_CHAIN_CACHE_TTL: u64 = 30;

/// Whether chains are cached where the configuration does not say.
pub const DEFAULT_CACHE_ENABLED: bool = true;

/// Page size of a listing where neither request nor configuration names one.
pub const DEFAULT_PAGE_SIZE: u32 = 20;

/// Largest page size where the configuration names none.
pub const DEFAULT_MAX_PAGE_SIZE: u32 = 100;

impl Default for ModelRegistryConfig {
    fn default() -> (config: Self)
        ensures
            config.chain_cache_ttl_seconds == 30,
            config.cache_enabled,
            config.default_page_size == 20,
            config.max_page_size == 100,
    {
        ModelRegistryConfig {
            chain_cache_ttl_seconds: DEFAULT_CHAIN_CACHE_TTL,
            cache_enabled: DEFAULT_CACHE_ENABLED,
            default_page_size: DEFAULT_PAGE_SIZE,
            max_page_size: DEFAULT_MAX_PAGE_SIZE,
        }
    }
}

/// A configuration as it is written down: a key may be left out.
#[derive(Clone, Copy, Debug)]
pub struct ConfigKeys {
    pub chain_cache_ttl_seconds: Option<u64>,
    pub cache_enabled: Option<bool>,
    pub default_page_size: Option<u32>,
    pub max_page_size: Option<u32>,
}

/// `n` brought into the range from `lo` to `hi`.
pub open spec fn clamped(n: int, lo: int, hi: int) -> int {
    if n < lo {
        lo
    } else if n > hi {
        hi
    } else {
        n
    }
}

fn clamp_u64(n: u64, lo: u64, hi: u64) -> (r: u64)
    requires
        lo <= hi,
    ensures
        r == clamped(n as int, lo as int, hi as int),
{
    if n < lo {
        lo
    } else if n > hi {
        hi
    } else {
        n
    }
}

/// Page bounds in the shape the storage layer's pagination takes.
#[derive(Clone, Copy, Debug, PartialEq, Eq, Structural)]
pub struct LimitCfg {
    pub default: u64,
    pub max: u64,
}

/// Page bounds of the listings. Both are at least one, and the default is no
/// larger than the maximum.
#[derive(Clone, Copy, Debug)]
pub struct PageLimits {
    default: u64,
    max: u64,
}

impl PageLimits {
    /// Page size of a listing whose request names none.
    pub closed spec fn default_limit(self) -> u64 {
        self.default
    }

    /// Largest page size of a listing.
    pub closed spec fn max_limit(self) -> u64 {
        self.max
    }

    #[verifier::type_invariant]
    spec fn in_order(self) -> bool {
        1 <= self.default <= self.max
    }

    /// The bounds as the storage layer takes them.
    #[must_use]
    pub fn limit_cfg(self) -> (cfg: LimitCfg)
        ensures
            cfg.default == self.default_limit(),
            cfg.max == self.max_limit(),
            1 <= cfg.default <= cfg.max,
    {
        proof {
            use_type_invariant(self);
        }
        LimitCfg { default: self.default, max: self.max }
    }

    /// The page size a listing uses for a requested one: the default where the
    /// request names none, at least one, at most the maximum.
    #[must_use]
    pub fn clamp(self, requested: Option<u64>) -> (limit: u64)
        ensures
            limit == clamped(
                match requested {
                    Some(n) => n as int,
                    None => self.default_limit() as int,
                },
                1,
                self.max_limit() as int,
            ),
            1 <= limit <= self.max_limit(),
            requested is None ==> limit == self.default_limit(),
    {
        proof {
            use_type_invariant(self);
        }
        clamp_u64(requested.unwrap_or(self.default), 1, self.max)
    }
}

impl ModelRegistryConfig {
    /// The page bounds of every listing. Both sizes are raised to at least one
    /// and the default is lowered to the maximum.
    #[must_use]
    pub fn page_limits(&self) -> (limits: PageLimits)
        ensures
            limits.max_limit() == clamped(self.max_page_size as int, 1, u32::MAX as int),
            limits.default_limit() == clamped(
                self.default_page_size as int,
                1,
                limits.max_limit() as int,
            ),
            1 <= limits.default_limit() <= limits.max_limit(),
    {
        let max: u64 = clamp_u64(self.max_page_size as u64, 1, u32::MAX as u64);
        PageLimits { default: clamp_u64(self.default_page_size as u64, 1, max), max }
    }

    /// The configuration that the written keys stand for: a key left out takes
    /// its default.
    pub fn from_keys(keys: ConfigKeys) -> (config: ModelRegistryConfig)
        ensures
            config.chain_cache_ttl_seconds == (match keys.chain_cache_ttl_seconds {
                Some(v) => v,
                None => 30u64,
            }),
            config.cache_enabled == (match keys.cache_enabled {
                Some(v) => v,
                None => true,
            }),
            config.default_page_size == (match keys.default_page_size {
                Some(v) => v,
                None => 20u32,
            }),
            config.max_page_size == (match keys.max_page_size {
                Some(v) => v,
                None => 100u32,
            }),
    {
        ModelRegistryConfig {
            chain_cache_ttl_seconds: keys.chain_cache_ttl_seconds.unwrap_or(
                DEFAULT_CHAIN_CACHE_TTL,
            ),
            cache_enabled: keys.cache_enabled.unwrap_or(DEFAULT_CACHE_ENABLED),
            default_page_size: keys.default_page_size.unwrap_or(DEFAULT_PAGE_SIZE),
            max_page_size: keys.max_page_size.unwrap_or(DEFAULT_MAX_PAGE_SIZE),
        }
    }
}

} // verus!
