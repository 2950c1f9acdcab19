use gears::registry::config::{ConfigKeys, ModelRegistryConfig};

fn parse(json: &str) -> ModelRegistryConfig {
    let value: serde_json::Value = serde_json::from_str(json).unwrap();
    let small = |key: &str| value.get(key).and_then(|v| v.as_u64()).map(|n| n as u32);
    ModelRegistryConfig::from_keys(ConfigKeys {
        chain_cache_ttl_seconds: value.get("chain_cache_ttl_seconds").and_then(|v| v.as_u64()),
        cache_enabled: value.get("cache_enabled").and_then(|v| v.as_bool()),
        default_page_size: small("default_page_size"),
        max_page_size: small("max_page_size"),
    })
}

#[test]
fn test_default_config() {
    let config = ModelRegistryConfig::default();
    assert_eq!(config.chain_cache_ttl_seconds, 30);
    assert!(config.cache_enabled);
    assert_eq!(config.default_page_size, 20);
    assert_eq!(config.max_page_size, 100);
}

#[test]
fn test_deserialize_empty_json() {
    let config = parse("{}");
    assert_eq!(config.chain_cache_ttl_seconds, 30);
    assert!(config.cache_enabled);
    assert_eq!(config.default_page_size, 20);
    assert_eq!(config.max_page_size, 100);
}

#[test]
fn test_deserialize_partial_json() {
    let config = parse(r#"{"chain_cache_ttl_seconds": 3600}"#);
    assert_eq!(config.chain_cache_ttl_seconds, 3600);
    assert!(config.cache_enabled);
    assert_eq!(config.default_page_size, 20);
    assert_eq!(config.max_page_size, 100);
}

#[test]
fn test_deserialize_full_json() {
    let config = parse(
        r#"{
            "chain_cache_ttl_seconds": 120,
            "cache_enabled": false,
            "default_page_size": 10,
            "max_page_size": 50
        }"#,
    );
    assert_eq!(config.chain_cache_ttl_seconds, 120);
    assert!(!config.cache_enabled);
    assert_eq!(config.default_page_size, 10);
    assert_eq!(config.max_page_size, 50);
}

#[test]
fn test_unknown_ttl_keys_are_ignored() {
    let config = parse(r#"{"cache_ttl_seconds": 600, "inherited_ttl_seconds": 300}"#);
    assert_eq!(config.chain_cache_ttl_seconds, 30);
}

#[test]
fn test_page_limits_uses_configured_keys() {
    let cfg = ModelRegistryConfig { default_page_size: 3, max_page_size: 7, ..Default::default() };
    let limits = cfg.page_limits();
    assert_eq!(limits.limit_cfg().default, 3);
    assert_eq!(limits.limit_cfg().max, 7);
    assert_eq!(limits.clamp(None), 3, "no $top falls back to the default");
    assert_eq!(limits.clamp(Some(5)), 5, "$top within bounds is honoured");
    assert_eq!(limits.clamp(Some(99)), 7, "$top above the maximum is capped");
    assert_eq!(limits.clamp(Some(0)), 1, "$top=0 is floored at one row");
}

#[test]
fn test_page_limits_floors_zeroes_at_one() {
    let cfg = ModelRegistryConfig { default_page_size: 0, max_page_size: 0, ..Default::default() };
    let limits = cfg.page_limits();
    assert_eq!(limits.limit_cfg().default, 1);
    assert_eq!(limits.limit_cfg().max, 1);
    assert_eq!(limits.clamp(None), 1);
}

#[test]
fn test_page_limits_caps_default_at_max() {
    let cfg =
        ModelRegistryConfig { default_page_size: 50, max_page_size: 10, ..Default::default() };
    let limits = cfg.page_limits();
    assert_eq!(limits.limit_cfg().default, 10);
    assert_eq!(limits.clamp(None), 10);
}

#[test]
fn the_largest_page_size_is_kept() {
    let cfg = ModelRegistryConfig {
        default_page_size: u32::MAX,
        max_page_size: u32::MAX,
        ..Default::default()
    };
    assert_eq!(cfg.page_limits().clamp(Some(u64::MAX)), u32::MAX as u64);
}
