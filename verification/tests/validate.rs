use gears::registry::models::LifecycleStatus;
use gears::registry::query::ODataQuery;
use gears::registry::validate::{
    reject_select, slug_of, validate_discovery_interval, validate_lifecycle_transition,
    validate_name, validate_slug,
};

#[test]
fn test_validate_slug_valid() {
    assert!(validate_slug("openai").is_ok());
    assert!(validate_slug("my-provider-42").is_ok());
    assert!(validate_slug("a").is_ok());
    let long_slug = "a".repeat(64);
    assert!(validate_slug(&long_slug).is_ok());
}

#[test]
fn test_validate_slug_empty() {
    let err = validate_slug("").unwrap_err();
    assert!(err.to_string().contains("slug cannot be empty"));
}

#[test]
fn test_validate_slug_too_long() {
    let slug = "a".repeat(65);
    let err = validate_slug(&slug).unwrap_err();
    assert!(err.to_string().contains("at most 64 characters"));
}

#[test]
fn test_validate_slug_invalid_chars() {
    let err = validate_slug("OpenAI").unwrap_err();
    assert!(err.to_string().contains("lowercase alphanumeric"));

    let err = validate_slug("open_ai").unwrap_err();
    assert!(err.to_string().contains("lowercase alphanumeric"));
}

#[test]
fn a_slug_is_measured_in_characters() {
    let err = validate_slug(&"\u{e9}".repeat(65)).unwrap_err();
    assert!(err.to_string().contains("at most 64 characters"));
    let err = validate_slug(&"\u{e9}".repeat(33)).unwrap_err();
    assert!(err.to_string().contains("lowercase alphanumeric"));
}

#[test]
fn test_validate_name_valid() {
    assert!(validate_name("OpenAI").is_ok());
    assert!(validate_name("Azure OpenAI (EU West)").is_ok());
    assert!(validate_name(&"a".repeat(255)).is_ok());
}

#[test]
fn test_validate_name_empty() {
    let err = validate_name("").unwrap_err();
    assert!(err.to_string().contains("name cannot be empty"));
}

#[test]
fn test_validate_name_too_long() {
    let err = validate_name(&"a".repeat(256)).unwrap_err();
    assert!(err.to_string().contains("at most 255 characters"));
}

#[test]
fn test_validate_name_counts_characters_not_bytes() {
    assert!(validate_name(&"\u{e9}".repeat(255)).is_ok());
    assert!(validate_name(&"\u{e9}".repeat(256)).is_err());
}

#[test]
fn a_discovery_interval_fits_a_signed_column() {
    assert!(validate_discovery_interval(None).is_ok());
    assert!(validate_discovery_interval(Some(2_147_483_647)).is_ok());
    let err = validate_discovery_interval(Some(2_147_483_648)).unwrap_err();
    assert_eq!(
        err.to_string(),
        "validation error: discovery_interval_seconds must not exceed 2147483647 (i32::MAX), \
         got 2147483648"
    );
}

#[test]
fn only_terminal_statuses_are_final() {
    for from in LifecycleStatus::ALL {
        for to in LifecycleStatus::ALL {
            let terminal =
                matches!(from, LifecycleStatus::Deprecated | LifecycleStatus::Sunset);
            assert_eq!(validate_lifecycle_transition(from, to).is_err(), terminal);
        }
    }
    let err = validate_lifecycle_transition(LifecycleStatus::Sunset, LifecycleStatus::Preview)
        .unwrap_err();
    assert_eq!(
        err.to_string(),
        "invalid state transition: cannot transition from terminal status Sunset to Preview"
    );
}

#[test]
fn a_projection_is_refused() {
    assert!(reject_select(&ODataQuery::default()).is_ok());
    let query = ODataQuery::default().with_select(vec![]);
    let err = reject_select(&query).unwrap_err();
    assert_eq!(
        err.to_string(),
        "validation error: $select is not supported by this endpoint; responses always carry \
         every field"
    );
}

#[test]
fn a_slug_ends_at_the_first_separator() {
    assert_eq!(slug_of("openai::gpt-4o").as_deref(), Some("openai"));
    assert_eq!(slug_of("a::b::c").as_deref(), Some("a"));
    assert_eq!(slug_of("::x").as_deref(), Some(""));
    assert_eq!(slug_of("a:::b").as_deref(), Some("a"));
    assert_eq!(slug_of("\u{e9}::b").as_deref(), Some("\u{e9}"));
    assert_eq!(slug_of("a:b"), None);
    assert_eq!(slug_of(""), None);
    assert_eq!(slug_of("a:"), None);
}
