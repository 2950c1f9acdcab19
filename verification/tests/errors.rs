use gears::ids::Uuid;
use gears::registry::client::client_result;
use gears::registry::error::{DomainError, EnforcerError, ModelRegistryError};

fn assert_conversion(domain: DomainError, sdk: &ModelRegistryError) {
    let converted = ModelRegistryError::from(domain);
    assert_eq!(converted.to_string(), sdk.to_string());
}

#[test]
fn model_not_found_converts() {
    let domain = DomainError::model_not_found("openai::gpt-4o");
    let sdk = ModelRegistryError::model_not_found("openai::gpt-4o");
    assert_conversion(domain, &sdk);
}

#[test]
fn provider_not_found_converts() {
    let id = Uuid::from_u128(0xfeed_beef);
    let domain = DomainError::provider_not_found(id);
    let sdk = ModelRegistryError::provider_not_found(id);
    assert_conversion(domain, &sdk);
}

#[test]
fn provider_not_found_by_slug_converts() {
    let domain = DomainError::provider_not_found_by_slug("openai");
    let sdk = ModelRegistryError::provider_not_found_by_slug("openai");
    assert_conversion(domain, &sdk);
}

#[test]
fn model_deprecated_converts() {
    let domain = DomainError::model_deprecated("openai::gpt-4o");
    let sdk = ModelRegistryError::model_deprecated("openai::gpt-4o");
    assert_conversion(domain, &sdk);
}

#[test]
fn model_not_approved_converts() {
    let domain = DomainError::model_not_approved("openai::gpt-4o");
    let sdk = ModelRegistryError::model_not_approved("openai::gpt-4o");
    assert_conversion(domain, &sdk);
}

#[test]
fn forbidden_converts() {
    let domain = DomainError::forbidden("no access");
    let sdk = ModelRegistryError::forbidden("no access");
    assert_conversion(domain, &sdk);
}

#[test]
fn provider_disabled_converts() {
    let id = Uuid::from_u128(0xfeed_beef);
    let domain = DomainError::provider_disabled(id);
    let sdk = ModelRegistryError::provider_disabled(id);
    assert_conversion(domain, &sdk);
}

#[test]
fn provider_conflict_converts() {
    let domain = DomainError::provider_conflict("openai");
    let sdk = ModelRegistryError::provider_conflict("openai");
    assert_conversion(domain, &sdk);
}

#[test]
fn invalid_transition_converts() {
    let domain = DomainError::invalid_transition("cannot deprecate from preview");
    let sdk = ModelRegistryError::invalid_transition("cannot deprecate from preview");
    assert_conversion(domain, &sdk);
}

#[test]
fn validation_converts() {
    let domain = DomainError::validation("slug cannot be empty");
    let sdk = ModelRegistryError::validation("slug cannot be empty");
    assert_conversion(domain, &sdk);
}

#[test]
fn internal_without_source_converts() {
    let domain = DomainError::internal("db pool exhausted");
    let sdk = ModelRegistryError::internal("db pool exhausted");
    assert_conversion(domain, &sdk);
}

#[test]
fn internal_with_source_converts() {
    let upstream = std::io::Error::new(std::io::ErrorKind::ConnectionReset, "rst");
    let domain = DomainError::internal_from("oagw call failed", upstream.to_string());
    match domain {
        DomainError::Internal { detail, source } => {
            assert_eq!(detail, "oagw call failed");
            assert!(source.is_some());
            assert!(source.unwrap().to_string().contains("rst"));
        }
        other => panic!("expected Internal variant, got {other:?}"),
    }
}

#[test]
fn internal_with_source_converts_to_sdk() {
    let upstream = std::io::Error::new(std::io::ErrorKind::ConnectionReset, "rst");
    let domain = DomainError::internal_from("oagw call failed", upstream.to_string());
    let sdk = ModelRegistryError::from(domain);
    assert_eq!(sdk.to_string(), "internal error: oagw call failed");
    let source = sdk.source().expect("source preserved");
    assert!(source.to_string().contains("rst"));
}

#[test]
fn database_converts_to_internal_sdk() {
    let domain = DomainError::Database("unknown DSN: test".to_owned());
    let sdk = ModelRegistryError::from(domain);
    assert!(sdk.to_string().contains("internal error"));
}

#[test]
fn model_not_found_display() {
    let err = DomainError::model_not_found("openai::gpt-4o");
    assert_eq!(err.to_string(), "model not found: openai::gpt-4o");
}

#[test]
fn provider_not_found_display() {
    let id = Uuid::from_u128(0);
    let err = DomainError::provider_not_found(id);
    assert_eq!(err.to_string(), format!("provider not found: {}", id.to_text()));
}

#[test]
fn provider_not_found_by_slug_display() {
    let err = DomainError::provider_not_found_by_slug("openai");
    assert_eq!(
        err.to_string(),
        "provider with slug `openai` not found"
    );
}

#[test]
fn validation_display() {
    let err = DomainError::validation("invalid slug");
    assert_eq!(err.to_string(), "validation error: invalid slug");
}

#[test]
fn forbidden_display() {
    let err = DomainError::forbidden("no access");
    assert_eq!(err.to_string(), "forbidden: no access");
}

#[test]
fn provider_conflict_display() {
    let err = DomainError::provider_conflict("openai");
    assert_eq!(err.to_string(), "provider slug already exists: openai");
}

#[test]
fn invalid_transition_display() {
    let err = DomainError::invalid_transition("bad state");
    assert_eq!(err.to_string(), "invalid state transition: bad state");
}

#[test]
fn provider_has_models_converts_to_sdk() {
    let id = Uuid::from_u128(0xfeed_beef);
    let domain = DomainError::provider_has_models(id, 5);
    let sdk = ModelRegistryError::from(domain);
    assert_eq!(sdk.to_string(), format!("provider has 5 existing model(s): {}", id.to_text()));
}

#[test]
fn test_domain_error_to_sdk_error_mapping() {
    // Every variant (Database maps to Internal).
    let cases: Vec<(DomainError, &str)> = vec![
        (DomainError::model_not_found("m1"), "model not found: m1"),
        (
            DomainError::provider_not_found(Uuid::from_u128(0)),
            "provider not found: 00000000-0000-0000-0000-000000000000",
        ),
        (DomainError::model_deprecated("m1"), "model deprecated: m1"),
        (
            DomainError::model_not_approved("m1"),
            "model not approved for tenant: m1",
        ),
        (DomainError::forbidden("no access"), "forbidden: no access"),
        (
            DomainError::provider_disabled(Uuid::from_u128(0)),
            "provider disabled: 00000000-0000-0000-0000-000000000000",
        ),
        (
            DomainError::provider_conflict("openai"),
            "provider slug already exists: openai",
        ),
        (
            DomainError::invalid_transition("bad"),
            "invalid state transition: bad",
        ),
        (
            DomainError::validation("invalid"),
            "validation error: invalid",
        ),
        (DomainError::internal("oops"), "internal error: oops"),
    ];

    for (domain, expected_msg) in cases {
        let sdk = ModelRegistryError::from(domain);
        assert_eq!(sdk.to_string(), expected_msg);
    }
}


#[test]
fn provider_has_models_display() {
    let err = DomainError::provider_has_models(Uuid::from_u128(7), 12);
    assert_eq!(
        err.to_string(),
        "provider has existing models: cannot delete provider with 12 model(s)"
    );
}

#[test]
fn every_other_text_is_exact() {
    let id = Uuid::from_u128(0x0123_4567_89ab_cdef_0123_4567_89ab_cdef);
    let text = "01234567-89ab-cdef-0123-456789abcdef";
    assert_eq!(id.to_text(), text);
    assert_eq!(
        DomainError::model_not_found_by_id(id).to_string(),
        format!("model not found: {text}")
    );
    assert_eq!(DomainError::model_deprecated("a::b").to_string(), "model deprecated: a::b");
    assert_eq!(DomainError::model_not_approved("a::b").to_string(), "model not approved: a::b");
    assert_eq!(DomainError::provider_not_owned("s").to_string(), "provider not owned: s");
    assert_eq!(
        DomainError::provider_disabled(id).to_string(),
        format!("provider disabled: {text}")
    );
    assert_eq!(DomainError::internal("x").to_string(), "internal error: x");
    assert_eq!(DomainError::Database("down".to_owned()).to_string(), "database error: down");
}

#[test]
fn a_provider_not_owned_is_forbidden_to_callers() {
    let sdk = ModelRegistryError::from(DomainError::provider_not_owned("openai"));
    assert_eq!(sdk.to_string(), "forbidden: provider not owned: openai");
}

#[test]
fn decisions_become_errors() {
    let denied = EnforcerError::Denied { deny_reason: None };
    assert_eq!(DomainError::from(denied).to_string(), "forbidden: access denied");
    let denied = EnforcerError::Denied { deny_reason: Some("\"quota\"".to_owned()) };
    assert_eq!(DomainError::from(denied).to_string(), "forbidden: access denied: \"quota\"");
    let failed = EnforcerError::EvaluationFailed { source: "timeout".to_owned() };
    match DomainError::from(failed) {
        DomainError::Internal { detail, source } => {
            assert_eq!(detail, "authorization evaluation failed");
            assert_eq!(source.as_deref(), Some("timeout"));
        }
        other => panic!("unexpected {other:?}"),
    }
    let failed = EnforcerError::CompileFailed { source: "bad".to_owned() };
    assert_eq!(
        DomainError::from(failed).to_string(),
        "internal error: authorization constraint compilation failed"
    );
}

#[test]
fn callers_see_results_and_public_errors() {
    assert_eq!(client_result(Ok(5)).unwrap(), 5);
    let err = client_result::<()>(Err(DomainError::validation("v"))).unwrap_err();
    assert_eq!(err.to_string(), "validation error: v");
}
