use gears::registry::models::{ApprovalStatus, LifecycleStatus, ProviderStatus};
use gears::registry::query::ODataQuery;
use gears::registry::rest::parse::{
    approval_status, lifecycle_status, provider_status, reject_select, AdminModelsQuery,
};
use gears::registry::rest::problem::{CanonicalError, InvalidArgument};

/// Assert the error is a 400 whose single field violation carries the
/// documented field name and reason code, and names the accepted values.
fn assert_violation(err: &CanonicalError, field: &str, code: &str, expected_values: &[&str]) {
    assert_eq!(err.status_code(), 400, "status");
    let CanonicalError::InvalidArgument {
        ctx: InvalidArgument::FieldViolations { field_violations },
        ..
    } = err
    else {
        panic!("expected field violations, got {err:?}");
    };
    assert_eq!(field_violations.len(), 1);
    let v = &field_violations[0];
    assert_eq!(v.field, field);
    assert_eq!(v.reason, code);
    for value in expected_values {
        assert!(
            v.description.contains(value),
            "description must name `{value}`, got `{}`",
            v.description
        );
    }
}

#[test]
fn provider_status_parses_every_variant() {
    for variant in &ProviderStatus::ALL {
        let parsed = provider_status(variant.as_str()).expect("wire value must parse");
        assert_eq!(parsed, *variant);
    }
}

#[test]
fn lifecycle_status_parses_every_variant() {
    for variant in &LifecycleStatus::ALL {
        let parsed = lifecycle_status(variant.as_str()).expect("wire value must parse");
        assert_eq!(parsed, *variant);
    }
}

#[test]
fn approval_status_parses_every_variant() {
    for variant in &ApprovalStatus::ALL {
        let parsed = approval_status(variant.as_str()).expect("wire value must parse");
        assert_eq!(parsed, *variant);
    }
}

#[test]
fn provider_status_rejects_unknown_value() {
    let err = provider_status("Active").expect_err("uppercase is not a wire value");
    assert_violation(
        &err,
        "status",
        "INVALID_PROVIDER_STATUS",
        &["Active", "active", "disabled"],
    );
}

#[test]
fn lifecycle_status_rejects_unknown_value() {
    let err = lifecycle_status("retired").expect_err("not a lifecycle status");
    assert_violation(
        &err,
        "lifecycle_status",
        "INVALID_LIFECYCLE_STATUS",
        &["retired", "production", "sunset"],
    );
}

#[test]
fn approval_status_rejects_unknown_value() {
    let err = approval_status("").expect_err("empty is not an approval status");
    assert_violation(
        &err,
        "approval_status",
        "INVALID_APPROVAL_STATUS",
        &["pending", "revoked"],
    );
}

#[test]
fn reject_select_accepts_query_without_select() {
    reject_select(&ODataQuery::default()).expect("no $select is fine");
}

#[test]
fn reject_select_rejects_query_with_select() {
    let query = ODataQuery::default().with_select(vec!["vendor".to_owned()]);
    let err = reject_select(&query).expect_err("$select is unsupported");
    assert_violation(&err, "$select", "UNSUPPORTED_SELECT", &["not supported"]);
}

#[test]
fn admin_models_query_defaults_include_deprecated_false() {
    let query = AdminModelsQuery::default();
    assert!(!query.include_deprecated);
}

#[test]
fn admin_models_query_parses_include_deprecated() {
    // Verify the Default impl matches what axum Query extraction would give
    // when `include_deprecated` is absent (the `#[serde(default)]` path).
    let query = AdminModelsQuery {
        include_deprecated: true,
    };
    assert!(query.include_deprecated);
}

#[test]
fn an_unknown_status_is_described_in_full() {
    let err = lifecycle_status("retired").unwrap_err();
    assert_eq!(
        err.detail(),
        "unknown value `retired`, expected one of: production, preview, experimental, \
         deprecated, sunset"
    );
}
