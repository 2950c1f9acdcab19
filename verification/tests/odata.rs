use gears::registry::models::{ApprovalStatus, LifecycleStatus, ProviderStatus, SupportedApi};
use gears::registry::odata::builder::QueryBuilder;
use gears::registry::odata::models::{ModelFilterField, ModelSchema, MODEL_MANAGED, MODEL_VENDOR};
use gears::registry::odata::providers::{ProviderFilterField, ProviderSchema, PROVIDER_SLUG};
use gears::registry::odata::values::ODataValue;
use gears::registry::odata::FieldKind;

/// Returns all filterable field names as expected by `OData` API consumers.
fn expected_model_field_names() -> Vec<&'static str> {
    vec![
        "canonical_id",
        "lifecycle_status",
        "approval_status",
        "gts_type",
        "supported_api",
        "provider_model_id",
        "vendor",
        "family",
        "managed",
        "architecture",
        "format",
        "vision",
        "function_calling",
        "streaming",
        "reasoning_effort",
    ]
}

#[test]
fn model_field_names_match_expected() {
    let expected = expected_model_field_names();
    let actual: Vec<&str> = ModelFilterField::FIELDS
        .iter()
        .map(|field| field.name())
        .collect();
    assert_eq!(
        actual, expected,
        "model filter field names must match the API contract"
    );
}

#[test]
fn model_field_kinds_are_correct() {
    for field in ModelFilterField::FIELDS.iter().copied() {
        match field {
            ModelFilterField::Managed
            | ModelFilterField::Vision
            | ModelFilterField::FunctionCalling
            | ModelFilterField::Streaming
            | ModelFilterField::ReasoningEffort => {
                assert_eq!(
                    field.kind(),
                    FieldKind::Bool,
                    "field {field:?} should be Bool"
                );
            }
            _ => {
                assert_eq!(
                    field.kind(),
                    FieldKind::String,
                    "field {field:?} should be String"
                );
            }
        }
    }
}

#[test]
fn model_from_name_resolves_exact_match() {
    assert_eq!(
        ModelFilterField::from_name("lifecycle_status"),
        Some(ModelFilterField::LifecycleStatus)
    );
    assert_eq!(
        ModelFilterField::from_name("canonical_id"),
        Some(ModelFilterField::CanonicalId)
    );
    assert_eq!(
        ModelFilterField::from_name("approval_status"),
        Some(ModelFilterField::ApprovalStatus)
    );
    assert_eq!(
        ModelFilterField::from_name("vision"),
        Some(ModelFilterField::Vision)
    );
    assert_eq!(
        ModelFilterField::from_name("reasoning_effort"),
        Some(ModelFilterField::ReasoningEffort)
    );
}

#[test]
fn model_from_name_is_case_insensitive() {
    assert_eq!(
        ModelFilterField::from_name("LIFECYCLE_STATUS"),
        Some(ModelFilterField::LifecycleStatus)
    );
    assert_eq!(
        ModelFilterField::from_name("Gts_Type"),
        Some(ModelFilterField::GtsType)
    );
}

#[test]
fn model_rejects_non_allowlisted_fields() {
    assert_eq!(ModelFilterField::from_name("provider_settings"), None);
    assert_eq!(ModelFilterField::from_name("default_parameters"), None);
    assert_eq!(ModelFilterField::from_name("additional_info"), None);
    assert_eq!(ModelFilterField::from_name("context_window"), None);
    assert_eq!(ModelFilterField::from_name("cost"), None);
    assert_eq!(ModelFilterField::from_name("nonexistent_field"), None);
}

#[test]
fn model_rejects_jsonb_path_style_fields() {
    // `OData` layer maps to real columns, not JSONB paths
    assert_eq!(ModelFilterField::from_name("info.gts_type"), None);
    assert_eq!(ModelFilterField::from_name("info.supported_api"), None);
    assert_eq!(
        ModelFilterField::from_name("info.capabilities.vision"),
        None
    );
    assert_eq!(ModelFilterField::from_name("info.vendor"), None);
}

#[test]
fn provider_field_names_match_expected() {
    let expected: Vec<&str> = vec![
        "slug",
        "name",
        "status",
        "gts_type",
        "managed",
        "discovery_enabled",
    ];
    let actual: Vec<&str> = ProviderFilterField::FIELDS
        .iter()
        .map(|field| field.name())
        .collect();
    assert_eq!(
        actual, expected,
        "provider filter field names must match the API contract"
    );
}

#[test]
fn provider_field_kinds_are_correct() {
    for field in ProviderFilterField::FIELDS.iter().copied() {
        match field {
            ProviderFilterField::Managed | ProviderFilterField::DiscoveryEnabled => {
                assert_eq!(
                    field.kind(),
                    FieldKind::Bool,
                    "field {field:?} should be Bool"
                );
            }
            _ => {
                assert_eq!(
                    field.kind(),
                    FieldKind::String,
                    "field {field:?} should be String"
                );
            }
        }
    }
}

#[test]
fn provider_from_name_resolves() {
    assert_eq!(
        ProviderFilterField::from_name("slug"),
        Some(ProviderFilterField::Slug)
    );
    assert_eq!(
        ProviderFilterField::from_name("discovery_enabled"),
        Some(ProviderFilterField::DiscoveryEnabled)
    );
}

#[test]
fn provider_rejects_non_allowlisted_fields() {
    assert_eq!(ProviderFilterField::from_name("metadata"), None);
    assert_eq!(
        ProviderFilterField::from_name("discovery_interval_seconds"),
        None
    );
    assert_eq!(ProviderFilterField::from_name("unknown_field"), None);
}

#[test]
fn field_names_carry_over_to_queries() {
    assert_eq!(ModelSchema::field_name(MODEL_VENDOR), "vendor");
    assert_eq!(ProviderSchema::field_name(PROVIDER_SLUG), "slug");
}

#[test]
fn statuses_are_filtered_by_their_wire_text() {
    assert_eq!(
        LifecycleStatus::Sunset.into_odata_value(),
        ODataValue::String("sunset".to_owned())
    );
    assert_eq!(
        ApprovalStatus::Revoked.into_odata_value(),
        ODataValue::String("revoked".to_owned())
    );
    assert_eq!(
        ProviderStatus::Disabled.into_odata_value(),
        ODataValue::String("disabled".to_owned())
    );
    assert_eq!(
        SupportedApi::Completion.into_odata_value(),
        ODataValue::String("completion".to_owned())
    );
}

#[test]
fn a_built_query_holds_every_clause() {
    let filter = MODEL_VENDOR
        .eq(ODataValue::String("O'Neill".to_owned()))
        .and(MODEL_MANAGED.eq(ODataValue::Bool(false)));
    let query = QueryBuilder::new()
        .filter(filter)
        .order_by(MODEL_VENDOR, true)
        .page_size(5)
        .build(|text| text.to_uppercase());
    assert_eq!(
        query.filter.as_deref(),
        Some("vendor eq 'O''Neill' and managed eq false")
    );
    assert_eq!(
        query.filter_hash.as_deref(),
        Some("VENDOR EQ 'O''NEILL' AND MANAGED EQ FALSE")
    );
    let bare = QueryBuilder::new().build(|_| "h".to_owned());
    assert_eq!((bare.filter, bare.filter_hash), (None, None));
    assert_eq!(query.order.len(), 1);
    assert_eq!(query.order[0].field, "vendor");
    assert!(query.order[0].descending);
    assert_eq!(query.limit, Some(5));
    assert_eq!(query.cursor, None);
    assert_eq!(query.select, None);
    let filter = PROVIDER_SLUG.eq(ODataValue::String("openai".to_owned()));
    let query = QueryBuilder::new().filter(filter).build(|_| "h".to_owned());
    assert_eq!(query.filter.as_deref(), Some("slug eq 'openai'"));
}
