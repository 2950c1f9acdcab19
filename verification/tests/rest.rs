use gears::ids::{Timestamp, Uuid};
use gears::registry::models::{
    ApprovalStatus, LifecycleStatus, ModelInfoV1, ModelManagementV1, ModelV1, ProviderStatus,
    ProviderV1,
};
use gears::registry::query::{Page, PageInfo};
use gears::registry::rest::dto::{
    nullable, CreateModelRequestDto, CreateProviderRequestDto, ProviderDto, UpdateModelRequestDto,
    UpdateProviderRequestDto,
};
use gears::registry::rest::handlers::{
    create_model_request, create_provider_request, management_list, model_list, page_info_dto,
    provider_list, update_model_request, update_provider_request,
};
use gears::registry::rest::problem::{CanonicalError, FieldViolation, InvalidArgument};
use gears::registry::rest::orderby::parse_orderby;
use gears::registry::rest::routes::{
    authenticate, BodySchema, Endpoint, ListedFields, Method, ENDPOINTS, LICENSE_FEATURE,
};
use gears::registry::security::SecurityContext;

fn json(text: &str) -> serde_json::Value {
    serde_json::from_str(text).unwrap()
}

fn violation(err: CanonicalError) -> FieldViolation {
    match err {
        CanonicalError::InvalidArgument {
            ctx: InvalidArgument::FieldViolations { field_violations },
        } => field_violations[0].clone(),
        other => panic!("unexpected {other:?}"),
    }
}

fn provider() -> ProviderV1 {
    ProviderV1 {
        id: Uuid::from_u128(1),
        tenant_id: Uuid::from_u128(2),
        slug: "openai".to_owned(),
        name: "OpenAI".to_owned(),
        gts_type: "gts.cf.genai.model.provider.v1~cf.genai._.openai.v1~".to_owned(),
        status: ProviderStatus::Disabled,
        managed: true,
        metadata: Some(json(r#"{"k": 1}"#)),
        discovery_enabled: true,
        discovery_interval_seconds: Some(60),
        created_at: Timestamp::new(0, 0).unwrap(),
        updated_at: Timestamp::new(1_431_648_000, 500_000_000).unwrap(),
    }
}

fn model() -> ModelV1 {
    let object = || json("{}");
    ModelV1 {
        id: Uuid::from_u128(3),
        tenant_id: Uuid::from_u128(2),
        provider_id: Uuid::from_u128(1),
        canonical_id: "openai::gpt-4o".to_owned(),
        lifecycle_status: LifecycleStatus::Preview,
        approval_status: ApprovalStatus::Revoked,
        info: ModelInfoV1 {
            gts_type: "t".to_owned(),
            display_name: "d".to_owned(),
            description: None,
            family: None,
            vendor: None,
            managed: false,
            architecture: None,
            size_bytes: None,
            format: None,
            region: None,
            hosted_by: None,
            last_release_at: None,
            reasoning_level: None,
            version: None,
            sort_order: None,
            icon: None,
            multiplier_display: None,
            performance: object(),
            additional_info: object(),
            supported_api: vec![],
            provider_model_id: "gpt-4o".to_owned(),
            capabilities: object(),
            disabled_capabilities: object(),
            context_window: object(),
            default_parameters: object(),
            allow_parameter_override: true,
            allow_extra_params: vec![],
            provider_settings: object(),
        },
    }
}

fn empty_update() -> UpdateModelRequestDto {
    UpdateModelRequestDto {
        approval_status: None,
        lifecycle_status: None,
        display_name: None,
        description: None,
        family: None,
        vendor: None,
        managed: None,
        architecture: None,
        size_bytes: None,
        format: None,
        region: None,
        hosted_by: None,
        reasoning_level: None,
        version: None,
        sort_order: None,
        icon: None,
        multiplier_display: None,
        performance: None,
        capabilities: None,
        disabled_capabilities: None,
        context_window: None,
        default_parameters: None,
        allow_parameter_override: None,
        allow_extra_params: None,
        provider_settings: None,
    }
}

fn page<T>(items: Vec<T>, limit: u64) -> Page<T> {
    Page {
        items,
        page_info: PageInfo { next_cursor: Some("n".to_owned()), prev_cursor: None, limit },
    }
}

#[test]
fn a_provider_is_shown() {
    let dto = ProviderDto::from(provider());
    assert_eq!(dto.id, Uuid::from_u128(1));
    assert_eq!(dto.slug, "openai");
    assert_eq!(dto.name, "OpenAI");
    assert_eq!(dto.gts_type, "gts.cf.genai.model.provider.v1~cf.genai._.openai.v1~");
    assert_eq!(dto.status, "disabled");
    assert!(dto.managed && dto.discovery_enabled);
    assert_eq!(dto.metadata, Some(json(r#"{"k": 1}"#)));
    assert_eq!(dto.discovery_interval_seconds, Some(60));
    assert_eq!(dto.created_at, "1970-01-01T00:00:00+00:00");
    assert_eq!(dto.updated_at, "2015-05-15T00:00:00.500+00:00");
}

#[test]
fn an_instant_out_of_range_is_refused() {
    assert!(Timestamp::new(i64::MAX, 0).is_none());
    assert!(Timestamp::new(0, 2_000_000_000).is_none());
}

#[test]
fn a_body_becomes_a_provider_request() {
    let request = create_provider_request(CreateProviderRequestDto {
        slug: "s".to_owned(),
        name: "n".to_owned(),
        gts_type: "gts.x~".to_owned(),
        managed: true,
        metadata: Some(json("[1]")),
        discovery_enabled: true,
        discovery_interval_seconds: Some(7),
    });
    assert_eq!(request.slug(), "s");
    assert_eq!(request.name(), "n");
    assert_eq!(request.gts_type(), "gts.x~");
    assert!(request.managed() && request.discovery_enabled());
    assert_eq!(request.metadata(), Some(&json("[1]")));
    assert_eq!(request.discovery_interval_seconds(), Some(7));
    let bare = create_provider_request(CreateProviderRequestDto {
        slug: "s".to_owned(),
        name: "n".to_owned(),
        gts_type: "g".to_owned(),
        managed: false,
        metadata: None,
        discovery_enabled: false,
        discovery_interval_seconds: None,
    });
    assert!(!bare.managed() && !bare.discovery_enabled());
    assert_eq!(bare.metadata(), None);
    assert_eq!(bare.discovery_interval_seconds(), None);
}

#[test]
fn a_body_becomes_a_provider_change() {
    let dto = UpdateProviderRequestDto {
        name: Some("n".to_owned()),
        status: Some("disabled".to_owned()),
        metadata: Some(None),
        discovery_interval_seconds: Some(Some(5)),
        ..UpdateProviderRequestDto::default()
    };
    let request = update_provider_request(dto).unwrap();
    assert_eq!(request.status, Some(ProviderStatus::Disabled));
    assert_eq!(request.name.as_deref(), Some("n"));
    assert_eq!(request.metadata, Some(None));
    assert_eq!(request.managed, None);
    assert_eq!(request.discovery_interval_seconds, Some(Some(5)));
    let dto = UpdateProviderRequestDto {
        status: Some("off".to_owned()),
        ..UpdateProviderRequestDto::default()
    };
    let v = violation(update_provider_request(dto).unwrap_err());
    assert_eq!((v.field.as_str(), v.reason.as_str()), ("status", "INVALID_PROVIDER_STATUS"));
}

#[test]
fn a_body_becomes_a_model_request() {
    let dto = |lifecycle: &str, approval: Option<&str>, info: Result<u8, String>| {
        CreateModelRequestDto {
            provider_slug: "openai".to_owned(),
            lifecycle_status: lifecycle.to_owned(),
            approval_status: approval.map(str::to_owned),
            info,
        }
    };
    let request = create_model_request(dto("preview", Some("approved"), Ok(5))).unwrap();
    assert_eq!(request.provider_slug, "openai");
    assert_eq!(request.lifecycle_status, LifecycleStatus::Preview);
    assert_eq!(request.approval_status, Some(ApprovalStatus::Approved));
    assert_eq!(request.info, 5);
    assert_eq!(create_model_request(dto("sunset", None, Ok(1))).unwrap().approval_status, None);
    let bad = || Err("missing field".to_owned());
    let v = violation(create_model_request(dto("x", Some("y"), bad())).unwrap_err());
    assert_eq!(v.reason, "INVALID_LIFECYCLE_STATUS");
    let v = violation(create_model_request(dto("preview", Some("y"), bad())).unwrap_err());
    assert_eq!(v.reason, "INVALID_APPROVAL_STATUS");
    let v = violation(create_model_request(dto("preview", None, bad())).unwrap_err());
    assert_eq!((v.field.as_str(), v.reason.as_str()), ("info", "INVALID_MODEL_INFO"));
    assert_eq!(v.description, "missing field");
}

#[test]
fn a_body_becomes_a_model_change() {
    let mut dto = empty_update();
    dto.approval_status = Some("rejected".to_owned());
    dto.lifecycle_status = Some("experimental".to_owned());
    dto.description = Some(None);
    dto.size_bytes = Some(Some(9));
    dto.sort_order = Some(Some(-1));
    dto.capabilities = Some(Ok(json("{}")));
    dto.provider_settings = Some(json("[2]"));
    let request = update_model_request(dto).unwrap();
    assert_eq!(request.approval_status, Some(ApprovalStatus::Rejected));
    assert_eq!(request.lifecycle_status, Some(LifecycleStatus::Experimental));
    assert_eq!(request.description, Some(None));
    assert_eq!(request.size_bytes, Some(Some(9)));
    assert_eq!(request.sort_order, Some(Some(-1)));
    assert_eq!(request.capabilities, Some(json("{}")));
    assert_eq!(request.performance, None);
    assert_eq!(request.provider_settings, Some(json("[2]")));
}

#[test]
fn the_first_thing_wrong_with_a_model_change_is_told() {
    let mut codes: Vec<String> = Vec::new();
    for fixed in 0..7 {
        let bad = |i: usize, text: &str| if i < fixed { None } else { Some(text.to_owned()) };
        let doc = |i: usize| if i < fixed { Some(Ok(json("{}"))) } else { Some(Err(format!("e{i}"))) };
        let mut dto = empty_update();
        dto.approval_status = bad(0, "x");
        dto.lifecycle_status = bad(1, "x");
        dto.performance = doc(2);
        dto.capabilities = doc(3);
        dto.disabled_capabilities = doc(4);
        dto.context_window = doc(5);
        dto.default_parameters = doc(6);
        let v = violation(update_model_request(dto).unwrap_err());
        if fixed >= 2 {
            assert_eq!(v.description, format!("e{fixed}"));
            assert_eq!(format!("INVALID_{}", v.field.to_uppercase()), v.reason);
        }
        codes.push(v.reason);
    }
    assert_eq!(
        codes,
        [
            "INVALID_APPROVAL_STATUS",
            "INVALID_LIFECYCLE_STATUS",
            "INVALID_PERFORMANCE",
            "INVALID_CAPABILITIES",
            "INVALID_DISABLED_CAPABILITIES",
            "INVALID_CONTEXT_WINDOW",
            "INVALID_DEFAULT_PARAMETERS",
        ]
    );
}

#[test]
fn pages_are_shown() {
    let list = provider_list(page(vec![provider()], 20)).unwrap();
    assert_eq!(list.items.len(), 1);
    assert_eq!(list.items[0].slug, "openai");
    assert_eq!(list.page_info.limit, 20);
    assert_eq!(list.page_info.next_cursor.as_deref(), Some("n"));
    assert_eq!(list.page_info.prev_cursor, None);
    let list = model_list(page(vec![(model(), json("[7]"))], 5)).unwrap();
    assert_eq!(list.items[0].canonical_id, "openai::gpt-4o");
    assert_eq!(list.items[0].lifecycle_status, "preview");
    assert_eq!(list.items[0].approval_status, "revoked");
    assert_eq!(list.items[0].info, json("[7]"));
    let noted =
        ModelManagementV1 { model: model(), provider_disabled: true, available_for_eval: false };
    let list = management_list(page(vec![(noted, json("{}"))], 5)).unwrap();
    assert!(list.items[0].provider_disabled);
    assert!(!list.items[0].available_for_eval);
    assert_eq!(list.items[0].model.provider_id, Uuid::from_u128(1));
}

#[test]
fn a_page_size_beyond_the_wire_is_a_failure() {
    let huge = u32::MAX as u64 + 1;
    let err = provider_list(page(vec![], huge)).unwrap_err();
    assert_eq!(err.status_code(), 500);
    assert_eq!(err.detail(), "page limit exceeds u32 range");
    assert!(model_list(page(vec![], huge)).is_err());
    assert!(management_list(page(vec![], huge)).is_err());
    assert_eq!(page_info_dto(page::<u8>(vec![], huge - 1).page_info).unwrap().limit, u32::MAX);
}

#[test]
fn a_field_that_holds_null_counts_as_given() {
    assert_eq!(nullable::<u8, ()>(Ok(None)), Ok(Some(None)));
    assert_eq!(nullable::<u8, ()>(Ok(Some(1))), Ok(Some(Some(1))));
    assert_eq!(nullable::<u8, &str>(Err("e")), Err("e"));
}

#[test]
fn endpoints_are_distinct() {
    for (i, a) in ENDPOINTS.iter().enumerate() {
        for b in &ENDPOINTS[i + 1..] {
            assert!((a.method(), a.path()) != (b.method(), b.path()));
            assert_ne!(a.operation_id(), b.operation_id());
        }
    }
}

#[test]
fn administration_stands_apart() {
    for e in ENDPOINTS {
        let admin = e.path().starts_with("/model-registry/v1/admin/");
        assert_eq!(e.tag() == "Admin", admin);
        if !admin {
            assert_eq!(e.method(), Method::Get);
        }
    }
    assert_eq!(LICENSE_FEATURE, "gts.cf.core.lic.feat.v1~cf.core.global.base.v1");
}

#[test]
fn endpoints_are_documented() {
    let e = Endpoint::CreateModel;
    assert_eq!(e.method(), Method::Post);
    assert_eq!(e.path(), "/model-registry/v1/admin/models");
    assert_eq!(e.operation_id(), "model_registry.create_model");
    assert_eq!(e.summary(), "Create a model");
    assert!(e.description().starts_with("Manually register a new model"));
    assert_eq!(e.response(), "Model created");
    assert_eq!(e.success(), 201);
    assert_eq!(e.errors(), [400, 401, 403, 404, 409, 422, 500]);
    assert_eq!(e.fields(), None);
    assert_eq!(Endpoint::CreateProvider.errors(), [400, 401, 403, 409, 422, 500]);
    assert_eq!(Endpoint::UpdateProvider.errors(), [400, 401, 403, 404, 409, 422, 500]);
    assert_eq!(Endpoint::DeleteProvider.errors(), [400, 401, 403, 404, 500]);
    assert_eq!(Endpoint::DeleteModel.errors(), [401, 403, 404, 500]);
    assert_eq!(Endpoint::DeleteModel.success(), 204);
    assert_eq!(Endpoint::GetTenantModel.errors(), [401, 403, 404, 500]);
    assert_eq!(Endpoint::ListTenantModels.errors(), [400, 401, 403, 422, 500]);
    assert_eq!(Endpoint::ListProviders.fields(), Some(ListedFields::Providers));
    assert_eq!(Endpoint::ListManagementModels.fields(), Some(ListedFields::Models));
}

#[test]
fn every_endpoint_needs_a_known_caller() {
    assert_eq!(ENDPOINTS.len(), 12);
    let ctx = SecurityContext {
        subject_id: Uuid::from_u128(4),
        subject_tenant_id: Uuid::from_u128(5),
    };
    for e in ENDPOINTS {
        assert_eq!(authenticate(e, Some(ctx)), Ok(ctx));
        assert_eq!(authenticate(e, None), Err(401));
        assert!(e.errors().contains(&401));
    }
}

#[test]
fn an_order_names_fields_and_directions() {
    let keys = parse_orderby(ListedFields::Models, "Vendor desc, canonical_id ,family  ASC").unwrap();
    let read: Vec<(&str, bool)> =
        keys.iter().map(|k| (k.field.as_str(), k.descending)).collect();
    assert_eq!(read, [("vendor", true), ("canonical_id", false), ("family", false)]);
    for (fields, text, bad) in [
        (ListedFields::Models, "cost", "cost"),
        (ListedFields::Models, "vendor,info.vendor desc", "info.vendor desc"),
        (ListedFields::Models, "vendor up", "vendor up"),
        (ListedFields::Models, "vendor desc x", "vendor desc x"),
        (ListedFields::Models, "", ""),
        (ListedFields::Providers, "vendor", "vendor"),
    ] {
        let v = violation(parse_orderby(fields, text).unwrap_err());
        assert_eq!((v.field.as_str(), v.reason.as_str()), ("$orderby", "INVALID_ORDERBY"));
        assert_eq!(
            v.description,
            format!("cannot order by `{bad}`: expected a filterable field, then `asc` or `desc`")
        );
    }
    assert_eq!(parse_orderby(ListedFields::Providers, "slug").unwrap()[0].field, "slug");
}

#[test]
fn bodies_and_parameters_are_documented() {
    for e in ENDPOINTS {
        let takes = matches!(e.method(), Method::Post | Method::Patch);
        assert_eq!(e.request_schema().is_some(), takes);
        assert_eq!(e.request_description().is_some(), takes);
        assert_eq!(e.response_schema().is_none(), e.method() == Method::Delete);
        assert_eq!(e.query_param().is_some(), e == Endpoint::ListManagementModels);
    }
    let e = Endpoint::UpdateModel;
    assert_eq!(e.request_schema().unwrap().name(), "UpdateModelRequestDto");
    assert_eq!(e.request_description(), Some("Model update data"));
    assert_eq!(e.response_schema(), Some(BodySchema::Model));
    assert_eq!(Endpoint::CreateModel.request_description(), Some("Model creation data"));
    assert_eq!(Endpoint::CreateProvider.request_description(), Some("Provider creation data"));
    assert_eq!(Endpoint::UpdateProvider.request_description(), Some("Provider update data"));
    assert_eq!(
        Endpoint::ListManagementModels.response_schema().unwrap().name(),
        "ModelManagementListDto"
    );
    let param = Endpoint::ListManagementModels.query_param().unwrap();
    assert_eq!((param.name, param.required, param.kind), ("include_deprecated", false, "boolean"));
    assert_eq!(
        param.description,
        "Include deprecated and sunset models in the response (default: false)"
    );
}
