use gears::gateway::content::OutputContentPart;
use gears::gateway::demo::{DemoGateway, ResponseStep};
use gears::gateway::demo_queries::{filter_text_query, production_query};
use gears::gateway::error::{map_registry_err, LlmGatewayError};
use gears::gateway::items::OutputItem;
use gears::gateway::mock_plugin::{mock_response, MockOpenAiPlugin, OpenAiRoute};
use gears::gateway::mock_registry::{
    MockModelRegistry, ANTHROPIC_PROVIDER_TYPE, OPENAI_PROVIDER_TYPE,
};
use gears::gateway::plugin::MediaInputMode;
use gears::gateway::responses::{CreateResponseBody, ResponseInput, ResponseStatus};
use gears::ids::Uuid;
use gears::registry::error::ModelRegistryError;
use gears::registry::security::SecurityContext;
use gears::registry::models::{ApprovalStatus, LifecycleStatus, ModelInfoV1, ModelV1};

fn model(canonical_id: &str, gts_type: &str, name: &str) -> ModelV1 {
    let object = || serde_json::Value::Object(serde_json::Map::new());
    ModelV1 {
        id: Uuid::from_u128(0),
        tenant_id: Uuid::from_u128(0),
        provider_id: Uuid::from_u128(0),
        canonical_id: canonical_id.to_owned(),
        lifecycle_status: LifecycleStatus::Production,
        approval_status: ApprovalStatus::Approved,
        info: ModelInfoV1 {
            gts_type: gts_type.to_owned(),
            display_name: name.to_owned(),
            description: None,
            family: None,
            vendor: None,
            managed: false,
            architecture: None,
            size_bytes: None,
            format: None,
            region: None,
            hosted_by: None,
            last_release_at: None,
            reasoning_level: None,
            version: None,
            sort_order: None,
            icon: None,
            multiplier_display: None,
            performance: object(),
            additional_info: object(),
            supported_api: vec![],
            provider_model_id: name.to_owned(),
            capabilities: object(),
            disabled_capabilities: object(),
            context_window: object(),
            default_parameters: object(),
            allow_parameter_override: true,
            allow_extra_params: vec![],
            provider_settings: serde_json::from_str(r#"{"oagw_alias": "openai-prod"}"#).unwrap(),
        },
    }
}

fn registry() -> MockModelRegistry {
    MockModelRegistry::new(vec![
        model("openai::gpt-4o", OPENAI_PROVIDER_TYPE, "gpt-4o"),
        model("anthropic::sonnet-4", ANTHROPIC_PROVIDER_TYPE, "sonnet-4"),
    ])
}

fn ctx() -> SecurityContext {
    SecurityContext { subject_id: Uuid::from_u128(6), subject_tenant_id: Uuid::from_u128(7) }
}

fn body(model: &str) -> CreateResponseBody {
    CreateResponseBody {
        model: model.to_owned(),
        input: Some(ResponseInput::Text("Hello, gateway!".to_owned())),
    }
}

#[test]
fn a_model_goes_to_the_plugin_of_its_provider() {
    let (gateway, place) = DemoGateway::new().register(OPENAI_PROVIDER_TYPE);
    let registry = registry();
    let (asker, asked, kept) = match gateway.create_response(&ctx(), body("openai::gpt-4o")) {
        ResponseStep::AskRegistry { ctx, canonical_id, body } => (ctx, canonical_id, body),
        other => panic!("unexpected {other:?}"),
    };
    assert_eq!(asker, ctx());
    assert_eq!(asked, "openai::gpt-4o");
    let found = registry.get_tenant_model(&asked).map(Clone::clone);
    match gateway.with_model(asker, kept, found) {
        ResponseStep::CallPlugin { plugin, ctx: caller, call, body: handed } => {
            assert_eq!(plugin, place);
            assert_eq!(caller, ctx());
            assert_eq!(handed, body("openai::gpt-4o"));
            assert_eq!(call.provider_model_id, "gpt-4o");
            assert_eq!(call.provider_type, OPENAI_PROVIDER_TYPE);
            assert_eq!(call.provider_settings["oagw_alias"], "openai-prod");
            assert_eq!(call.request_id, "resp_demo_0001");
        }
        other => panic!("unexpected {other:?}"),
    }
    let answer = mock_response("hi", "m");
    match gateway.with_answer(Ok(answer.clone())) {
        ResponseStep::Done { result } => assert_eq!(result.unwrap(), answer),
        other => panic!("unexpected {other:?}"),
    }
}

#[test]
fn a_model_without_a_plugin_is_an_error() {
    let (gateway, _) = DemoGateway::new().register(OPENAI_PROVIDER_TYPE);
    let registry = registry();
    let found = registry.get_tenant_model("anthropic::sonnet-4").map(Clone::clone);
    let err = match gateway.with_model(ctx(), body("anthropic::sonnet-4"), found) {
        ResponseStep::Done { result } => result.unwrap_err(),
        other => panic!("unexpected {other:?}"),
    };
    assert_eq!(
        err.to_string(),
        format!("provider error: no provider plugin registered for {ANTHROPIC_PROVIDER_TYPE}")
    );
    let found = registry.get_tenant_model("openai::nope").map(Clone::clone);
    match gateway.with_model(ctx(), body("openai::nope"), found) {
        ResponseStep::Done { result } => {
            assert_eq!(result.unwrap_err().to_string(), "model not found: openai::nope");
        }
        other => panic!("unexpected {other:?}"),
    }
}

#[test]
fn registering_again_keeps_the_place() {
    let (gateway, first) = DemoGateway::new().register("a");
    let (gateway, second) = gateway.register("b");
    let (gateway, again) = gateway.register("a");
    assert_eq!((first, second, again), (0, 1, 0));
    assert_eq!(gateway.find("b"), Some(1));
    assert_eq!(gateway.find("c"), None);
}

#[test]
fn an_unknown_model_is_not_found() {
    let registry = registry();
    let err = registry.get_tenant_model("openai::nope").unwrap_err();
    assert_eq!(err.to_string(), "model not found: openai::nope");
    assert_eq!(
        map_registry_err(err),
        LlmGatewayError::ModelNotFound { model: "openai::nope".to_owned() }
    );
    assert_eq!(registry.unsupported().to_string(), "validation error: not implemented in demo");
}

#[test]
fn of_two_models_with_one_id_the_last_counts() {
    let registry = MockModelRegistry::new(vec![model("a::b", "t", "x"), model("a::b", "t", "y")]);
    assert_eq!(registry.get_tenant_model("a::b").unwrap().info.provider_model_id, "y");
}

#[test]
fn registry_errors_keep_their_meaning() {
    assert_eq!(
        map_registry_err(ModelRegistryError::model_not_approved("a::b")),
        LlmGatewayError::ModelNotApproved { model: "a::b".to_owned() }
    );
    let other = map_registry_err(ModelRegistryError::forbidden("no"));
    assert_eq!(other.to_string(), "internal error: forbidden: no");
}

#[test]
fn the_plugin_echoes() {
    let plugin = MockOpenAiPlugin;
    assert!(plugin.capabilities().streaming_transport);
    assert_eq!(plugin.capabilities().media_input, MediaInputMode::UrlForward);
    let route = OpenAiRoute {
        provider_model_id: "gpt-4o".to_owned(),
        oagw_alias: "openai-prod".to_owned(),
    };
    let body = CreateResponseBody {
        model: "openai::gpt-4o".to_owned(),
        input: Some(ResponseInput::Text("Hello, gateway!".to_owned())),
    };
    let response = plugin.create_response(Ok(route.clone()), body).unwrap();
    assert_eq!(response.status, ResponseStatus::Completed);
    assert_eq!(response.model, "openai::gpt-4o");
    let usage = response.usage.unwrap();
    assert_eq!((usage.input_tokens, usage.output_tokens, usage.total_tokens), (8, 12, 20));
    let text = match &response.output[0] {
        OutputItem::Message(message) => match &message.content[0] {
            OutputContentPart::OutputText(text) => text.text.clone(),
            other => panic!("unexpected {other:?}"),
        },
        other => panic!("unexpected {other:?}"),
    };
    assert_eq!(
        text,
        "echo from provider_model_id=gpt-4o via oagw_alias=openai-prod: Hello, gateway!"
    );
    let parts = CreateResponseBody {
        model: "m".to_owned(),
        input: Some(ResponseInput::Items(vec![])),
    };
    let response = plugin.create_response(Ok(route), parts).unwrap();
    assert!(format!("{:?}", response.output).contains("<structured input>"));
    let body = CreateResponseBody { model: "m".to_owned(), input: None };
    let err = plugin.create_response(Err("mismatch".to_owned()), body).unwrap_err();
    assert_eq!(
        err.to_string(),
        "internal error: failed to narrow OpenAI model info: mismatch"
    );
}

#[test]
fn the_canned_response_is_complete() {
    let response = mock_response("hi", "m");
    assert_eq!(response.id, "resp_demo_0001");
    assert_eq!(response.object, "response");
    assert_eq!(f64::from_bits(response.top_p.bits), 1.0);
    assert_eq!(f64::from_bits(response.temperature.bits), 1.0);
    assert_eq!(f64::from_bits(response.presence_penalty.bits), 0.0);
    assert_eq!(f64::from_bits(response.frequency_penalty.bits), 0.0);
    assert_eq!(response.service_tier, "auto");
    assert!(response.parallel_tool_calls);
}

#[test]
fn what_the_demonstration_cannot_do() {
    let gateway = DemoGateway::new();
    assert_eq!(
        gateway.create_response_stream().to_string(),
        "capability not supported: streaming not implemented in demo"
    );
    assert_eq!(
        gateway.create_embedding().to_string(),
        "capability not supported: embeddings not implemented in demo"
    );
}

#[test]
fn the_listings_are_the_same_but_for_production() {
    let text = format!("gts_type eq '{OPENAI_PROVIDER_TYPE}' and streaming eq true");
    let query = filter_text_query(|text| Some(format!("#{}", text.len())));
    assert_eq!(query.filter.as_deref(), Some(text.as_str()));
    assert_eq!(query.filter_hash, Some(format!("#{}", text.len())));
    assert_eq!(query.limit, Some(10));
    assert_eq!(filter_text_query(|_| None).filter_hash, None);
    let query = production_query(|text| format!("#{}", text.len()));
    let more = format!("{text} and lifecycle_status eq 'production'");
    assert_eq!(query.filter.as_deref(), Some(more.as_str()));
    assert_eq!(query.filter_hash, Some(format!("#{}", more.len())));
    assert_eq!(query.select, None);
    assert_eq!(query.order[0].field, "canonical_id");
    assert!(!query.order[0].descending);
    assert_eq!(query.limit, Some(10));
}
