use gears::gateway::extension::{serialize_tagged, tag_of, Extension, TagError};
use gears::gateway::items::{DataOutput, ItemStatus, MessageOutput, OutputItem};
use gears::gateway::content::{OutputContentPart, OutputText};
use gears::gateway::responses::Role;
use gears::gateway::streaming::{
    read_event, write_event, ContentDeltaEvent, DataEvent, EventKind, EventPayload,
    OutputItemAddedEvent, StreamingEvent, StreamingEventShape, WireEvent,
};
use gears::gateway::tools::{
    read_tool, write_tool, FunctionTool, ImageGenerationTool, Tool, ToolKind, ToolPayload,
    ToolReference, WireTool,
};

fn json(text: &str) -> serde_json::Value {
    serde_json::from_str(text).unwrap()
}

fn owned(kind: EventKind, text: &str) -> WireEvent {
    WireEvent::Core { kind, document: json(text) }
}

#[test]
fn output_item_added_roundtrips() {
    let event = StreamingEvent::OutputItemAdded(OutputItemAddedEvent {
        sequence_number: 3,
        output_index: 0,
        item: OutputItem::Message(MessageOutput {
            id: "m1".into(),
            status: ItemStatus::InProgress,
            role: Role::Assistant,
            content: vec![OutputContentPart::OutputText(OutputText {
                text: "hi".into(),
                annotations: vec![],
                logprobs: None,
            })],
        }),
    });
    let kind = event.kind().unwrap();
    assert_eq!(kind.tag(), "response.output_item.added");
    let (taken, payload) = event.clone().into_parts().unwrap();
    assert_eq!(taken, kind);
    let written = write_event(owned(kind, r#"{"sequence_number": 3, "output_index": 0}"#)).unwrap();
    match read_event(written) {
        WireEvent::Core { kind: read, .. } => {
            assert_eq!(StreamingEvent::from_parts(read, payload).unwrap(), event);
        }
        other => panic!("expected a core event, got {other:?}"),
    }
}

#[test]
fn refusal_and_reasoning_share_delta_shape() {
    let delta = ContentDeltaEvent {
        sequence_number: 1,
        item_id: "i1".into(),
        output_index: 0,
        content_index: 0,
        delta: "no".into(),
    };
    assert_eq!(EventKind::RefusalDelta.shape(), EventKind::ReasoningDelta.shape());
    let refusal = StreamingEvent::from_parts(
        EventKind::RefusalDelta,
        EventPayload::ContentDelta(delta),
    )
    .unwrap();
    assert!(matches!(refusal, StreamingEvent::RefusalDelta(_)));
    let wire = json(
        r#"{"type": "response.reasoning.delta", "sequence_number": 2, "item_id": "i1",
            "output_index": 0, "content_index": 0, "delta": "thinking"}"#,
    );
    let (kind, document) = match read_event(wire) {
        WireEvent::Core { kind, document } => (kind, document),
        other => panic!("expected a core event, got {other:?}"),
    };
    let number = |name: &str| document[name].as_u64().unwrap();
    let text = |name: &str| document[name].as_str().unwrap().to_owned();
    let payload = EventPayload::ContentDelta(ContentDeltaEvent {
        sequence_number: number("sequence_number"),
        item_id: text("item_id"),
        output_index: number("output_index") as u32,
        content_index: number("content_index") as u32,
        delta: text("delta"),
    });
    match StreamingEvent::from_parts(kind, payload).unwrap() {
        StreamingEvent::ReasoningDelta(read) => {
            assert_eq!(read.sequence_number, 2);
            assert_eq!(read.delta, "thinking");
        }
        other => panic!("expected a reasoning delta, got {other:?}"),
    }
}

#[test]
fn data_done_roundtrips_with_gears_discriminator() {
    let event = StreamingEvent::DataDone(DataEvent {
        sequence_number: 7,
        output_index: 0,
        item: DataOutput {
            id: "d1".into(),
            status: ItemStatus::Completed,
            mime_type: "image/png".into(),
            base64: Some("AAAA".into()),
            url: None,
        },
    });
    let kind = event.kind().unwrap();
    let document = r#"{"sequence_number": 7, "output_index": 0, "item": {"id": "d1",
        "status": "completed", "mime_type": "image/png", "base64": "AAAA"}}"#;
    let value = write_event(owned(kind, document)).unwrap();
    assert_eq!(value["type"], "cf_gears:response.data.done");
    assert_eq!(value["sequence_number"], 7);
    match read_event(value.clone()) {
        WireEvent::Core { kind: read, document } => {
            assert_eq!(read, kind);
            assert_eq!(document, value);
            let text = |name: &str| document["item"][name].as_str().unwrap().to_owned();
            assert_eq!(text("status"), "completed");
            let payload = EventPayload::Data(DataEvent {
                sequence_number: document["sequence_number"].as_u64().unwrap(),
                output_index: document["output_index"].as_u64().unwrap() as u32,
                item: DataOutput {
                    id: text("id"),
                    status: ItemStatus::Completed,
                    mime_type: text("mime_type"),
                    base64: Some(text("base64")),
                    url: None,
                },
            });
            assert_eq!(StreamingEvent::from_parts(read, payload).unwrap(), event);
        }
        other => panic!("expected a core event, got {other:?}"),
    }
}

#[test]
fn unknown_event_type_preserved_as_other() {
    let wire = json(
        r#"{"type": "openai:web_search_call.searching", "sequence_number": 9,
            "output_index": 0, "extra": {"query": "rust"}}"#,
    );
    let event = read_event(wire.clone());
    assert!(matches!(event, WireEvent::Other(_)));
    assert_eq!(write_event(event).unwrap(), wire);
    let ext = Extension(wire.clone());
    assert_eq!(ext.kind(), Some("openai:web_search_call.searching"));
    let event = StreamingEvent::Other(ext);
    assert_eq!(event.kind(), None);
    assert_eq!(event.into_parts().unwrap_err().0, wire);
}

#[test]
fn a_document_without_a_textual_type_is_kept() {
    for text in [r#"{"type": 5}"#, "{}", "[1]", "\"response.created\"", "null"] {
        assert_eq!(tag_of(&json(text)), None);
        assert!(matches!(read_event(json(text)), WireEvent::Other(_)));
        assert!(matches!(read_tool(json(text)), WireTool::Other(_)));
    }
    assert_eq!(Extension(json("{}")).kind(), None);
}

#[test]
fn a_payload_must_be_an_object() {
    let err = serialize_tagged("error", json("[]")).unwrap_err();
    assert_eq!(err, TagError::NotAnObject);
    assert_eq!(err.to_string(), "tagged enum payload did not serialize to a JSON object");
    assert!(write_event(owned(EventKind::Error, "5")).is_err());
    assert!(write_tool(WireTool::Core { kind: ToolKind::Function, document: json("1") }).is_err());
}

#[test]
fn a_type_in_the_payload_is_replaced() {
    let value = serialize_tagged("error", json(r#"{"type": "x", "a": 1}"#)).unwrap();
    assert_eq!(value, json(r#"{"type": "error", "a": 1}"#));
}

#[test]
fn every_event_tag_is_read_back() {
    let mut seen: Vec<&str> = Vec::new();
    for kind in EventKind::ALL {
        assert_eq!(EventKind::from_tag(kind.tag()), Some(kind));
        assert!(!seen.contains(&kind.tag()));
        seen.push(kind.tag());
        let value = write_event(owned(kind, r#"{"sequence_number": 1}"#)).unwrap();
        assert_eq!(tag_of(&value), Some(kind.tag()));
        assert!(matches!(read_event(value), WireEvent::Core { kind: k, .. } if k == kind));
    }
    assert_eq!(seen.len(), 26);
    assert_eq!(EventKind::from_tag("Response.created"), None);
    assert_eq!(EventKind::from_tag(""), None);
}

#[test]
fn a_payload_of_another_shape_is_handed_back() {
    let payload = EventPayload::ContentDelta(ContentDeltaEvent {
        sequence_number: 1,
        item_id: "i".into(),
        output_index: 0,
        content_index: 0,
        delta: "d".into(),
    });
    assert_eq!(EventKind::Completed.shape(), StreamingEventShape::Snapshot);
    let back = StreamingEvent::from_parts(EventKind::Completed, payload.clone()).unwrap_err();
    assert_eq!(back, payload);
}

#[test]
fn tools_are_told_apart() {
    for kind in ToolKind::ALL {
        assert_eq!(ToolKind::from_tag(kind.tag()), Some(kind));
        let wire = WireTool::Core { kind, document: json(r#"{"name": "f"}"#) };
        let value = write_tool(wire).unwrap();
        assert!(matches!(read_tool(value), WireTool::Core { kind: k, .. } if k == kind));
    }
    assert_eq!(ToolKind::ImageGeneration.tag(), "cf_gears:image_generation");
    let tool = Tool::Reference(ToolReference { schema_id: "s".into() });
    let (kind, payload) = tool.clone().into_parts().unwrap();
    assert_eq!(kind, ToolKind::Reference);
    assert_eq!(Tool::from_parts(kind, payload).unwrap(), tool);
    let images = ToolPayload::ImageGeneration(ImageGenerationTool::default());
    assert!(Tool::from_parts(ToolKind::Function, images).is_err());
    let function = FunctionTool {
        name: "f".into(),
        description: None,
        parameters: None,
        strict: Some(true),
    };
    assert_eq!(Tool::Function(function).kind(), Some(ToolKind::Function));
    let other = json(r#"{"type": "openai:web_search"}"#);
    assert_eq!(write_tool(read_tool(other.clone())).unwrap(), other);
}
