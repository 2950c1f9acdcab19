//! What the gateway does with what it is given: events and tools on the wire, requests,
//! and the demonstration's models.
use vstd::prelude::*;
use crate::gateway::content::OutputContentPart;
use crate::gateway::demo::{DemoGateway, ResponseStep};
use crate::gateway::demo_queries::{filter_text_query, production_query};
use crate::gateway::error::{map_registry_err, LlmGatewayError};
use crate::gateway::extension::{
    json_members, json_text, serialize_tagged, tag_of, Extension, TagError,
};
use crate::gateway::items::OutputItem;
use crate::gateway::mock_plugin::{mock_response, MockOpenAiPlugin, OpenAiRoute};
use crate::gateway::mock_registry::MockModelRegistry;
use crate::gateway::plugin::ProviderPluginCapabilities;
use crate::gateway::responses::{
    CreateResponseBody, ResponseInput, ResponseResource, ToolChoice, ToolChoiceMode,
};
use crate::gateway::streaming::{
    event_of_kind, law_event_tags_distinct, read_event, write_event, EventKind, EventPayload,
    StreamingEvent, StreamingEventShape, WireEvent,
};
use crate::gateway::tools::{
    law_tool_tags_distinct, read_tool, tool_of_kind, write_tool, Tool, ToolKind, ToolPayload,
    ToolShape, WireTool,
};
use crate::registry::error::ModelRegistryError;
use crate::registry::laws::fields::says_equal;
use crate::registry::models::ModelV1;
use crate::registry::odata::values::ODataValueView;
use crate::registry::query::ODataQuery;
use crate::registry::security::SecurityContext;

verus! {

/// Whether a document is an object with the text `tag` under `type`.
pub open spec fn has_type(value: serde_json::Value, tag: Seq<char>) -> bool {
    &&& json_members(value) is Some
    &&& json_members(value)->0.contains_key("type"@)
    &&& json_text(json_members(value)->0["type"@]) == Some(tag)
}

/// Whether two documents are objects with the same members, but for `type`.
pub open spec fn same_but_type(a: serde_json::Value, b: serde_json::Value) -> bool {
    &&& json_members(a) is Some
    &&& json_members(b) is Some
    &&& json_members(a)->0.remove("type"@) == json_members(b)->0.remove("type"@)
}

/// A payload gets its type and keeps everything else, and the type can be read again.
/// Only what is no object can get none.
pub proof fn law_types_given(
    tag: &str,
    payload: serde_json::Value,
    r: Result<serde_json::Value, TagError>,
    read: Option<&str>,
)
    requires
        call_ensures(serialize_tagged, (tag, payload), r),
        r matches Ok(value) ==> call_ensures(tag_of, (&value,), read),
    ensures
        r is Ok <==> json_members(payload) is Some,
        r matches Ok(value) ==> has_type(value, tag@) && same_but_type(value, payload) && read
            is Some && read->0@ == tag@,
{
}

/// What is told as a document's type is the text under `type`, and nothing is told where
/// there is none.
pub proof fn law_types_told(
    value: serde_json::Value,
    r: Option<&str>,
    extension: Extension,
    kind: Option<&str>,
)
    requires
        call_ensures(tag_of, (&value,), r),
        call_ensures(Extension::kind, (&extension,), kind),
        extension.0 == value,
    ensures
        r matches Some(tag) ==> has_type(value, tag@),
        r is None ==> forall|tag: Seq<char>| !#[trigger] has_type(value, tag),
        kind is Some <==> r is Some,
        kind matches Some(tag) ==> tag@ == r->0@,
{
}

/// The text under `type` of events of a kind.
pub open spec fn event_word(kind: EventKind) -> Seq<char> {
    match kind {
        EventKind::Created => "response.created"@,
        EventKind::InProgress => "response.in_progress"@,
        EventKind::Queued => "response.queued"@,
        EventKind::Completed => "response.completed"@,
        EventKind::Incomplete => "response.incomplete"@,
        EventKind::Failed => "response.failed"@,
        EventKind::OutputItemAdded => "response.output_item.added"@,
        EventKind::OutputItemDone => "response.output_item.done"@,
        EventKind::ContentPartAdded => "response.content_part.added"@,
        EventKind::ContentPartDone => "response.content_part.done"@,
        EventKind::OutputTextDelta => "response.output_text.delta"@,
        EventKind::OutputTextDone => "response.output_text.done"@,
        EventKind::OutputTextAnnotationAdded => "response.output_text.annotation.added"@,
        EventKind::RefusalDelta => "response.refusal.delta"@,
        EventKind::RefusalDone => "response.refusal.done"@,
        EventKind::FunctionCallArgumentsDelta => "response.function_call_arguments.delta"@,
        EventKind::FunctionCallArgumentsDone => "response.function_call_arguments.done"@,
        EventKind::ReasoningDelta => "response.reasoning.delta"@,
        EventKind::ReasoningDone => "response.reasoning.done"@,
        EventKind::ReasoningSummaryPartAdded => "response.reasoning_summary_part.added"@,
        EventKind::ReasoningSummaryPartDone => "response.reasoning_summary_part.done"@,
        EventKind::ReasoningSummaryTextDelta => "response.reasoning_summary_text.delta"@,
        EventKind::ReasoningSummaryTextDone => "response.reasoning_summary_text.done"@,
        EventKind::Error => "error"@,
        EventKind::DataInProgress => "cf_gears:response.data.in_progress"@,
        EventKind::DataDone => "cf_gears:response.data.done"@,
    }
}

/// A kind of event goes by its text, and is found by it and by no other.
pub proof fn law_event_kinds(
    kind: EventKind,
    tag: &'static str,
    raw: &str,
    found: Option<EventKind>,
)
    requires
        call_ensures(EventKind::tag, (kind,), tag),
        call_ensures(EventKind::from_tag, (raw,), found),
    ensures
        tag@ == event_word(kind),
        found == Some(kind) <==> raw@ == event_word(kind),
{
    assert(kind.spec_tag() == event_word(kind));
    if let Some(other) = found {
        if raw@ == event_word(kind) {
            law_event_tags_distinct(other, kind);
        }
    }
}

/// Events are told apart by what they are, and carry what they were given.
pub proof fn law_event_parts(
    value: StreamingEvent,
    kind: Option<EventKind>,
    parts: Result<(EventKind, EventPayload), Extension>,
)
    requires
        call_ensures(StreamingEvent::kind, (&value,), kind),
        call_ensures(StreamingEvent::into_parts, (value,), parts),
    ensures
        match value {
            StreamingEvent::Created(v) => kind == Some(EventKind::Created) && parts == Ok::<
                (EventKind, EventPayload),
                Extension,
            >((EventKind::Created, EventPayload::Snapshot(v))),
            StreamingEvent::InProgress(v) => kind == Some(EventKind::InProgress) && parts == Ok::<
                (EventKind, EventPayload),
                Extension,
            >((EventKind::InProgress, EventPayload::Snapshot(v))),
            StreamingEvent::Queued(v) => kind == Some(EventKind::Queued) && parts == Ok::<
                (EventKind, EventPayload),
                Extension,
            >((EventKind::Queued, EventPayload::Snapshot(v))),
            StreamingEvent::Completed(v) => kind == Some(EventKind::Completed) && parts == Ok::<
                (EventKind, EventPayload),
                Extension,
            >((EventKind::Completed, EventPayload::Snapshot(v))),
            StreamingEvent::Incomplete(v) => kind == Some(EventKind::Incomplete) && parts == Ok::<
                (EventKind, EventPayload),
                Extension,
            >((EventKind::Incomplete, EventPayload::Snapshot(v))),
            StreamingEvent::Failed(v) => kind == Some(EventKind::Failed) && parts == Ok::<
                (EventKind, EventPayload),
                Extension,
            >((EventKind::Failed, EventPayload::Snapshot(v))),
            StreamingEvent::OutputItemAdded(v) => kind == Some(EventKind::OutputItemAdded) && parts == Ok::<
                (EventKind, EventPayload),
                Extension,
            >((EventKind::OutputItemAdded, EventPayload::OutputItemAdded(v))),
            StreamingEvent::OutputItemDone(v) => kind == Some(EventKind::OutputItemDone) && parts == Ok::<
                (EventKind, EventPayload),
                Extension,
            >((EventKind::OutputItemDone, EventPayload::OutputItemDone(v))),
            StreamingEvent::ContentPartAdded(v) => kind == Some(EventKind::ContentPartAdded) && parts == Ok::<
                (EventKind, EventPayload),
                Extension,
            >((EventKind::ContentPartAdded, EventPayload::ContentPart(v))),
            StreamingEvent::ContentPartDone(v) => kind == Some(EventKind::ContentPartDone) && parts == Ok::<
                (EventKind, EventPayload),
                Extension,
            >((EventKind::ContentPartDone, EventPayload::ContentPart(v))),
            StreamingEvent::OutputTextDelta(v) => kind == Some(EventKind::OutputTextDelta) && parts == Ok::<
                (EventKind, EventPayload),
                Extension,
            >((EventKind::OutputTextDelta, EventPayload::OutputTextDelta(v))),
            StreamingEvent::OutputTextDone(v) => kind == Some(EventKind::OutputTextDone) && parts == Ok::<
                (EventKind, EventPayload),
                Extension,
            >((EventKind::OutputTextDone, EventPayload::OutputTextDone(v))),
            StreamingEvent::OutputTextAnnotationAdded(v) => kind == Some(EventKind::OutputTextAnnotationAdded) && parts == Ok::<
                (EventKind, EventPayload),
                Extension,
            >((EventKind::OutputTextAnnotationAdded, EventPayload::AnnotationAdded(v))),
            StreamingEvent::RefusalDelta(v) => kind == Some(EventKind::RefusalDelta) && parts == Ok::<
                (EventKind, EventPayload),
                Extension,
            >((EventKind::RefusalDelta, EventPayload::ContentDelta(v))),
            StreamingEvent::RefusalDone(v) => kind == Some(EventKind::RefusalDone) && parts == Ok::<
                (EventKind, EventPayload),
                Extension,
            >((EventKind::RefusalDone, EventPayload::RefusalDone(v))),
            StreamingEvent::FunctionCallArgumentsDelta(v) => kind == Some(EventKind::FunctionCallArgumentsDelta) && parts == Ok::<
                (EventKind, EventPayload),
                Extension,
            >((EventKind::FunctionCallArgumentsDelta, EventPayload::FunctionCallArgumentsDelta(v))),
            StreamingEvent::FunctionCallArgumentsDone(v) => kind == Some(EventKind::FunctionCallArgumentsDone) && parts == Ok::<
                (EventKind, EventPayload),
                Extension,
            >((EventKind::FunctionCallArgumentsDone, EventPayload::FunctionCallArgumentsDone(v))),
            StreamingEvent::ReasoningDelta(v) => kind == Some(EventKind::ReasoningDelta) && parts == Ok::<
                (EventKind, EventPayload),
                Extension,
            >((EventKind::ReasoningDelta, EventPayload::ContentDelta(v))),
            StreamingEvent::ReasoningDone(v) => kind == Some(EventKind::ReasoningDone) && parts == Ok::<
                (EventKind, EventPayload),
                Extension,
            >((EventKind::ReasoningDone, EventPayload::ReasoningDone(v))),
            StreamingEvent::ReasoningSummaryPartAdded(v) => kind == Some(EventKind::ReasoningSummaryPartAdded) && parts == Ok::<
                (EventKind, EventPayload),
                Extension,
            >((EventKind::ReasoningSummaryPartAdded, EventPayload::SummaryPart(v))),
            StreamingEvent::ReasoningSummaryPartDone(v) => kind == Some(EventKind::ReasoningSummaryPartDone) && parts == Ok::<
                (EventKind, EventPayload),
                Extension,
            >((EventKind::ReasoningSummaryPartDone, EventPayload::SummaryPart(v))),
            StreamingEvent::ReasoningSummaryTextDelta(v) => kind == Some(EventKind::ReasoningSummaryTextDelta) && parts == Ok::<
                (EventKind, EventPayload),
                Extension,
            >((EventKind::ReasoningSummaryTextDelta, EventPayload::ReasoningSummaryTextDelta(v))),
            StreamingEvent::ReasoningSummaryTextDone(v) => kind == Some(EventKind::ReasoningSummaryTextDone) && parts == Ok::<
                (EventKind, EventPayload),
                Extension,
            >((EventKind::ReasoningSummaryTextDone, EventPayload::ReasoningSummaryTextDone(v))),
            StreamingEvent::Error(v) => kind == Some(EventKind::Error) && parts == Ok::<
                (EventKind, EventPayload),
                Extension,
            >((EventKind::Error, EventPayload::Error(v))),
            StreamingEvent::DataInProgress(v) => kind == Some(EventKind::DataInProgress) && parts == Ok::<
                (EventKind, EventPayload),
                Extension,
            >((EventKind::DataInProgress, EventPayload::Data(v))),
            StreamingEvent::DataDone(v) => kind == Some(EventKind::DataDone) && parts == Ok::<
                (EventKind, EventPayload),
                Extension,
            >((EventKind::DataDone, EventPayload::Data(v))),
            StreamingEvent::Other(extension) => kind is None && parts == Err::<
                (EventKind, EventPayload),
                Extension,
            >(extension),
        },
{
}

/// What was taken apart is put together again as it was.
pub proof fn law_event_put_together(
    value: StreamingEvent,
    parts: Result<(EventKind, EventPayload), Extension>,
    r: Result<StreamingEvent, EventPayload>,
)
    requires
        call_ensures(StreamingEvent::into_parts, (value,), parts),
        parts matches Ok((kind, payload)) ==> call_ensures(
            StreamingEvent::from_parts,
            (kind, payload),
            r,
        ),
        parts is Ok,
    ensures
        r == Ok::<StreamingEvent, EventPayload>(value),
{
}

/// A payload fits exactly the kinds that carry its like; one that does not fit comes back
/// as it was.
pub proof fn law_event_payloads_fit(
    kind: EventKind,
    payload: EventPayload,
    r: Result<StreamingEvent, EventPayload>,
)
    requires
        call_ensures(StreamingEvent::from_parts, (kind, payload), r),
    ensures
        r matches Err(same) ==> same == payload,
        r is Ok <==> match kind {
            EventKind::Created => payload is Snapshot,
            EventKind::InProgress => payload is Snapshot,
            EventKind::Queued => payload is Snapshot,
            EventKind::Completed => payload is Snapshot,
            EventKind::Incomplete => payload is Snapshot,
            EventKind::Failed => payload is Snapshot,
            EventKind::OutputItemAdded => payload is OutputItemAdded,
            EventKind::OutputItemDone => payload is OutputItemDone,
            EventKind::ContentPartAdded => payload is ContentPart,
            EventKind::ContentPartDone => payload is ContentPart,
            EventKind::OutputTextDelta => payload is OutputTextDelta,
            EventKind::OutputTextDone => payload is OutputTextDone,
            EventKind::OutputTextAnnotationAdded => payload is AnnotationAdded,
            EventKind::RefusalDelta => payload is ContentDelta,
            EventKind::RefusalDone => payload is RefusalDone,
            EventKind::FunctionCallArgumentsDelta => payload is FunctionCallArgumentsDelta,
            EventKind::FunctionCallArgumentsDone => payload is FunctionCallArgumentsDone,
            EventKind::ReasoningDelta => payload is ContentDelta,
            EventKind::ReasoningDone => payload is ReasoningDone,
            EventKind::ReasoningSummaryPartAdded => payload is SummaryPart,
            EventKind::ReasoningSummaryPartDone => payload is SummaryPart,
            EventKind::ReasoningSummaryTextDelta => payload is ReasoningSummaryTextDelta,
            EventKind::ReasoningSummaryTextDone => payload is ReasoningSummaryTextDone,
            EventKind::Error => payload is Error,
            EventKind::DataInProgress => payload is Data,
            EventKind::DataDone => payload is Data,
        },
{
}

/// What is written of a kind has the kind's text under `type` and everything else as it
/// was, and is read as that kind again. Only what is no object cannot be written.
pub proof fn law_event_written_and_read(
    kind: EventKind,
    document: serde_json::Value,
    r: Result<serde_json::Value, TagError>,
    back: WireEvent,
)
    requires
        call_ensures(write_event, (WireEvent::Core { kind, document },), r),
        r matches Ok(written) ==> call_ensures(read_event, (written,), back),
    ensures
        r is Ok <==> json_members(document) is Some,
        r matches Ok(written) ==> {
            &&& has_type(written, event_word(kind))
            &&& same_but_type(written, document)
            &&& back == (WireEvent::Core { kind, document: written })
        },
{
    if let Ok(written) = r {
        assert(event_of_kind(written, kind));
        match back {
            WireEvent::Core { kind: other, .. } => {
                law_event_tags_distinct(other, kind);
            },
            WireEvent::Other(_) => {},
        }
    }
}

/// What has no type of the core's is kept, and written again, as it came.
pub proof fn law_foreign_events_kept(
    value: serde_json::Value,
    read: WireEvent,
    written: Result<serde_json::Value, TagError>,
)
    requires
        call_ensures(read_event, (value,), read),
        call_ensures(write_event, (read,), written),
    ensures
        (forall|kind: EventKind| !has_type(value, #[trigger] event_word(kind))) ==> (
        read matches WireEvent::Other(extension) && extension.0 == value) && written == Ok::<
            serde_json::Value,
            TagError,
        >(value),
        forall|kind: EventKind| #[trigger]
            has_type(value, event_word(kind)) ==> read == (WireEvent::Core {
                kind,
                document: value,
            }),
{
    assert forall|kind: EventKind| #[trigger] has_type(value, event_word(kind)) implies read == (
    WireEvent::Core { kind, document: value }) by {
        assert(event_of_kind(value, kind));
        match read {
            WireEvent::Core { kind: other, .. } => {
                law_event_tags_distinct(other, kind);
            },
            WireEvent::Other(_) => {},
        }
    }
    if let WireEvent::Core { kind: other, .. } = read {
        assert(has_type(value, event_word(other)));
    }
}

/// The text under `type` of tools of a kind.
pub open spec fn tool_word(kind: ToolKind) -> Seq<char> {
    match kind {
        ToolKind::Function => "function"@,
        ToolKind::Reference => "reference"@,
        ToolKind::InlineGts => "inline_gts"@,
        ToolKind::ImageGeneration => "cf_gears:image_generation"@,
    }
}

/// A kind of tool goes by its text, and is found by it and by no other.
pub proof fn law_tool_kinds(
    kind: ToolKind,
    tag: &'static str,
    raw: &str,
    found: Option<ToolKind>,
)
    requires
        call_ensures(ToolKind::tag, (kind,), tag),
        call_ensures(ToolKind::from_tag, (raw,), found),
    ensures
        tag@ == tool_word(kind),
        found == Some(kind) <==> raw@ == tool_word(kind),
{
    assert(kind.spec_tag() == tool_word(kind));
    if let Some(other) = found {
        if raw@ == tool_word(kind) {
            law_tool_tags_distinct(other, kind);
        }
    }
}

/// Tools are told apart by what they are, and carry what they were given.
pub proof fn law_tool_parts(
    value: Tool,
    kind: Option<ToolKind>,
    parts: Result<(ToolKind, ToolPayload), Extension>,
)
    requires
        call_ensures(Tool::kind, (&value,), kind),
        call_ensures(Tool::into_parts, (value,), parts),
    ensures
        match value {
            Tool::Function(v) => kind == Some(ToolKind::Function) && parts == Ok::<
                (ToolKind, ToolPayload),
                Extension,
            >((ToolKind::Function, ToolPayload::Function(v))),
            Tool::Reference(v) => kind == Some(ToolKind::Reference) && parts == Ok::<
                (ToolKind, ToolPayload),
                Extension,
            >((ToolKind::Reference, ToolPayload::Reference(v))),
            Tool::InlineGts(v) => kind == Some(ToolKind::InlineGts) && parts == Ok::<
                (ToolKind, ToolPayload),
                Extension,
            >((ToolKind::InlineGts, ToolPayload::InlineGts(v))),
            Tool::ImageGeneration(v) => kind == Some(ToolKind::ImageGeneration) && parts == Ok::<
                (ToolKind, ToolPayload),
                Extension,
            >((ToolKind::ImageGeneration, ToolPayload::ImageGeneration(v))),
            Tool::Other(extension) => kind is None && parts == Err::<
                (ToolKind, ToolPayload),
                Extension,
            >(extension),
        },
{
}

/// What was taken apart is put together again as it was.
pub proof fn law_tool_put_together(
    value: Tool,
    parts: Result<(ToolKind, ToolPayload), Extension>,
    r: Result<Tool, ToolPayload>,
)
    requires
        call_ensures(Tool::into_parts, (value,), parts),
        parts matches Ok((kind, payload)) ==> call_ensures(
            Tool::from_parts,
            (kind, payload),
            r,
        ),
        parts is Ok,
    ensures
        r == Ok::<Tool, ToolPayload>(value),
{
}

/// A payload fits exactly the kinds that carry its like; one that does not fit comes back
/// as it was.
pub proof fn law_tool_payloads_fit(
    kind: ToolKind,
    payload: ToolPayload,
    r: Result<Tool, ToolPayload>,
)
    requires
        call_ensures(Tool::from_parts, (kind, payload), r),
    ensures
        r matches Err(same) ==> same == payload,
        r is Ok <==> match kind {
            ToolKind::Function => payload is Function,
            ToolKind::Reference => payload is Reference,
            ToolKind::InlineGts => payload is InlineGts,
            ToolKind::ImageGeneration => payload is ImageGeneration,
        },
{
}

/// What is written of a kind has the kind's text under `type` and everything else as it
/// was, and is read as that kind again. Only what is no object cannot be written.
pub proof fn law_tool_written_and_read(
    kind: ToolKind,
    document: serde_json::Value,
    r: Result<serde_json::Value, TagError>,
    back: WireTool,
)
    requires
        call_ensures(write_tool, (WireTool::Core { kind, document },), r),
        r matches Ok(written) ==> call_ensures(read_tool, (written,), back),
    ensures
        r is Ok <==> json_members(document) is Some,
        r matches Ok(written) ==> {
            &&& has_type(written, tool_word(kind))
            &&& same_but_type(written, document)
            &&& back == (WireTool::Core { kind, document: written })
        },
{
    if let Ok(written) = r {
        assert(tool_of_kind(written, kind));
        match back {
            WireTool::Core { kind: other, .. } => {
                law_tool_tags_distinct(other, kind);
            },
            WireTool::Other(_) => {},
        }
    }
}

/// What has no type of the core's is kept, and written again, as it came.
pub proof fn law_foreign_tools_kept(
    value: serde_json::Value,
    read: WireTool,
    written: Result<serde_json::Value, TagError>,
)
    requires
        call_ensures(read_tool, (value,), read),
        call_ensures(write_tool, (read,), written),
    ensures
        (forall|kind: ToolKind| !has_type(value, #[trigger] tool_word(kind))) ==> (
        read matches WireTool::Other(extension) && extension.0 == value) && written == Ok::<
            serde_json::Value,
            TagError,
        >(value),
        forall|kind: ToolKind| #[trigger]
            has_type(value, tool_word(kind)) ==> read == (WireTool::Core {
                kind,
                document: value,
            }),
{
    assert forall|kind: ToolKind| #[trigger] has_type(value, tool_word(kind)) implies read == (
    WireTool::Core { kind, document: value }) by {
        assert(tool_of_kind(value, kind));
        match read {
            WireTool::Core { kind: other, .. } => {
                law_tool_tags_distinct(other, kind);
            },
            WireTool::Other(_) => {},
        }
    }
    if let WireTool::Core { kind: other, .. } = read {
        assert(has_type(value, tool_word(other)));
    }
}

/// What the gateway tells of the registry's failures: a missing and an unapproved model
/// as such, about the same model, and anything else as an unexpected failure in the
/// registry's own words.
pub proof fn law_registry_failures_told(
    e: ModelRegistryError,
    g: LlmGatewayError,
    words: String,
)
    requires
        call_ensures(map_registry_err, (e,), g),
        call_ensures(ModelRegistryError::to_string, (&e,), words),
    ensures
        match e {
            ModelRegistryError::ModelNotFound { canonical_id } =>
                g matches LlmGatewayError::ModelNotFound { model } && model@ == canonical_id@,
            ModelRegistryError::ModelNotApproved { canonical_id } =>
                g matches LlmGatewayError::ModelNotApproved { model } && model@ == canonical_id@,
            _ => g matches LlmGatewayError::Internal { message } && message@ == words@,
        },
{
}

/// A failure of the gateway, as a text.
pub proof fn law_text_of_gateway_error(e: LlmGatewayError, text: String)
    requires
        call_ensures(LlmGatewayError::to_string, (&e,), text),
    ensures
        match e {
            LlmGatewayError::ModelNotFound { model } => text@ == "model not found: "@ + model@,
            LlmGatewayError::ModelNotApproved { model } => text@ == "model not approved: "@ + model@,
            LlmGatewayError::ProviderError { message } => text@ == "provider error: "@ + message@,
            LlmGatewayError::CapabilityNotSupported { message } => text@
                == "capability not supported: "@ + message@,
            LlmGatewayError::Internal { message } => text@ == "internal error: "@ + message@,
        },
{
}

/// A request begins with the registry being asked, for the caller, for the model that
/// the request names, and keeps the request.
pub proof fn law_model_asked_for(
    gateway: DemoGateway,
    ctx: SecurityContext,
    body: CreateResponseBody,
    step: ResponseStep,
)
    requires
        call_ensures(DemoGateway::create_response, (&gateway, &ctx, body), step),
    ensures
        step matches ResponseStep::AskRegistry { ctx: asker, canonical_id, body: kept } && asker
            == ctx && canonical_id@ == body.model@ && kept == body,
{
}

/// A plugin that was registered for a type is the one that is called for models of that
/// type, with the caller, the request as it came and the model's own settings.
pub proof fn law_plugin_called(
    before: DemoGateway,
    provider_type: &str,
    registered: (DemoGateway, usize),
    ctx: SecurityContext,
    body: CreateResponseBody,
    model: ModelV1,
    step: ResponseStep,
)
    requires
        call_ensures(DemoGateway::register, (before, provider_type), registered),
        call_ensures(
            DemoGateway::with_model,
            (&registered.0, ctx, body, Ok::<ModelV1, ModelRegistryError>(model)),
            step,
        ),
        model.info.gts_type@ == provider_type@,
    ensures
        step matches ResponseStep::CallPlugin { plugin, ctx: caller, call, body: handed } && {
            &&& plugin == registered.1
            &&& caller == ctx
            &&& handed == body
            &&& call.provider_model_id == model.info.provider_model_id
            &&& call.provider_type == model.info.gts_type
            &&& call.provider_settings == model.info.provider_settings
            &&& call.request_id@ == "resp_demo_0001"@
        },
{
    let (gateway, place) = registered;
    assert(gateway.served()[place as int] == provider_type@);
    assert(gateway.served().contains(provider_type@));
}

/// Registering a plugin moves no other.
pub proof fn law_plugins_keep_their_places(
    before: DemoGateway,
    provider_type: &str,
    registered: (DemoGateway, usize),
)
    requires
        call_ensures(DemoGateway::register, (before, provider_type), registered),
    ensures
        forall|i: int|
            0 <= i < before.served().len() ==> i < registered.0.served().len()
                && #[trigger] registered.0.served()[i] == before.served()[i],
        registered.0.served().len() <= before.served().len() + 1,
        registered.0.served().len() == before.served().len() <==> before.served().contains(
            provider_type@,
        ),
{
}

/// Without a plugin for the model's type, and without a model, no plugin is called, and
/// the caller is told.
pub proof fn law_no_plugin_called(
    gateway: DemoGateway,
    ctx: SecurityContext,
    body: CreateResponseBody,
    found: Result<ModelV1, ModelRegistryError>,
    step: ResponseStep,
)
    requires
        call_ensures(DemoGateway::with_model, (&gateway, ctx, body, found), step),
    ensures
        found matches Ok(model) ==> !gateway.served().contains(model.info.gts_type@) ==> (
        step matches ResponseStep::Done { result: Err(e) } && (
        e matches LlmGatewayError::ProviderError { message } && message@
            == "no provider plugin registered for "@ + model.info.gts_type@)),
        found is Err ==> (step matches ResponseStep::Done { result: Err(_) }),
        found matches Err(ModelRegistryError::ModelNotFound { canonical_id }) ==> (
        step matches ResponseStep::Done { result: Err(e) } && (
        e matches LlmGatewayError::ModelNotFound { model } && model@ == canonical_id@)),
        found matches Err(ModelRegistryError::ModelNotApproved { canonical_id }) ==> (
        step matches ResponseStep::Done { result: Err(e) } && (
        e matches LlmGatewayError::ModelNotApproved { model } && model@ == canonical_id@)),
{
}

/// A request ends with what the plugin answered.
pub proof fn law_answer_handed_on(
    gateway: DemoGateway,
    answer: Result<ResponseResource, LlmGatewayError>,
    step: ResponseStep,
)
    requires
        call_ensures(DemoGateway::with_answer, (&gateway, answer), step),
    ensures
        step matches ResponseStep::Done { result } && result == answer,
{
}

/// The demonstration's registry finds a model exactly where it was given one with the
/// canonical id, and of several the one given last.
pub proof fn law_fixed_models_found(
    models: Vec<ModelV1>,
    registry: MockModelRegistry,
    canonical_id: &str,
    r: Result<&ModelV1, ModelRegistryError>,
)
    requires
        call_ensures(MockModelRegistry::new, (models,), registry),
        call_ensures(MockModelRegistry::get_tenant_model, (&registry, canonical_id), r),
    ensures
        r is Ok <==> exists|i: int|
            0 <= i < models@.len() && (#[trigger] models@[i]).canonical_id@ == canonical_id@,
        forall|i: int|
            0 <= i < models@.len() && (#[trigger] models@[i]).canonical_id@ == canonical_id@ && (
            forall|j: int|
                i < j < models@.len() ==> (#[trigger] models@[j]).canonical_id@ != canonical_id@)
                ==> r is Ok && *r->Ok_0 == models@[i],
        r matches Err(e) ==> (e matches ModelRegistryError::ModelNotFound { canonical_id: id }
            && id@ == canonical_id@),
{
}

/// What an echo says: the message of the only output, which ends with the prompt.
pub open spec fn echoes(
    response: ResponseResource,
    route: OpenAiRoute,
    prompt: Seq<char>,
) -> bool {
    &&& response.output@.len() == 1
    &&& response.output@[0] matches OutputItem::Message(message)
    &&& message.role is Assistant
    &&& message.status is Completed
    &&& message.content@.len() == 1
    &&& message.content@[0] matches OutputContentPart::OutputText(part)
    &&& part.text@ == "echo from provider_model_id="@ + route.provider_model_id@
        + " via oagw_alias="@ + route.oagw_alias@ + ": "@ + prompt
}

/// The demonstration's plugin answers a request whose settings could be read, for the
/// model that it names, with an echo of its prompt, and tells why where they could not.
pub proof fn law_echo(
    plugin: MockOpenAiPlugin,
    route: Result<OpenAiRoute, String>,
    body: CreateResponseBody,
    r: Result<ResponseResource, LlmGatewayError>,
)
    requires
        call_ensures(MockOpenAiPlugin::create_response, (&plugin, route, body), r),
    ensures
        r is Ok <==> route is Ok,
        r matches Ok(response) ==> {
            &&& response.model@ == body.model@
            &&& response.status is Completed
            &&& response.error is None
            &&& body.input matches Some(ResponseInput::Text(text)) ==> echoes(
                response,
                route->Ok_0,
                text@,
            )
            &&& body.input matches Some(ResponseInput::Items(_)) ==> echoes(
                response,
                route->Ok_0,
                "<structured input>"@,
            )
            &&& body.input is None ==> echoes(response, route->Ok_0, Seq::empty())
            &&& response.usage matches Some(usage) && usage.total_tokens == usage.input_tokens
                + usage.output_tokens
        },
        r matches Err(e) ==> (e matches LlmGatewayError::Internal { message } && message@
            == "failed to narrow OpenAI model info: "@ + route->Err_0@),
{
}

/// Whether a filter has two conditions, on the type and on streaming.
pub open spec fn asks_for_openai_streaming(text: Seq<char>) -> bool {
    exists|a: Seq<char>, b: Seq<char>|
        {
            &&& #[trigger] says_equal(
                a,
                "gts_type"@,
                ODataValueView::String("gts.cf.genai.model.info.v1~cf.genai._.openai.v1~"@),
            )
            &&& #[trigger] says_equal(b, "streaming"@, ODataValueView::Bool(true))
            &&& text == a + " and "@ + b
        }
}

/// The listing from filter text asks for the streaming models of the OpenAI provider,
/// ten to a page, with the hash that was given for its filter.
pub proof fn law_filter_text_query<F: Fn(String) -> Option<String>>(hash: F, r: ODataQuery)
    requires
        call_ensures(filter_text_query::<F>, (hash,), r),
    ensures
        r.filter is Some && asks_for_openai_streaming(r.filter->0@),
        hash.ensures((r.filter->0,), r.filter_hash),
        r.limit == Some(10u64),
        r.order@.len() == 0 && r.cursor is None && r.select is None,
{
    lemma_openai_streaming();
}

proof fn lemma_openai_streaming()
    ensures
        asks_for_openai_streaming(crate::gateway::demo_queries::openai_streaming()),
{
    let provider = ODataValueView::String(
        "gts.cf.genai.model.info.v1~cf.genai._.openai.v1~"@,
    );
    crate::registry::laws::fields::lemma_term("gts_type"@, provider);
    crate::registry::laws::fields::lemma_term("streaming"@, ODataValueView::Bool(true));
}

/// The listing that was put together asks, beside that, for models in production, by
/// canonical id, ten to a page, with the hash of its own filter.
pub proof fn law_production_query<F: Fn(String) -> String>(hash: F, r: ODataQuery)
    requires
        call_ensures(production_query::<F>, (hash,), r),
    ensures
        r.filter is Some && exists|a: Seq<char>, b: Seq<char>|
            {
                &&& #[trigger] asks_for_openai_streaming(a)
                &&& #[trigger] says_equal(
                    b,
                    "lifecycle_status"@,
                    ODataValueView::String("production"@),
                )
                &&& r.filter->0@ == a + " and "@ + b
            },
        r.filter_hash is Some && hash.ensures((r.filter->0,), r.filter_hash->0),
        r.order@.len() == 1 && r.order@[0].field@ == "canonical_id"@ && !r.order@[0].descending,
        r.limit == Some(10u64),
        r.cursor is None && r.select is None,
{
    lemma_openai_streaming();
    crate::registry::laws::fields::lemma_term(
        "lifecycle_status"@,
        ODataValueView::String("production"@),
    );
}

/// A kind of event, and of tool, tells the shape of what it carries.
pub proof fn law_shapes_told(
    event: EventKind,
    event_shape: StreamingEventShape,
    tool: ToolKind,
    tool_shape: ToolShape,
)
    requires
        call_ensures(EventKind::shape, (event,), event_shape),
        call_ensures(ToolKind::shape, (tool,), tool_shape),
    ensures
        match event {
            EventKind::Created => event_shape is Snapshot,
            EventKind::InProgress => event_shape is Snapshot,
            EventKind::Queued => event_shape is Snapshot,
            EventKind::Completed => event_shape is Snapshot,
            EventKind::Incomplete => event_shape is Snapshot,
            EventKind::Failed => event_shape is Snapshot,
            EventKind::OutputItemAdded => event_shape is OutputItemAdded,
            EventKind::OutputItemDone => event_shape is OutputItemDone,
            EventKind::ContentPartAdded => event_shape is ContentPart,
            EventKind::ContentPartDone => event_shape is ContentPart,
            EventKind::OutputTextDelta => event_shape is OutputTextDelta,
            EventKind::OutputTextDone => event_shape is OutputTextDone,
            EventKind::OutputTextAnnotationAdded => event_shape is AnnotationAdded,
            EventKind::RefusalDelta => event_shape is ContentDelta,
            EventKind::RefusalDone => event_shape is RefusalDone,
            EventKind::FunctionCallArgumentsDelta => event_shape is FunctionCallArgumentsDelta,
            EventKind::FunctionCallArgumentsDone => event_shape is FunctionCallArgumentsDone,
            EventKind::ReasoningDelta => event_shape is ContentDelta,
            EventKind::ReasoningDone => event_shape is ReasoningDone,
            EventKind::ReasoningSummaryPartAdded => event_shape is SummaryPart,
            EventKind::ReasoningSummaryPartDone => event_shape is SummaryPart,
            EventKind::ReasoningSummaryTextDelta => event_shape is ReasoningSummaryTextDelta,
            EventKind::ReasoningSummaryTextDone => event_shape is ReasoningSummaryTextDone,
            EventKind::Error => event_shape is Error,
            EventKind::DataInProgress => event_shape is Data,
            EventKind::DataDone => event_shape is Data,
        },
        match tool {
            ToolKind::Function => tool_shape is Function,
            ToolKind::Reference => tool_shape is Reference,
            ToolKind::InlineGts => tool_shape is InlineGts,
            ToolKind::ImageGeneration => tool_shape is ImageGeneration,
        },
{
}

/// A plugin's place is found by the type that it serves, and by no other.
pub proof fn law_plugins_found(
    before: DemoGateway,
    provider_type: &str,
    registered: (DemoGateway, usize),
    other: &str,
    found: Option<usize>,
)
    requires
        call_ensures(DemoGateway::register, (before, provider_type), registered),
        call_ensures(DemoGateway::find, (&registered.0, other), found),
    ensures
        found == Some(registered.1) <==> other@ == provider_type@,
        found is None ==> !before.served().contains(other@),
{
    let served = registered.0.served();
    assert(served.contains(provider_type@)) by {
        assert(served[registered.1 as int] == provider_type@);
    }
    if before.served().contains(other@) {
        let i = choose|i: int| 0 <= i < before.served().len() && before.served()[i] == other@;
        assert(served[i] == other@);
    }
}

/// What the demonstration does without is refused, by the gateway and by its plugin, and
/// what is refused is told.
pub proof fn law_refused_in_demo(
    gateway: DemoGateway,
    plugin: MockOpenAiPlugin,
    stream: LlmGatewayError,
    embedding: LlmGatewayError,
    plugin_stream: LlmGatewayError,
    plugin_embedding: LlmGatewayError,
)
    requires
        call_ensures(DemoGateway::create_response_stream, (&gateway,), stream),
        call_ensures(DemoGateway::create_embedding, (&gateway,), embedding),
        call_ensures(MockOpenAiPlugin::create_response_stream, (&plugin,), plugin_stream),
        call_ensures(MockOpenAiPlugin::create_embedding, (&plugin,), plugin_embedding),
    ensures
        stream matches LlmGatewayError::CapabilityNotSupported { message } && message@
            == "streaming not implemented in demo"@,
        embedding matches LlmGatewayError::CapabilityNotSupported { message } && message@
            == "embeddings not implemented in demo"@,
        plugin_stream@ == stream@,
        plugin_embedding@ == embedding@,
{
}

/// A response with one message says that text, names that model, and has nothing else to
/// tell: no tools, no limits, no failure, and the numbers that stand for leaving the
/// model alone.
pub proof fn law_canned_response(text: &str, model: &str, r: ResponseResource)
    requires
        call_ensures(mock_response, (text, model), r),
    ensures
        r.model@ == model@,
        r.id@ == "resp_demo_0001"@,
        r.object@ == "response"@,
        r.status is Completed,
        r.created_at == 0 && r.completed_at == Some(0u64),
        r.output@.len() == 1,
        r.output@[0] matches OutputItem::Message(message) && message.id@ == "msg_demo_0001"@
            && message.status is Completed && message.role is Assistant && message.content@.len()
            == 1 && (message.content@[0] matches OutputContentPart::OutputText(part) && part.text@
            == text@ && part.annotations@.len() == 0 && part.logprobs is None),
        r.tools@.len() == 0 && r.parallel_tool_calls && r.truncation is Disabled,
        r.tool_choice matches ToolChoice::Mode(ToolChoiceMode::Auto),
        r.error is None && r.incomplete_details is None && r.instructions is None,
        r.metadata is None && r.safety_identifier is None && r.prompt_cache_key is None,
        r.max_output_tokens is None && r.max_tool_calls is None && r.top_logprobs == 0,
        r.text.format is None && r.text.verbosity is None,
        r.reasoning.effort is None && r.reasoning.summary is None,
        r.service_tier@ == "auto"@,
        r.temperature.bits == 0x3ff0000000000000 && r.top_p.bits == 0x3ff0000000000000,
        r.presence_penalty.bits == 0 && r.frequency_penalty.bits == 0,
        r.usage matches Some(usage) && usage.input_tokens == 8 && usage.output_tokens == 12
            && usage.total_tokens == 20 && usage.input_tokens_details.cached_tokens == 0
            && usage.output_tokens_details.reasoning_tokens == 0,
{
}

/// What the demonstration's plugin says it can do, and what its registry says it cannot.
pub proof fn law_demo_capabilities(
    plugin: MockOpenAiPlugin,
    can: ProviderPluginCapabilities,
    registry: MockModelRegistry,
    cannot: ModelRegistryError,
)
    requires
        call_ensures(MockOpenAiPlugin::capabilities, (&plugin,), can),
        call_ensures(MockModelRegistry::unsupported, (&registry,), cannot),
    ensures
        can.streaming_transport && can.media_input is UrlForward,
        cannot matches ModelRegistryError::Validation { message } && message@
            == "not implemented in demo"@,
{
}

} // verus!
