//! Events of a response that is streamed.
use vstd::prelude::*;
use vstd::string::*;
use crate::text::same_text;
use crate::gateway::extension::{
    is_tagged, json_members, serialize_tagged, tag_of, tag_view, Extension, TagError,
};
use crate::gateway::content::{Annotation, LogProb, OutputContentPart};
use crate::gateway::items::{DataOutput, OutputItem, ReasoningSummaryPart};
use crate::gateway::responses::{ResponseError, ResponseResource};

verus! {

/// The state of a response.
#[derive(Clone, Debug, PartialEq)]
pub struct ResponseSnapshotEvent {
    /// The event's place in the stream.
    pub sequence_number: u64,
    pub response: ResponseResource,
}

/// An item that was begun.
#[derive(Clone, Debug, PartialEq)]
pub struct OutputItemAddedEvent {
    /// The event's place in the stream.
    pub sequence_number: u64,
    pub output_index: u32,
    pub item: OutputItem,
}

/// An item that is complete.
#[derive(Clone, Debug, PartialEq)]
pub struct OutputItemDoneEvent {
    /// The event's place in the stream.
    pub sequence_number: u64,
    pub output_index: u32,
    pub item: Option<OutputItem>,
}

/// A part that was begun or is complete.
#[derive(Clone, Debug, PartialEq)]
pub struct ContentPartEvent {
    /// The event's place in the stream.
    pub sequence_number: u64,
    pub item_id: String,
    pub output_index: u32,
    pub content_index: u32,
    pub part: OutputContentPart,
}

/// Text that was added.
#[derive(Clone, Debug, PartialEq)]
pub struct OutputTextDeltaEvent {
    /// The event's place in the stream.
    pub sequence_number: u64,
    pub item_id: String,
    pub output_index: u32,
    pub content_index: u32,
    pub delta: String,
    pub logprobs: Option<Vec<LogProb>>,
}

/// Text that is complete.
#[derive(Clone, Debug, PartialEq)]
pub struct OutputTextDoneEvent {
    /// The event's place in the stream.
    pub sequence_number: u64,
    pub item_id: String,
    pub output_index: u32,
    pub content_index: u32,
    pub text: String,
    pub logprobs: Option<Vec<LogProb>>,
}

/// An annotation that was added to text.
#[derive(Clone, Debug, PartialEq)]
pub struct OutputTextAnnotationAddedEvent {
    /// The event's place in the stream.
    pub sequence_number: u64,
    pub item_id: String,
    pub output_index: u32,
    pub content_index: u32,
    pub annotation_index: u32,
    pub annotation: Option<Annotation>,
}

/// Text that was added to a refusal or to reasoning.
#[derive(Clone, Debug, PartialEq)]
pub struct ContentDeltaEvent {
    /// The event's place in the stream.
    pub sequence_number: u64,
    pub item_id: String,
    pub output_index: u32,
    pub content_index: u32,
    pub delta: String,
}

/// A refusal that is complete.
#[derive(Clone, Debug, PartialEq)]
pub struct RefusalDoneEvent {
    /// The event's place in the stream.
    pub sequence_number: u64,
    pub item_id: String,
    pub output_index: u32,
    pub content_index: u32,
    pub refusal: String,
}

/// Arguments that were added to a call.
#[derive(Clone, Debug, PartialEq)]
pub struct FunctionCallArgumentsDeltaEvent {
    /// The event's place in the stream.
    pub sequence_number: u64,
    pub item_id: String,
    pub output_index: u32,
    pub delta: String,
}

/// A call's arguments, complete.
#[derive(Clone, Debug, PartialEq)]
pub struct FunctionCallArgumentsDoneEvent {
    /// The event's place in the stream.
    pub sequence_number: u64,
    pub item_id: String,
    pub output_index: u32,
    pub arguments: String,
}

/// Reasoning that is complete.
#[derive(Clone, Debug, PartialEq)]
pub struct ReasoningDoneEvent {
    /// The event's place in the stream.
    pub sequence_number: u64,
    pub item_id: String,
    pub output_index: u32,
    pub content_index: u32,
    pub text: String,
}

/// A part of a summary that was begun or is complete.
#[derive(Clone, Debug, PartialEq)]
pub struct SummaryPartEvent {
    /// The event's place in the stream.
    pub sequence_number: u64,
    pub item_id: String,
    pub output_index: u32,
    pub summary_index: u32,
    pub part: ReasoningSummaryPart,
}

/// Text that was added to a summary.
#[derive(Clone, Debug, PartialEq)]
pub struct ReasoningSummaryTextDeltaEvent {
    /// The event's place in the stream.
    pub sequence_number: u64,
    pub item_id: String,
    pub output_index: u32,
    pub summary_index: u32,
    pub delta: String,
}

/// A summary's text, complete.
#[derive(Clone, Debug, PartialEq)]
pub struct ReasoningSummaryTextDoneEvent {
    /// The event's place in the stream.
    pub sequence_number: u64,
    pub item_id: String,
    pub output_index: u32,
    pub summary_index: u32,
    pub text: String,
}

/// What went wrong.
#[derive(Clone, Debug, PartialEq)]
pub struct ErrorEvent {
    /// The event's place in the stream.
    pub sequence_number: u64,
    pub error: ResponseError,
}

/// Binary data that is under way or complete.
#[derive(Clone, Debug, PartialEq)]
pub struct DataEvent {
    /// The event's place in the stream.
    pub sequence_number: u64,
    pub output_index: u32,
    pub item: DataOutput,
}

/// The kinds of events that the core owns.
#[derive(Clone, Copy, Debug, PartialEq, Eq, Structural, Hash)]
pub enum EventKind {
    /// The response was created.
    Created,
    /// The response is in progress.
    InProgress,
    /// The response waits.
    Queued,
    /// The response is complete.
    Completed,
    /// The response ended early.
    Incomplete,
    /// The response failed.
    Failed,
    /// An item was begun.
    OutputItemAdded,
    /// An item is complete.
    OutputItemDone,
    /// A part was begun.
    ContentPartAdded,
    /// A part is complete.
    ContentPartDone,
    /// Text was added.
    OutputTextDelta,
    /// Text is complete.
    OutputTextDone,
    /// An annotation was added.
    OutputTextAnnotationAdded,
    /// A refusal's text was added.
    RefusalDelta,
    /// A refusal is complete.
    RefusalDone,
    /// A function's arguments were added.
    FunctionCallArgumentsDelta,
    /// A function's arguments are complete.
    FunctionCallArgumentsDone,
    /// Reasoning was added.
    ReasoningDelta,
    /// Reasoning is complete.
    ReasoningDone,
    /// A part of a summary was begun.
    ReasoningSummaryPartAdded,
    /// A part of a summary is complete.
    ReasoningSummaryPartDone,
    /// A summary's text was added.
    ReasoningSummaryTextDelta,
    /// A summary's text is complete.
    ReasoningSummaryTextDone,
    /// Something went wrong.
    Error,
    /// Binary data is under way.
    DataInProgress,
    /// Binary data is complete.
    DataDone,
}

impl EventKind {
    /// Every kind.
    pub const ALL: [EventKind; 26] = [
        EventKind::Created,
        EventKind::InProgress,
        EventKind::Queued,
        EventKind::Completed,
        EventKind::Incomplete,
        EventKind::Failed,
        EventKind::OutputItemAdded,
        EventKind::OutputItemDone,
        EventKind::ContentPartAdded,
        EventKind::ContentPartDone,
        EventKind::OutputTextDelta,
        EventKind::OutputTextDone,
        EventKind::OutputTextAnnotationAdded,
        EventKind::RefusalDelta,
        EventKind::RefusalDone,
        EventKind::FunctionCallArgumentsDelta,
        EventKind::FunctionCallArgumentsDone,
        EventKind::ReasoningDelta,
        EventKind::ReasoningDone,
        EventKind::ReasoningSummaryPartAdded,
        EventKind::ReasoningSummaryPartDone,
        EventKind::ReasoningSummaryTextDelta,
        EventKind::ReasoningSummaryTextDone,
        EventKind::Error,
        EventKind::DataInProgress,
        EventKind::DataDone,
    ];

    /// The text under `type` that stands for the kind.
    pub open spec fn spec_tag(self) -> Seq<char> {
        match self {
            EventKind::Created => "response.created"@,
            EventKind::InProgress => "response.in_progress"@,
            EventKind::Queued => "response.queued"@,
            EventKind::Completed => "response.completed"@,
            EventKind::Incomplete => "response.incomplete"@,
            EventKind::Failed => "response.failed"@,
            EventKind::OutputItemAdded => "response.output_item.added"@,
            EventKind::OutputItemDone => "response.output_item.done"@,
            EventKind::ContentPartAdded => "response.content_part.added"@,
            EventKind::ContentPartDone => "response.content_part.done"@,
            EventKind::OutputTextDelta => "response.output_text.delta"@,
            EventKind::OutputTextDone => "response.output_text.done"@,
            EventKind::OutputTextAnnotationAdded => "response.output_text.annotation.added"@,
            EventKind::RefusalDelta => "response.refusal.delta"@,
            EventKind::RefusalDone => "response.refusal.done"@,
            EventKind::FunctionCallArgumentsDelta => "response.function_call_arguments.delta"@,
            EventKind::FunctionCallArgumentsDone => "response.function_call_arguments.done"@,
            EventKind::ReasoningDelta => "response.reasoning.delta"@,
            EventKind::ReasoningDone => "response.reasoning.done"@,
            EventKind::ReasoningSummaryPartAdded => "response.reasoning_summary_part.added"@,
            EventKind::ReasoningSummaryPartDone => "response.reasoning_summary_part.done"@,
            EventKind::ReasoningSummaryTextDelta => "response.reasoning_summary_text.delta"@,
            EventKind::ReasoningSummaryTextDone => "response.reasoning_summary_text.done"@,
            EventKind::Error => "error"@,
            EventKind::DataInProgress => "cf_gears:response.data.in_progress"@,
            EventKind::DataDone => "cf_gears:response.data.done"@,
        }
    }

    /// The text under `type` that stands for the kind.
    pub fn tag(self) -> (r: &'static str)
        ensures
            r@ == self.spec_tag(),
    {
        match self {
            EventKind::Created => "response.created",
            EventKind::InProgress => "response.in_progress",
            EventKind::Queued => "response.queued",
            EventKind::Completed => "response.completed",
            EventKind::Incomplete => "response.incomplete",
            EventKind::Failed => "response.failed",
            EventKind::OutputItemAdded => "response.output_item.added",
            EventKind::OutputItemDone => "response.output_item.done",
            EventKind::ContentPartAdded => "response.content_part.added",
            EventKind::ContentPartDone => "response.content_part.done",
            EventKind::OutputTextDelta => "response.output_text.delta",
            EventKind::OutputTextDone => "response.output_text.done",
            EventKind::OutputTextAnnotationAdded => "response.output_text.annotation.added",
            EventKind::RefusalDelta => "response.refusal.delta",
            EventKind::RefusalDone => "response.refusal.done",
            EventKind::FunctionCallArgumentsDelta => "response.function_call_arguments.delta",
            EventKind::FunctionCallArgumentsDone => "response.function_call_arguments.done",
            EventKind::ReasoningDelta => "response.reasoning.delta",
            EventKind::ReasoningDone => "response.reasoning.done",
            EventKind::ReasoningSummaryPartAdded => "response.reasoning_summary_part.added",
            EventKind::ReasoningSummaryPartDone => "response.reasoning_summary_part.done",
            EventKind::ReasoningSummaryTextDelta => "response.reasoning_summary_text.delta",
            EventKind::ReasoningSummaryTextDone => "response.reasoning_summary_text.done",
            EventKind::Error => "error",
            EventKind::DataInProgress => "cf_gears:response.data.in_progress",
            EventKind::DataDone => "cf_gears:response.data.done",
        }
    }

    /// The kind that a text under `type` stands for.
    pub fn from_tag(tag: &str) -> (r: Option<EventKind>)
        ensures
            match r {
                Some(kind) => kind.spec_tag() == tag@,
                None => forall|kind: EventKind| #![trigger kind.spec_tag()] kind.spec_tag() != tag@,
            },
    {
        if same_text(tag, "response.created") {
            Some(EventKind::Created)
        } else if same_text(tag, "response.in_progress") {
            Some(EventKind::InProgress)
        } else if same_text(tag, "response.queued") {
            Some(EventKind::Queued)
        } else if same_text(tag, "response.completed") {
            Some(EventKind::Completed)
        } else if same_text(tag, "response.incomplete") {
            Some(EventKind::Incomplete)
        } else if same_text(tag, "response.failed") {
            Some(EventKind::Failed)
        } else if same_text(tag, "response.output_item.added") {
            Some(EventKind::OutputItemAdded)
        } else if same_text(tag, "response.output_item.done") {
            Some(EventKind::OutputItemDone)
        } else if same_text(tag, "response.content_part.added") {
            Some(EventKind::ContentPartAdded)
        } else if same_text(tag, "response.content_part.done") {
            Some(EventKind::ContentPartDone)
        } else if same_text(tag, "response.output_text.delta") {
            Some(EventKind::OutputTextDelta)
        } else if same_text(tag, "response.output_text.done") {
            Some(EventKind::OutputTextDone)
        } else if same_text(tag, "response.output_text.annotation.added") {
            Some(EventKind::OutputTextAnnotationAdded)
        } else if same_text(tag, "response.refusal.delta") {
            Some(EventKind::RefusalDelta)
        } else if same_text(tag, "response.refusal.done") {
            Some(EventKind::RefusalDone)
        } else if same_text(tag, "response.function_call_arguments.delta") {
            Some(EventKind::FunctionCallArgumentsDelta)
        } else if same_text(tag, "response.function_call_arguments.done") {
            Some(EventKind::FunctionCallArgumentsDone)
        } else if same_text(tag, "response.reasoning.delta") {
            Some(EventKind::ReasoningDelta)
        } else if same_text(tag, "response.reasoning.done") {
            Some(EventKind::ReasoningDone)
        } else if same_text(tag, "response.reasoning_summary_part.added") {
            Some(EventKind::ReasoningSummaryPartAdded)
        } else if same_text(tag, "response.reasoning_summary_part.done") {
            Some(EventKind::ReasoningSummaryPartDone)
        } else if same_text(tag, "response.reasoning_summary_text.delta") {
            Some(EventKind::ReasoningSummaryTextDelta)
        } else if same_text(tag, "response.reasoning_summary_text.done") {
            Some(EventKind::ReasoningSummaryTextDone)
        } else if same_text(tag, "error") {
            Some(EventKind::Error)
        } else if same_text(tag, "cf_gears:response.data.in_progress") {
            Some(EventKind::DataInProgress)
        } else if same_text(tag, "cf_gears:response.data.done") {
            Some(EventKind::DataDone)
        } else {
            None
        }
    }
}

/// What an event carries, by the shape it has on the wire.
#[derive(Clone, Debug, PartialEq)]
pub enum EventPayload {
    Snapshot(ResponseSnapshotEvent),
    OutputItemAdded(OutputItemAddedEvent),
    OutputItemDone(OutputItemDoneEvent),
    ContentPart(ContentPartEvent),
    OutputTextDelta(OutputTextDeltaEvent),
    OutputTextDone(OutputTextDoneEvent),
    AnnotationAdded(OutputTextAnnotationAddedEvent),
    ContentDelta(ContentDeltaEvent),
    RefusalDone(RefusalDoneEvent),
    FunctionCallArgumentsDelta(FunctionCallArgumentsDeltaEvent),
    FunctionCallArgumentsDone(FunctionCallArgumentsDoneEvent),
    ReasoningDone(ReasoningDoneEvent),
    SummaryPart(SummaryPartEvent),
    ReasoningSummaryTextDelta(ReasoningSummaryTextDeltaEvent),
    ReasoningSummaryTextDone(ReasoningSummaryTextDoneEvent),
    Error(ErrorEvent),
    Data(DataEvent),
}

/// The shapes of what events carry.
#[derive(Clone, Copy, Debug, PartialEq, Eq, Structural)]
pub enum StreamingEventShape {
    Snapshot,
    OutputItemAdded,
    OutputItemDone,
    ContentPart,
    OutputTextDelta,
    OutputTextDone,
    AnnotationAdded,
    ContentDelta,
    RefusalDone,
    FunctionCallArgumentsDelta,
    FunctionCallArgumentsDone,
    ReasoningDone,
    SummaryPart,
    ReasoningSummaryTextDelta,
    ReasoningSummaryTextDone,
    Error,
    Data,
}

impl EventKind {
    /// The shape of what the kind carries.
    pub open spec fn spec_shape(self) -> StreamingEventShape {
        match self {
            EventKind::Created => StreamingEventShape::Snapshot,
            EventKind::InProgress => StreamingEventShape::Snapshot,
            EventKind::Queued => StreamingEventShape::Snapshot,
            EventKind::Completed => StreamingEventShape::Snapshot,
            EventKind::Incomplete => StreamingEventShape::Snapshot,
            EventKind::Failed => StreamingEventShape::Snapshot,
            EventKind::OutputItemAdded => StreamingEventShape::OutputItemAdded,
            EventKind::OutputItemDone => StreamingEventShape::OutputItemDone,
            EventKind::ContentPartAdded => StreamingEventShape::ContentPart,
            EventKind::ContentPartDone => StreamingEventShape::ContentPart,
            EventKind::OutputTextDelta => StreamingEventShape::OutputTextDelta,
            EventKind::OutputTextDone => StreamingEventShape::OutputTextDone,
            EventKind::OutputTextAnnotationAdded => StreamingEventShape::AnnotationAdded,
            EventKind::RefusalDelta => StreamingEventShape::ContentDelta,
            EventKind::RefusalDone => StreamingEventShape::RefusalDone,
            EventKind::FunctionCallArgumentsDelta =>
                StreamingEventShape::FunctionCallArgumentsDelta,
            EventKind::FunctionCallArgumentsDone => StreamingEventShape::FunctionCallArgumentsDone,
            EventKind::ReasoningDelta => StreamingEventShape::ContentDelta,
            EventKind::ReasoningDone => StreamingEventShape::ReasoningDone,
            EventKind::ReasoningSummaryPartAdded => StreamingEventShape::SummaryPart,
            EventKind::ReasoningSummaryPartDone => StreamingEventShape::SummaryPart,
            EventKind::ReasoningSummaryTextDelta => StreamingEventShape::ReasoningSummaryTextDelta,
            EventKind::ReasoningSummaryTextDone => StreamingEventShape::ReasoningSummaryTextDone,
            EventKind::Error => StreamingEventShape::Error,
            EventKind::DataInProgress => StreamingEventShape::Data,
            EventKind::DataDone => StreamingEventShape::Data,
        }
    }

    /// The shape of what the kind carries.
    pub fn shape(self) -> (r: StreamingEventShape)
        ensures
            r == self.spec_shape(),
    {
        match self {
            EventKind::Created => StreamingEventShape::Snapshot,
            EventKind::InProgress => StreamingEventShape::Snapshot,
            EventKind::Queued => StreamingEventShape::Snapshot,
            EventKind::Completed => StreamingEventShape::Snapshot,
            EventKind::Incomplete => StreamingEventShape::Snapshot,
            EventKind::Failed => StreamingEventShape::Snapshot,
            EventKind::OutputItemAdded => StreamingEventShape::OutputItemAdded,
            EventKind::OutputItemDone => StreamingEventShape::OutputItemDone,
            EventKind::ContentPartAdded => StreamingEventShape::ContentPart,
            EventKind::ContentPartDone => StreamingEventShape::ContentPart,
            EventKind::OutputTextDelta => StreamingEventShape::OutputTextDelta,
            EventKind::OutputTextDone => StreamingEventShape::OutputTextDone,
            EventKind::OutputTextAnnotationAdded => StreamingEventShape::AnnotationAdded,
            EventKind::RefusalDelta => StreamingEventShape::ContentDelta,
            EventKind::RefusalDone => StreamingEventShape::RefusalDone,
            EventKind::FunctionCallArgumentsDelta =>
                StreamingEventShape::FunctionCallArgumentsDelta,
            EventKind::FunctionCallArgumentsDone => StreamingEventShape::FunctionCallArgumentsDone,
            EventKind::ReasoningDelta => StreamingEventShape::ContentDelta,
            EventKind::ReasoningDone => StreamingEventShape::ReasoningDone,
            EventKind::ReasoningSummaryPartAdded => StreamingEventShape::SummaryPart,
            EventKind::ReasoningSummaryPartDone => StreamingEventShape::SummaryPart,
            EventKind::ReasoningSummaryTextDelta => StreamingEventShape::ReasoningSummaryTextDelta,
            EventKind::ReasoningSummaryTextDone => StreamingEventShape::ReasoningSummaryTextDone,
            EventKind::Error => StreamingEventShape::Error,
            EventKind::DataInProgress => StreamingEventShape::Data,
            EventKind::DataDone => StreamingEventShape::Data,
        }
    }
}

impl EventPayload {
    /// The payload's shape.
    pub open spec fn spec_shape(self) -> StreamingEventShape {
        match self {
            EventPayload::Snapshot(_) => StreamingEventShape::Snapshot,
            EventPayload::OutputItemAdded(_) => StreamingEventShape::OutputItemAdded,
            EventPayload::OutputItemDone(_) => StreamingEventShape::OutputItemDone,
            EventPayload::ContentPart(_) => StreamingEventShape::ContentPart,
            EventPayload::OutputTextDelta(_) => StreamingEventShape::OutputTextDelta,
            EventPayload::OutputTextDone(_) => StreamingEventShape::OutputTextDone,
            EventPayload::AnnotationAdded(_) => StreamingEventShape::AnnotationAdded,
            EventPayload::ContentDelta(_) => StreamingEventShape::ContentDelta,
            EventPayload::RefusalDone(_) => StreamingEventShape::RefusalDone,
            EventPayload::FunctionCallArgumentsDelta(_) =>
                StreamingEventShape::FunctionCallArgumentsDelta,
            EventPayload::FunctionCallArgumentsDone(_) =>
                StreamingEventShape::FunctionCallArgumentsDone,
            EventPayload::ReasoningDone(_) => StreamingEventShape::ReasoningDone,
            EventPayload::SummaryPart(_) => StreamingEventShape::SummaryPart,
            EventPayload::ReasoningSummaryTextDelta(_) =>
                StreamingEventShape::ReasoningSummaryTextDelta,
            EventPayload::ReasoningSummaryTextDone(_) =>
                StreamingEventShape::ReasoningSummaryTextDone,
            EventPayload::Error(_) => StreamingEventShape::Error,
            EventPayload::Data(_) => StreamingEventShape::Data,
        }
    }
}

/// An event of a response that is streamed.
#[non_exhaustive]
#[derive(Clone, Debug, PartialEq)]
pub enum StreamingEvent {
    /// The response was created.
    Created(ResponseSnapshotEvent),
    /// The response is in progress.
    InProgress(ResponseSnapshotEvent),
    /// The response waits.
    Queued(ResponseSnapshotEvent),
    /// The response is complete.
    Completed(ResponseSnapshotEvent),
    /// The response ended early.
    Incomplete(ResponseSnapshotEvent),
    /// The response failed.
    Failed(ResponseSnapshotEvent),
    /// An item was begun.
    OutputItemAdded(OutputItemAddedEvent),
    /// An item is complete.
    OutputItemDone(OutputItemDoneEvent),
    /// A part was begun.
    ContentPartAdded(ContentPartEvent),
    /// A part is complete.
    ContentPartDone(ContentPartEvent),
    /// Text was added.
    OutputTextDelta(OutputTextDeltaEvent),
    /// Text is complete.
    OutputTextDone(OutputTextDoneEvent),
    /// An annotation was added.
    OutputTextAnnotationAdded(OutputTextAnnotationAddedEvent),
    /// A refusal's text was added.
    RefusalDelta(ContentDeltaEvent),
    /// A refusal is complete.
    RefusalDone(RefusalDoneEvent),
    /// A function's arguments were added.
    FunctionCallArgumentsDelta(FunctionCallArgumentsDeltaEvent),
    /// A function's arguments are complete.
    FunctionCallArgumentsDone(FunctionCallArgumentsDoneEvent),
    /// Reasoning was added.
    ReasoningDelta(ContentDeltaEvent),
    /// Reasoning is complete.
    ReasoningDone(ReasoningDoneEvent),
    /// A part of a summary was begun.
    ReasoningSummaryPartAdded(SummaryPartEvent),
    /// A part of a summary is complete.
    ReasoningSummaryPartDone(SummaryPartEvent),
    /// A summary's text was added.
    ReasoningSummaryTextDelta(ReasoningSummaryTextDeltaEvent),
    /// A summary's text is complete.
    ReasoningSummaryTextDone(ReasoningSummaryTextDoneEvent),
    /// Something went wrong.
    Error(ErrorEvent),
    /// Binary data is under way.
    DataInProgress(DataEvent),
    /// Binary data is complete.
    DataDone(DataEvent),
    /// One of a type that the core does not own, kept as it is.
    Other(Extension),
}

impl StreamingEvent {
    /// The kind, of one that the core owns.
    pub open spec fn spec_kind(self) -> Option<EventKind> {
        match self {
            StreamingEvent::Created(_) => Some(EventKind::Created),
            StreamingEvent::InProgress(_) => Some(EventKind::InProgress),
            StreamingEvent::Queued(_) => Some(EventKind::Queued),
            StreamingEvent::Completed(_) => Some(EventKind::Completed),
            StreamingEvent::Incomplete(_) => Some(EventKind::Incomplete),
            StreamingEvent::Failed(_) => Some(EventKind::Failed),
            StreamingEvent::OutputItemAdded(_) => Some(EventKind::OutputItemAdded),
            StreamingEvent::OutputItemDone(_) => Some(EventKind::OutputItemDone),
            StreamingEvent::ContentPartAdded(_) => Some(EventKind::ContentPartAdded),
            StreamingEvent::ContentPartDone(_) => Some(EventKind::ContentPartDone),
            StreamingEvent::OutputTextDelta(_) => Some(EventKind::OutputTextDelta),
            StreamingEvent::OutputTextDone(_) => Some(EventKind::OutputTextDone),
            StreamingEvent::OutputTextAnnotationAdded(_) =>
                Some(EventKind::OutputTextAnnotationAdded),
            StreamingEvent::RefusalDelta(_) => Some(EventKind::RefusalDelta),
            StreamingEvent::RefusalDone(_) => Some(EventKind::RefusalDone),
            StreamingEvent::FunctionCallArgumentsDelta(_) =>
                Some(EventKind::FunctionCallArgumentsDelta),
            StreamingEvent::FunctionCallArgumentsDone(_) =>
                Some(EventKind::FunctionCallArgumentsDone),
            StreamingEvent::ReasoningDelta(_) => Some(EventKind::ReasoningDelta),
            StreamingEvent::ReasoningDone(_) => Some(EventKind::ReasoningDone),
            StreamingEvent::ReasoningSummaryPartAdded(_) =>
                Some(EventKind::ReasoningSummaryPartAdded),
            StreamingEvent::ReasoningSummaryPartDone(_) =>
                Some(EventKind::ReasoningSummaryPartDone),
            StreamingEvent::ReasoningSummaryTextDelta(_) =>
                Some(EventKind::ReasoningSummaryTextDelta),
            StreamingEvent::ReasoningSummaryTextDone(_) =>
                Some(EventKind::ReasoningSummaryTextDone),
            StreamingEvent::Error(_) => Some(EventKind::Error),
            StreamingEvent::DataInProgress(_) => Some(EventKind::DataInProgress),
            StreamingEvent::DataDone(_) => Some(EventKind::DataDone),
            StreamingEvent::Other(_) => None,
        }
    }

    /// What one that the core owns carries.
    pub open spec fn spec_payload(self) -> Option<EventPayload> {
        match self {
            StreamingEvent::Created(v) => Some(EventPayload::Snapshot(v)),
            StreamingEvent::InProgress(v) => Some(EventPayload::Snapshot(v)),
            StreamingEvent::Queued(v) => Some(EventPayload::Snapshot(v)),
            StreamingEvent::Completed(v) => Some(EventPayload::Snapshot(v)),
            StreamingEvent::Incomplete(v) => Some(EventPayload::Snapshot(v)),
            StreamingEvent::Failed(v) => Some(EventPayload::Snapshot(v)),
            StreamingEvent::OutputItemAdded(v) => Some(EventPayload::OutputItemAdded(v)),
            StreamingEvent::OutputItemDone(v) => Some(EventPayload::OutputItemDone(v)),
            StreamingEvent::ContentPartAdded(v) => Some(EventPayload::ContentPart(v)),
            StreamingEvent::ContentPartDone(v) => Some(EventPayload::ContentPart(v)),
            StreamingEvent::OutputTextDelta(v) => Some(EventPayload::OutputTextDelta(v)),
            StreamingEvent::OutputTextDone(v) => Some(EventPayload::OutputTextDone(v)),
            StreamingEvent::OutputTextAnnotationAdded(v) => Some(EventPayload::AnnotationAdded(v)),
            StreamingEvent::RefusalDelta(v) => Some(EventPayload::ContentDelta(v)),
            StreamingEvent::RefusalDone(v) => Some(EventPayload::RefusalDone(v)),
            StreamingEvent::FunctionCallArgumentsDelta(v) =>
                Some(EventPayload::FunctionCallArgumentsDelta(v)),
            StreamingEvent::FunctionCallArgumentsDone(v) =>
                Some(EventPayload::FunctionCallArgumentsDone(v)),
            StreamingEvent::ReasoningDelta(v) => Some(EventPayload::ContentDelta(v)),
            StreamingEvent::ReasoningDone(v) => Some(EventPayload::ReasoningDone(v)),
            StreamingEvent::ReasoningSummaryPartAdded(v) => Some(EventPayload::SummaryPart(v)),
            StreamingEvent::ReasoningSummaryPartDone(v) => Some(EventPayload::SummaryPart(v)),
            StreamingEvent::ReasoningSummaryTextDelta(v) =>
                Some(EventPayload::ReasoningSummaryTextDelta(v)),
            StreamingEvent::ReasoningSummaryTextDone(v) =>
                Some(EventPayload::ReasoningSummaryTextDone(v)),
            StreamingEvent::Error(v) => Some(EventPayload::Error(v)),
            StreamingEvent::DataInProgress(v) => Some(EventPayload::Data(v)),
            StreamingEvent::DataDone(v) => Some(EventPayload::Data(v)),
            StreamingEvent::Other(_) => None,
        }
    }

    /// The kind, of one that the core owns.
    pub fn kind(&self) -> (r: Option<EventKind>)
        ensures
            r == self.spec_kind(),
    {
        match self {
            StreamingEvent::Created(_) => Some(EventKind::Created),
            StreamingEvent::InProgress(_) => Some(EventKind::InProgress),
            StreamingEvent::Queued(_) => Some(EventKind::Queued),
            StreamingEvent::Completed(_) => Some(EventKind::Completed),
            StreamingEvent::Incomplete(_) => Some(EventKind::Incomplete),
            StreamingEvent::Failed(_) => Some(EventKind::Failed),
            StreamingEvent::OutputItemAdded(_) => Some(EventKind::OutputItemAdded),
            StreamingEvent::OutputItemDone(_) => Some(EventKind::OutputItemDone),
            StreamingEvent::ContentPartAdded(_) => Some(EventKind::ContentPartAdded),
            StreamingEvent::ContentPartDone(_) => Some(EventKind::ContentPartDone),
            StreamingEvent::OutputTextDelta(_) => Some(EventKind::OutputTextDelta),
            StreamingEvent::OutputTextDone(_) => Some(EventKind::OutputTextDone),
            StreamingEvent::OutputTextAnnotationAdded(_) =>
                Some(EventKind::OutputTextAnnotationAdded),
            StreamingEvent::RefusalDelta(_) => Some(EventKind::RefusalDelta),
            StreamingEvent::RefusalDone(_) => Some(EventKind::RefusalDone),
            StreamingEvent::FunctionCallArgumentsDelta(_) =>
                Some(EventKind::FunctionCallArgumentsDelta),
            StreamingEvent::FunctionCallArgumentsDone(_) =>
                Some(EventKind::FunctionCallArgumentsDone),
            StreamingEvent::ReasoningDelta(_) => Some(EventKind::ReasoningDelta),
            StreamingEvent::ReasoningDone(_) => Some(EventKind::ReasoningDone),
            StreamingEvent::ReasoningSummaryPartAdded(_) =>
                Some(EventKind::ReasoningSummaryPartAdded),
            StreamingEvent::ReasoningSummaryPartDone(_) =>
                Some(EventKind::ReasoningSummaryPartDone),
            StreamingEvent::ReasoningSummaryTextDelta(_) =>
                Some(EventKind::ReasoningSummaryTextDelta),
            StreamingEvent::ReasoningSummaryTextDone(_) =>
                Some(EventKind::ReasoningSummaryTextDone),
            StreamingEvent::Error(_) => Some(EventKind::Error),
            StreamingEvent::DataInProgress(_) => Some(EventKind::DataInProgress),
            StreamingEvent::DataDone(_) => Some(EventKind::DataDone),
            StreamingEvent::Other(_) => None,
        }
    }

    /// The one of the given kind that carries `payload`. A payload of another shape
    /// is handed back.
    pub fn from_parts(kind: EventKind, payload: EventPayload) -> (r: Result<
        StreamingEvent,
        EventPayload,
    >)
        ensures
            match r {
                Ok(value) =>
                    value.spec_kind() == Some(kind) && value.spec_payload() == Some(payload),
                Err(same) => kind.spec_shape() != payload.spec_shape() && same == payload,
            },
    {
        match (kind, payload) {
            (EventKind::Created, EventPayload::Snapshot(v)) => Ok(StreamingEvent::Created(v)),
            (EventKind::InProgress, EventPayload::Snapshot(v)) => Ok(StreamingEvent::InProgress(v)),
            (EventKind::Queued, EventPayload::Snapshot(v)) => Ok(StreamingEvent::Queued(v)),
            (EventKind::Completed, EventPayload::Snapshot(v)) => Ok(StreamingEvent::Completed(v)),
            (EventKind::Incomplete, EventPayload::Snapshot(v)) => Ok(StreamingEvent::Incomplete(v)),
            (EventKind::Failed, EventPayload::Snapshot(v)) => Ok(StreamingEvent::Failed(v)),
            (EventKind::OutputItemAdded, EventPayload::OutputItemAdded(v)) =>
                Ok(StreamingEvent::OutputItemAdded(v)),
            (EventKind::OutputItemDone, EventPayload::OutputItemDone(v)) =>
                Ok(StreamingEvent::OutputItemDone(v)),
            (EventKind::ContentPartAdded, EventPayload::ContentPart(v)) =>
                Ok(StreamingEvent::ContentPartAdded(v)),
            (EventKind::ContentPartDone, EventPayload::ContentPart(v)) =>
                Ok(StreamingEvent::ContentPartDone(v)),
            (EventKind::OutputTextDelta, EventPayload::OutputTextDelta(v)) =>
                Ok(StreamingEvent::OutputTextDelta(v)),
            (EventKind::OutputTextDone, EventPayload::OutputTextDone(v)) =>
                Ok(StreamingEvent::OutputTextDone(v)),
            (EventKind::OutputTextAnnotationAdded, EventPayload::AnnotationAdded(v)) =>
                Ok(StreamingEvent::OutputTextAnnotationAdded(v)),
            (EventKind::RefusalDelta, EventPayload::ContentDelta(v)) =>
                Ok(StreamingEvent::RefusalDelta(v)),
            (EventKind::RefusalDone, EventPayload::RefusalDone(v)) =>
                Ok(StreamingEvent::RefusalDone(v)),
            (EventKind::FunctionCallArgumentsDelta, EventPayload::FunctionCallArgumentsDelta(v)) =>
                Ok(StreamingEvent::FunctionCallArgumentsDelta(v)),
            (EventKind::FunctionCallArgumentsDone, EventPayload::FunctionCallArgumentsDone(v)) =>
                Ok(StreamingEvent::FunctionCallArgumentsDone(v)),
            (EventKind::ReasoningDelta, EventPayload::ContentDelta(v)) =>
                Ok(StreamingEvent::ReasoningDelta(v)),
            (EventKind::ReasoningDone, EventPayload::ReasoningDone(v)) =>
                Ok(StreamingEvent::ReasoningDone(v)),
            (EventKind::ReasoningSummaryPartAdded, EventPayload::SummaryPart(v)) =>
                Ok(StreamingEvent::ReasoningSummaryPartAdded(v)),
            (EventKind::ReasoningSummaryPartDone, EventPayload::SummaryPart(v)) =>
                Ok(StreamingEvent::ReasoningSummaryPartDone(v)),
            (EventKind::ReasoningSummaryTextDelta, EventPayload::ReasoningSummaryTextDelta(v)) =>
                Ok(StreamingEvent::ReasoningSummaryTextDelta(v)),
            (EventKind::ReasoningSummaryTextDone, EventPayload::ReasoningSummaryTextDone(v)) =>
                Ok(StreamingEvent::ReasoningSummaryTextDone(v)),
            (EventKind::Error, EventPayload::Error(v)) => Ok(StreamingEvent::Error(v)),
            (EventKind::DataInProgress, EventPayload::Data(v)) =>
                Ok(StreamingEvent::DataInProgress(v)),
            (EventKind::DataDone, EventPayload::Data(v)) => Ok(StreamingEvent::DataDone(v)),
            (_, payload) => Err(payload),
        }
    }

    /// The kind and what is carried, of one that the core owns; else the value as it
    /// came.
    pub fn into_parts(self) -> (r: Result<(EventKind, EventPayload), Extension>)
        ensures
            match r {
                Ok((kind, payload)) => self.spec_kind() == Some(kind) && self.spec_payload() == Some(
                    payload,
                ),
                Err(extension) => self == StreamingEvent::Other(extension),
            },
    {
        match self {
            StreamingEvent::Created(v) => Ok((EventKind::Created, EventPayload::Snapshot(v))),
            StreamingEvent::InProgress(v) => Ok((EventKind::InProgress, EventPayload::Snapshot(v))),
            StreamingEvent::Queued(v) => Ok((EventKind::Queued, EventPayload::Snapshot(v))),
            StreamingEvent::Completed(v) => Ok((EventKind::Completed, EventPayload::Snapshot(v))),
            StreamingEvent::Incomplete(v) => Ok((EventKind::Incomplete, EventPayload::Snapshot(v))),
            StreamingEvent::Failed(v) => Ok((EventKind::Failed, EventPayload::Snapshot(v))),
            StreamingEvent::OutputItemAdded(v) =>
                Ok((EventKind::OutputItemAdded, EventPayload::OutputItemAdded(v))),
            StreamingEvent::OutputItemDone(v) =>
                Ok((EventKind::OutputItemDone, EventPayload::OutputItemDone(v))),
            StreamingEvent::ContentPartAdded(v) =>
                Ok((EventKind::ContentPartAdded, EventPayload::ContentPart(v))),
            StreamingEvent::ContentPartDone(v) =>
                Ok((EventKind::ContentPartDone, EventPayload::ContentPart(v))),
            StreamingEvent::OutputTextDelta(v) =>
                Ok((EventKind::OutputTextDelta, EventPayload::OutputTextDelta(v))),
            StreamingEvent::OutputTextDone(v) =>
                Ok((EventKind::OutputTextDone, EventPayload::OutputTextDone(v))),
            StreamingEvent::OutputTextAnnotationAdded(v) =>
                Ok((EventKind::OutputTextAnnotationAdded, EventPayload::AnnotationAdded(v))),
            StreamingEvent::RefusalDelta(v) =>
                Ok((EventKind::RefusalDelta, EventPayload::ContentDelta(v))),
            StreamingEvent::RefusalDone(v) =>
                Ok((EventKind::RefusalDone, EventPayload::RefusalDone(v))),
            StreamingEvent::FunctionCallArgumentsDelta(v) =>
                Ok((EventKind::FunctionCallArgumentsDelta, EventPayload::FunctionCallArgumentsDelta(v))),
            StreamingEvent::FunctionCallArgumentsDone(v) =>
                Ok((EventKind::FunctionCallArgumentsDone, EventPayload::FunctionCallArgumentsDone(v))),
            StreamingEvent::ReasoningDelta(v) =>
                Ok((EventKind::ReasoningDelta, EventPayload::ContentDelta(v))),
            StreamingEvent::ReasoningDone(v) =>
                Ok((EventKind::ReasoningDone, EventPayload::ReasoningDone(v))),
            StreamingEvent::ReasoningSummaryPartAdded(v) =>
                Ok((EventKind::ReasoningSummaryPartAdded, EventPayload::SummaryPart(v))),
            StreamingEvent::ReasoningSummaryPartDone(v) =>
                Ok((EventKind::ReasoningSummaryPartDone, EventPayload::SummaryPart(v))),
            StreamingEvent::ReasoningSummaryTextDelta(v) =>
                Ok((EventKind::ReasoningSummaryTextDelta, EventPayload::ReasoningSummaryTextDelta(v))),
            StreamingEvent::ReasoningSummaryTextDone(v) =>
                Ok((EventKind::ReasoningSummaryTextDone, EventPayload::ReasoningSummaryTextDone(v))),
            StreamingEvent::Error(v) => Ok((EventKind::Error, EventPayload::Error(v))),
            StreamingEvent::DataInProgress(v) =>
                Ok((EventKind::DataInProgress, EventPayload::Data(v))),
            StreamingEvent::DataDone(v) => Ok((EventKind::DataDone, EventPayload::Data(v))),
            StreamingEvent::Other(extension) => Err(extension),
        }
    }
}

/// An event as it is on the wire.
#[derive(Clone, Debug, PartialEq)]
pub enum WireEvent {
    /// One that the core owns, and the document it carries.
    Core { kind: EventKind, document: serde_json::Value },
    /// One of a type that the core does not own.
    Other(Extension),
}

/// Whether `value` is of a kind that the core owns.
pub open spec fn event_of_kind(value: serde_json::Value, kind: EventKind) -> bool {
    tag_view(value) == Some(kind.spec_tag())
}

/// Reads a document: by the text under `type` it is one of the core's, or else it is
/// kept as it is.
pub fn read_event(value: serde_json::Value) -> (r: WireEvent)
    ensures
        match r {
            WireEvent::Core { kind, document } => event_of_kind(value, kind) && document == value,
            WireEvent::Other(extension) => extension.0 == value && forall|kind: EventKind|
                !event_of_kind(value, kind),
        },
{
    let kind = match tag_of(&value) {
        Some(tag) => EventKind::from_tag(tag),
        None => None,
    };
    match kind {
        Some(kind) => WireEvent::Core { kind, document: value },
        None => WireEvent::Other(Extension(value)),
    }
}

/// Writes a document: one of the core's with the text of its kind under `type`, any
/// other as it came.
pub fn write_event(value: WireEvent) -> (r: Result<serde_json::Value, TagError>)
    ensures
        match value {
            WireEvent::Core { kind, document } => match r {
                Ok(written) => is_tagged(document, kind.spec_tag(), written),
                Err(_) => json_members(document) is None,
            },
            WireEvent::Other(extension) => r == Ok::<serde_json::Value, TagError>(extension.0),
        },
{
    match value {
        WireEvent::Core { kind, document } => serialize_tagged(kind.tag(), document),
        WireEvent::Other(extension) => Ok(extension.0),
    }
}

/// No two kinds have the same text under `type`.
pub proof fn law_event_tags_distinct(a: EventKind, b: EventKind)
    ensures
        a.spec_tag() == b.spec_tag() ==> a == b,
{
    reveal_strlit("response.created");
    reveal_strlit("response.in_progress");
    reveal_strlit("response.queued");
    reveal_strlit("response.completed");
    reveal_strlit("response.incomplete");
    reveal_strlit("response.failed");
    reveal_strlit("response.output_item.added");
    reveal_strlit("response.output_item.done");
    reveal_strlit("response.content_part.added");
    reveal_strlit("response.content_part.done");
    reveal_strlit("response.output_text.delta");
    reveal_strlit("response.output_text.done");
    reveal_strlit("response.output_text.annotation.added");
    reveal_strlit("response.refusal.delta");
    reveal_strlit("response.refusal.done");
    reveal_strlit("response.function_call_arguments.delta");
    reveal_strlit("response.function_call_arguments.done");
    reveal_strlit("response.reasoning.delta");
    reveal_strlit("response.reasoning.done");
    reveal_strlit("response.reasoning_summary_part.added");
    reveal_strlit("response.reasoning_summary_part.done");
    reveal_strlit("response.reasoning_summary_text.delta");
    reveal_strlit("response.reasoning_summary_text.done");
    reveal_strlit("error");
    reveal_strlit("cf_gears:response.data.in_progress");
    reveal_strlit("cf_gears:response.data.done");
    assert("response.created"@.len() == 16);
    assert("response.in_progress"@.len() == 20);
    assert("response.queued"@.len() == 15 && "response.queued"@[9] == 'q');
    assert("response.completed"@.len() == 18);
    assert("response.incomplete"@.len() == 19);
    assert("response.failed"@.len() == 15 && "response.failed"@[9] == 'f');
    assert("response.output_item.added"@.len() == 26
        && "response.output_item.added"@[9] == 'o'
        && "response.output_item.added"@[16] == 'i');
    assert("response.output_item.done"@.len() == 25 && "response.output_item.done"@[16] == 'i');
    assert("response.content_part.added"@.len() == 27 && "response.content_part.added"@[0] == 'r');
    assert("response.content_part.done"@.len() == 26 && "response.content_part.done"@[9] == 'c');
    assert("response.output_text.delta"@.len() == 26
        && "response.output_text.delta"@[9] == 'o'
        && "response.output_text.delta"@[16] == 't');
    assert("response.output_text.done"@.len() == 25 && "response.output_text.done"@[16] == 't');
    assert("response.output_text.annotation.added"@.len() == 37
        && "response.output_text.annotation.added"@[9] == 'o');
    assert("response.refusal.delta"@.len() == 22);
    assert("response.refusal.done"@.len() == 21);
    assert("response.function_call_arguments.delta"@.len() == 38);
    assert("response.function_call_arguments.done"@.len() == 37
        && "response.function_call_arguments.done"@[9] == 'f');
    assert("response.reasoning.delta"@.len() == 24);
    assert("response.reasoning.done"@.len() == 23);
    assert("response.reasoning_summary_part.added"@.len() == 37
        && "response.reasoning_summary_part.added"@[9] == 'r'
        && "response.reasoning_summary_part.added"@[27] == 'p');
    assert("response.reasoning_summary_part.done"@.len() == 36
        && "response.reasoning_summary_part.done"@[27] == 'p');
    assert("response.reasoning_summary_text.delta"@.len() == 37
        && "response.reasoning_summary_text.delta"@[9] == 'r'
        && "response.reasoning_summary_text.delta"@[27] == 't');
    assert("response.reasoning_summary_text.done"@.len() == 36
        && "response.reasoning_summary_text.done"@[27] == 't');
    assert("error"@.len() == 5);
    assert("cf_gears:response.data.in_progress"@.len() == 34);
    assert("cf_gears:response.data.done"@.len() == 27 && "cf_gears:response.data.done"@[0] == 'c');
}

/// What is written of a kind is read back as that kind, with everything it carried.
pub proof fn law_event_roundtrip(
    kind: EventKind,
    document: serde_json::Value,
    written: serde_json::Value,
    back: EventKind,
)
    requires
        is_tagged(document, kind.spec_tag(), written),
    ensures
        event_of_kind(written, kind),
        event_of_kind(written, back) ==> back == kind,
        json_members(written)->0.remove("type"@) == json_members(document)->0.remove("type"@),
{
    law_event_tags_distinct(kind, back);
}

} // verus!
