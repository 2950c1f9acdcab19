//! Items of a conversation.
use vstd::prelude::*;
use crate::gateway::content::{InputContentPart, OutputContentPart};
use crate::gateway::responses::Role;

verus! {

/// An item that is sent to a model.
#[derive(Clone, Debug, PartialEq, Eq)]
pub enum InputItem {
    Message(MessageItem),
    FunctionCall(FunctionCallItem),
    FunctionCallOutput(FunctionCallOutputItem),
    ItemReference(ItemReference),
    Reasoning(ReasoningItem),
}

/// An item that a model answers with.
#[derive(Clone, Debug, PartialEq, Eq)]
pub enum OutputItem {
    Message(MessageOutput),
    FunctionCall(FunctionCallItem),
    Reasoning(ReasoningOutput),
    Data(DataOutput),
}

/// A message to a model.
#[derive(Clone, Debug, PartialEq, Eq)]
pub struct MessageItem {
    pub id: Option<String>,
    pub role: Role,
    pub content: InputContent,
    pub status: Option<ItemStatus>,
}

/// A call of a function that a model asks for.
#[derive(Clone, Debug, PartialEq, Eq)]
pub struct FunctionCallItem {
    pub id: Option<String>,
    pub status: Option<ItemStatus>,
    pub call_id: String,
    pub name: String,
    pub arguments: String,
}

/// What a called function gave.
#[derive(Clone, Debug, PartialEq, Eq)]
pub struct FunctionCallOutputItem {
    pub id: Option<String>,
    pub call_id: String,
    pub output: InputContent,
    pub status: Option<ItemStatus>,
}

/// An earlier item, by its identifier.
#[derive(Clone, Debug, PartialEq, Eq)]
pub struct ItemReference {
    pub id: String,
}

/// A model's earlier reasoning.
#[derive(Clone, Debug, PartialEq, Eq)]
pub struct ReasoningItem {
    pub id: Option<String>,
    pub summary: Vec<ReasoningSummaryPart>,
    pub content: Option<Vec<ReasoningContentPart>>,
    pub encrypted_content: Option<String>,
}

/// A message from a model.
#[derive(Clone, Debug, PartialEq, Eq)]
pub struct MessageOutput {
    pub id: String,
    pub status: ItemStatus,
    pub role: Role,
    pub content: Vec<OutputContentPart>,
}

/// A model's reasoning.
#[derive(Clone, Debug, PartialEq, Eq)]
pub struct ReasoningOutput {
    pub id: String,
    pub summary: Option<Vec<ReasoningSummaryPart>>,
    pub content: Option<Vec<ReasoningContentPart>>,
    pub encrypted_content: Option<String>,
}

/// Binary data from a model.
#[derive(Clone, Debug, PartialEq, Eq)]
pub struct DataOutput {
    pub id: String,
    pub status: ItemStatus,
    pub mime_type: String,
    pub base64: Option<String>,
    pub url: Option<String>,
}

/// Content for a model: plain text or parts.
#[derive(Clone, Debug, PartialEq, Eq)]
pub enum InputContent {
    Text(String),
    Parts(Vec<InputContentPart>),
}

/// How far an item is.
#[derive(Clone, Copy, Debug, PartialEq, Eq, Structural)]
pub enum ItemStatus {
    InProgress,
    Completed,
    Incomplete,
}

/// A part of a summary of reasoning.
#[derive(Clone, Debug, PartialEq, Eq)]
pub enum ReasoningSummaryPart {
    SummaryText { text: String },
}

/// A part of reasoning.
#[derive(Clone, Debug, PartialEq, Eq)]
pub enum ReasoningContentPart {
    ReasoningText { text: String },
}

} // verus!
