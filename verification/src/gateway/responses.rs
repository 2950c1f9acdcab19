//! Requests for a response, and responses.
use vstd::prelude::*;
use crate::gateway::content::Real;
use crate::gateway::items::{InputItem, OutputItem};
use crate::gateway::tools::Tool;

verus! {

/// Who speaks.
#[derive(Clone, Copy, Debug, PartialEq, Eq, Structural)]
pub enum Role {
    User,
    Assistant,
    System,
    Developer,
}

/// What a response is asked for with: plain text or items.
#[derive(Clone, Debug, PartialEq, Eq)]
pub enum ResponseInput {
    Text(String),
    Items(Vec<InputItem>),
}

/// A request for a response.
#[derive(Clone, Debug, PartialEq, Eq)]
pub struct CreateResponseBody {
    /// The model's canonical id.
    pub model: String,
    pub input: Option<ResponseInput>,
}

/// How far a response is.
#[derive(Clone, Copy, Debug, PartialEq, Eq, Structural)]
pub enum ResponseStatus {
    Queued,
    InProgress,
    Completed,
    Incomplete,
    Failed,
}

/// Why a response is incomplete.
#[derive(Clone, Debug, PartialEq, Eq)]
pub struct IncompleteDetails {
    pub reason: String,
}

/// Why a response failed.
#[derive(Clone, Debug, PartialEq, Eq)]
pub struct ResponseError {
    pub code: String,
    pub message: String,
}

/// Whether tools are used.
#[derive(Clone, Copy, Debug, PartialEq, Eq, Structural)]
pub enum ToolChoiceMode {
    Never,
    Auto,
    Required,
}

/// Which tool is used.
#[derive(Clone, Debug, PartialEq, Eq)]
pub enum ToolChoice {
    Mode(ToolChoiceMode),
    Named { name: String },
}

/// What becomes of input that is too long.
#[derive(Clone, Copy, Debug, PartialEq, Eq, Structural)]
pub enum TruncationStrategy {
    Auto,
    Disabled,
}

/// The form of a response's text. Nothing set leaves it to the model.
#[derive(Clone, Debug, PartialEq, Eq)]
pub struct TextFormat {
    pub format: Option<String>,
    pub verbosity: Option<String>,
}

impl Default for TextFormat {
    fn default() -> (r: Self)
        ensures
            r == (TextFormat { format: None, verbosity: None }),
    {
        TextFormat { format: None, verbosity: None }
    }
}

/// How a model reasons. Nothing set leaves it to the model.
#[derive(Clone, Debug, PartialEq, Eq)]
pub struct ReasoningConfig {
    pub effort: Option<String>,
    pub summary: Option<String>,
}

impl Default for ReasoningConfig {
    fn default() -> (r: Self)
        ensures
            r == (ReasoningConfig { effort: None, summary: None }),
    {
        ReasoningConfig { effort: None, summary: None }
    }
}

/// Tokens of the input that were known already.
#[derive(Clone, Copy, Debug, PartialEq, Eq, Structural)]
pub struct InputTokensDetails {
    pub cached_tokens: u64,
}

/// Tokens of the output that were spent on reasoning.
#[derive(Clone, Copy, Debug, PartialEq, Eq, Structural)]
pub struct OutputTokensDetails {
    pub reasoning_tokens: u64,
}

/// The tokens that a response took.
#[derive(Clone, Copy, Debug, PartialEq, Eq, Structural)]
pub struct Usage {
    pub input_tokens: u64,
    pub output_tokens: u64,
    pub total_tokens: u64,
    pub input_tokens_details: InputTokensDetails,
    pub output_tokens_details: OutputTokensDetails,
}

/// A response.
#[derive(Clone, Debug, PartialEq)]
pub struct ResponseResource {
    pub id: String,
    pub object: String,
    pub created_at: u64,
    pub completed_at: Option<u64>,
    pub status: ResponseStatus,
    pub incomplete_details: Option<IncompleteDetails>,
    pub model: String,
    pub instructions: Option<String>,
    pub output: Vec<OutputItem>,
    pub error: Option<ResponseError>,
    pub tools: Vec<Tool>,
    pub tool_choice: ToolChoice,
    pub truncation: TruncationStrategy,
    pub parallel_tool_calls: bool,
    pub text: TextFormat,
    pub top_p: Real,
    pub presence_penalty: Real,
    pub frequency_penalty: Real,
    pub top_logprobs: u32,
    pub temperature: Real,
    pub reasoning: ReasoningConfig,
    pub usage: Option<Usage>,
    pub max_output_tokens: Option<u32>,
    pub max_tool_calls: Option<u32>,
    pub service_tier: String,
    pub metadata: Option<serde_json::Value>,
    pub safety_identifier: Option<String>,
    pub prompt_cache_key: Option<String>,
}

} // verus!
