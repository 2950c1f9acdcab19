//! The demonstration's plugin: it answers every request with an echo.
use vstd::prelude::*;
use vstd::string::*;
use crate::text::{join2, join3};
use crate::gateway::content::{OutputContentPart, OutputText, Real};
use crate::gateway::error::{LlmGatewayError, LlmGatewayErrorView};
use crate::gateway::items::{ItemStatus, MessageOutput, OutputItem};
use crate::gateway::plugin::{MediaInputMode, ProviderPluginCapabilities};
use crate::gateway::responses::{
    CreateResponseBody, InputTokensDetails, OutputTokensDetails, ReasoningConfig, ResponseInput,
    ResponseResource, ResponseStatus, Role, TextFormat, ToolChoice, ToolChoiceMode,
    TruncationStrategy, Usage,
};

verus! {

/// The number one, as the bits of a [`Real`].
pub const ONE: u64 = 0x3ff0000000000000;

/// The number zero, as the bits of a [`Real`].
pub const ZERO: u64 = 0;

/// A plugin that stands for an OpenAI provider.
#[derive(Clone, Copy, Debug)]
pub struct MockOpenAiPlugin;

/// The part of the model's settings that the plugin reads.
#[derive(Clone, Debug, PartialEq, Eq)]
pub struct OpenAiRoute {
    pub provider_model_id: String,
    pub oagw_alias: String,
}

/// The text of a request: what it says, or that it says it in parts.
pub open spec fn prompt_view(input: Option<ResponseInput>) -> Seq<char> {
    match input {
        Some(ResponseInput::Text(text)) => text@,
        Some(ResponseInput::Items(_)) => "<structured input>"@,
        None => Seq::empty(),
    }
}

/// The echo of a prompt.
pub open spec fn echo_view(route: OpenAiRoute, prompt: Seq<char>) -> Seq<char> {
    "echo from provider_model_id="@ + route.provider_model_id@ + " via oagw_alias="@
        + route.oagw_alias@ + ": "@ + prompt
}

/// Whether `r` is the complete response whose one message is `text`.
pub open spec fn is_canned(r: ResponseResource, text: Seq<char>, model: Seq<char>) -> bool {
    &&& r.id@ == "resp_demo_0001"@
    &&& r.object@ == "response"@
    &&& r.created_at == 0
    &&& r.completed_at == Some(0u64)
    &&& r.status is Completed
    &&& r.incomplete_details is None
    &&& r.model@ == model
    &&& r.instructions is None
    &&& r.output@.len() == 1
    &&& is_message(r.output@[0], text)
    &&& r.error is None
    &&& r.tools@.len() == 0
    &&& r.tool_choice == ToolChoice::Mode(ToolChoiceMode::Auto)
    &&& r.truncation is Disabled
    &&& r.parallel_tool_calls
    &&& r.text == (TextFormat { format: None, verbosity: None })
    &&& r.top_p.bits == ONE
    &&& r.presence_penalty.bits == ZERO
    &&& r.frequency_penalty.bits == ZERO
    &&& r.top_logprobs == 0
    &&& r.temperature.bits == ONE
    &&& r.reasoning == (ReasoningConfig { effort: None, summary: None })
    &&& r.usage == Some(canned_usage())
    &&& r.max_output_tokens is None
    &&& r.max_tool_calls is None
    &&& r.service_tier@ == "auto"@
    &&& r.metadata is None
    &&& r.safety_identifier is None
    &&& r.prompt_cache_key is None
}

/// The tokens that every echo takes.
pub open spec fn canned_usage() -> Usage {
    Usage {
        input_tokens: 8,
        output_tokens: 12,
        total_tokens: 20,
        input_tokens_details: InputTokensDetails { cached_tokens: 0 },
        output_tokens_details: OutputTokensDetails { reasoning_tokens: 0 },
    }
}

/// Whether `item` is the assistant's complete message that says `text`.
pub open spec fn is_message(item: OutputItem, text: Seq<char>) -> bool {
    &&& item matches OutputItem::Message(message)
    &&& message.id@ == "msg_demo_0001"@
    &&& message.status is Completed
    &&& message.role is Assistant
    &&& message.content@.len() == 1
    &&& message.content@[0] matches OutputContentPart::OutputText(part)
    &&& part.text@ == text
    &&& part.annotations@.len() == 0
    &&& part.logprobs is None
}

/// The complete response whose one message is `text`.
pub fn mock_response(text: &str, model: &str) -> (r: ResponseResource)
    ensures
        is_canned(r, text@, model@),
{
    let mut content: Vec<OutputContentPart> = Vec::new();
    content.push(
        OutputContentPart::OutputText(
            OutputText { text: text.to_owned(), annotations: Vec::new(), logprobs: None },
        ),
    );
    let message = MessageOutput {
        id: "msg_demo_0001".to_owned(),
        status: ItemStatus::Completed,
        role: Role::Assistant,
        content,
    };
    let mut output: Vec<OutputItem> = Vec::new();
    output.push(OutputItem::Message(message));
    ResponseResource {
        id: "resp_demo_0001".to_owned(),
        object: "response".to_owned(),
        created_at: 0,
        completed_at: Some(0),
        status: ResponseStatus::Completed,
        incomplete_details: None,
        model: model.to_owned(),
        instructions: None,
        output,
        error: None,
        tools: Vec::new(),
        tool_choice: ToolChoice::Mode(ToolChoiceMode::Auto),
        truncation: TruncationStrategy::Disabled,
        parallel_tool_calls: true,
        text: TextFormat::default(),
        top_p: Real { bits: ONE },
        presence_penalty: Real { bits: ZERO },
        frequency_penalty: Real { bits: ZERO },
        top_logprobs: 0,
        temperature: Real { bits: ONE },
        reasoning: ReasoningConfig::default(),
        usage: Some(
            Usage {
                input_tokens: 8,
                output_tokens: 12,
                total_tokens: 20,
                input_tokens_details: InputTokensDetails { cached_tokens: 0 },
                output_tokens_details: OutputTokensDetails { reasoning_tokens: 0 },
            },
        ),
        max_output_tokens: None,
        max_tool_calls: None,
        service_tier: "auto".to_owned(),
        metadata: None,
        safety_identifier: None,
        prompt_cache_key: None,
    }
}

impl MockOpenAiPlugin {
    /// What the plugin can do.
    pub fn capabilities(&self) -> (r: ProviderPluginCapabilities)
        ensures
            r == (ProviderPluginCapabilities {
                streaming_transport: true,
                media_input: MediaInputMode::UrlForward,
            }),
    {
        ProviderPluginCapabilities {
            streaming_transport: true,
            media_input: MediaInputMode::UrlForward,
        }
    }

    /// The answer to a request for a streamed response.
    pub fn create_response_stream(&self) -> (r: LlmGatewayError)
        ensures
            r@ == (LlmGatewayErrorView::CapabilityNotSupported {
                message: "streaming not implemented in demo"@,
            }),
    {
        LlmGatewayError::capability_not_supported("streaming not implemented in demo")
    }

    /// The answer to a request for an embedding.
    pub fn create_embedding(&self) -> (r: LlmGatewayError)
        ensures
            r@ == (LlmGatewayErrorView::CapabilityNotSupported {
                message: "embeddings not implemented in demo"@,
            }),
    {
        LlmGatewayError::capability_not_supported("embeddings not implemented in demo")
    }

    /// The answer to a request, given the model's settings as they were read, or why
    /// they could not be.
    pub fn create_response(&self, route: Result<OpenAiRoute, String>, body: CreateResponseBody) -> (r:
        Result<ResponseResource, LlmGatewayError>)
        ensures
            match route {
                Ok(route) => r matches Ok(response) && is_canned(
                    response,
                    echo_view(route, prompt_view(body.input)),
                    body.model@,
                ),
                Err(why) => r matches Err(e) && e@ == (LlmGatewayErrorView::Internal {
                    message: "failed to narrow OpenAI model info: "@ + why@,
                }),
            },
    {
        let route = match route {
            Ok(route) => route,
            Err(why) => {
                return Err(
                    LlmGatewayError::Internal {
                        message: join2("failed to narrow OpenAI model info: ", why.as_str()),
                    },
                );
            },
        };
        let prompt = match body.input {
            Some(input) => match input {
                ResponseInput::Text(text) => text,
                ResponseInput::Items(_) => "<structured input>".to_owned(),
            },
            None => String::new(),
        };
        let reply = join2(
            join3(
                join3(
                    "echo from provider_model_id=",
                    route.provider_model_id.as_str(),
                    " via oagw_alias=",
                ).as_str(),
                route.oagw_alias.as_str(),
                ": ",
            ).as_str(),
            prompt.as_str(),
        );
        Ok(mock_response(reply.as_str(), body.model.as_str()))
    }
}

} // verus!
