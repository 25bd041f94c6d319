//! Chat completion responses, unary and streamed.

use super::tool_calls::ChatCompletionMessageToolCallChunk;
use vstd::prelude::*;

verus! {

/// The fields of an OpenAI chat completion response.
///
/// What only other parts of a server look into is held as JSON.
#[derive(Debug, Clone, PartialEq)]
pub struct CreateChatCompletionResponse {
    pub id: String,
    pub choices: Vec<serde_json::Value>,
    pub created: u32,
    pub model: String,
    pub object: String,
    pub system_fingerprint: Option<String>,
    pub service_tier: Option<serde_json::Value>,
    pub usage: Option<serde_json::Value>,
}

/// A unary response: OpenAI's fields, and extensions of them.
#[derive(Debug, Clone, PartialEq)]
pub struct NvCreateChatCompletionResponse {
    pub inner: CreateChatCompletionResponse,
    pub nvext: Option<serde_json::Value>,
}

/// What a streamed choice adds to its message.
#[derive(Debug, Clone, PartialEq)]
pub struct ChatCompletionStreamResponseDelta {
    /// The role, by its name on the wire.
    pub role: Option<String>,
    pub content: Option<serde_json::Value>,
    pub tool_calls: Option<Vec<ChatCompletionMessageToolCallChunk>>,
    pub function_call: Option<serde_json::Value>,
    pub refusal: Option<String>,
    pub reasoning_content: Option<String>,
}

/// A streamed choice.
#[derive(Debug, Clone, PartialEq)]
pub struct ChatChoiceStream {
    pub index: u32,
    pub delta: ChatCompletionStreamResponseDelta,
    /// Why the choice ended, by its name on the wire.
    pub finish_reason: Option<String>,
    pub logprobs: Option<serde_json::Value>,
}

/// The fields of an OpenAI chat completion chunk.
#[derive(Debug, Clone, PartialEq)]
pub struct CreateChatCompletionStreamResponse {
    pub id: String,
    pub choices: Vec<ChatChoiceStream>,
    pub created: u32,
    pub model: String,
    pub object: String,
    pub system_fingerprint: Option<String>,
    pub service_tier: Option<serde_json::Value>,
    pub usage: Option<serde_json::Value>,
}

/// A streamed response: OpenAI's fields, and extensions of them.
#[derive(Debug, Clone, PartialEq)]
pub struct NvCreateChatCompletionStreamResponse {
    pub inner: CreateChatCompletionStreamResponse,
    pub nvext: Option<serde_json::Value>,
    /// Metrics of the frontend, which no client sees.
    pub llm_metrics: Option<serde_json::Value>,
}

/// An item of a stream of responses.
#[derive(Debug, Clone, PartialEq)]
pub struct Annotated<R> {
    pub data: Option<R>,
    pub id: Option<String>,
    pub event: Option<String>,
    pub comment: Option<Vec<String>>,
    pub error: Option<String>,
}

impl NvCreateChatCompletionStreamResponse {
    /// `chunk` is a chunk of the same completion, with the one choice `choice`.
    /// It accounts for nothing: what was used and measured belongs to the chunk
    /// that reports it.
    pub open spec fn has_choice_chunk(self, chunk: Self, choice: ChatChoiceStream) -> bool {
        &&& chunk.inner.choices@ == seq![choice]
        &&& chunk == NvCreateChatCompletionStreamResponse {
            inner: CreateChatCompletionStreamResponse {
                choices: chunk.inner.choices,
                usage: None,
                ..self.inner
            },
            llm_metrics: None,
            ..self
        }
    }
}

pub(crate) fn copy_text(text: &Option<String>) -> (copy: Option<String>)
    ensures
        copy == *text,
{
    match text {
        Some(text) => Some(text.clone()),
        None => None,
    }
}

fn copy_json(value: &Option<serde_json::Value>) -> (copy: Option<serde_json::Value>)
    ensures
        copy == *value,
{
    match value {
        Some(value) => Some(value.clone()),
        None => None,
    }
}

/// Builds one choice of a stream from a response that the stream already has.
///
/// Tool-call streams use it where an engine leaves out the last choice.
pub fn stream_choice_chunk_from_template(
    template: &NvCreateChatCompletionStreamResponse,
    index: u32,
    content: Option<serde_json::Value>,
    tool_calls: Option<Vec<ChatCompletionMessageToolCallChunk>>,
    finish_reason: Option<String>,
) -> (chunk: Annotated<NvCreateChatCompletionStreamResponse>)
    ensures
        chunk.data matches Some(response) && template.has_choice_chunk(
            response,
            ChatChoiceStream {
                index,
                delta: ChatCompletionStreamResponseDelta {
                    role: None,
                    content,
                    tool_calls,
                    function_call: None,
                    refusal: None,
                    reasoning_content: None,
                },
                finish_reason,
                logprobs: None,
            },
        ),
        chunk.id is None,
        chunk.event is None,
        chunk.comment is None,
        chunk.error is None,
{
    let choice = ChatChoiceStream {
        index,
        delta: ChatCompletionStreamResponseDelta {
            role: None,
            content,
            tool_calls,
            function_call: None,
            refusal: None,
            reasoning_content: None,
        },
        finish_reason,
        logprobs: None,
    };
    let mut choices: Vec<ChatChoiceStream> = Vec::new();
    choices.push(choice);
    assert(choices@ =~= seq![choice]);
    let response = NvCreateChatCompletionStreamResponse {
        inner: CreateChatCompletionStreamResponse {
            id: template.inner.id.clone(),
            choices,
            created: template.inner.created,
            model: template.inner.model.clone(),
            object: template.inner.object.clone(),
            system_fingerprint: copy_text(&template.inner.system_fingerprint),
            service_tier: copy_json(&template.inner.service_tier),
            usage: None,
        },
        nvext: copy_json(&template.nvext),
        llm_metrics: None,
    };
    Annotated { data: Some(response), id: None, event: None, comment: None, error: None }
}

/// A synthetic choice is the only one of its chunk, with what it was made from and
/// nothing else. The chunk is of the completion of its template, field by field,
/// and accounts for nothing, whatever the template accounts for.
pub proof fn law_synthetic_choice_stands_alone(
    template: NvCreateChatCompletionStreamResponse,
    index: u32,
    content: Option<serde_json::Value>,
    tool_calls: Option<Vec<ChatCompletionMessageToolCallChunk>>,
    finish_reason: Option<String>,
    chunk: Annotated<NvCreateChatCompletionStreamResponse>,
)
    requires
        call_ensures(
            stream_choice_chunk_from_template,
            (&template, index, content, tool_calls, finish_reason),
            chunk,
        ),
    ensures
        chunk.data is Some,
        chunk.id is None && chunk.event is None && chunk.comment is None && chunk.error is None,
        ({
            let made = chunk.data->0;
            &&& made.inner.usage is None
            &&& made.llm_metrics is None
            &&& made.nvext == template.nvext
            &&& made.inner.id == template.inner.id
            &&& made.inner.created == template.inner.created
            &&& made.inner.model == template.inner.model
            &&& made.inner.object == template.inner.object
            &&& made.inner.system_fingerprint == template.inner.system_fingerprint
            &&& made.inner.service_tier == template.inner.service_tier
            &&& made.inner.choices@.len() == 1
            &&& made.inner.choices@[0].index == index
            &&& made.inner.choices@[0].finish_reason == finish_reason
            &&& made.inner.choices@[0].logprobs is None
            &&& made.inner.choices@[0].delta.content == content
            &&& made.inner.choices@[0].delta.tool_calls == tool_calls
            &&& made.inner.choices@[0].delta.role is None
            &&& made.inner.choices@[0].delta.function_call is None
            &&& made.inner.choices@[0].delta.refusal is None
            &&& made.inner.choices@[0].delta.reasoning_content is None
        }),
{
}

} // verus!
