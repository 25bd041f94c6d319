//! A chat completion request.

#[allow(unused_imports)]
use crate::json::fields;
use vstd::prelude::*;

verus! {

/// A 32-bit floating-point number, by its bits.
#[derive(Clone, Copy, Debug, PartialEq, Eq, Structural)]
pub struct FloatBits {
    pub bits: u32,
}

/// Where generation stops.
#[derive(Debug, Clone, PartialEq)]
pub enum Stop {
    /// At one string.
    String(String),
    /// At any of some strings.
    StringArray(Vec<String>),
    /// At any of some tokens.
    TokenIdArray(Vec<u32>),
}

/// The JSON Schema that a response is to follow.
#[derive(Debug, Clone, PartialEq)]
pub struct JsonSchemaFormat {
    pub name: String,
    pub description: Option<String>,
    pub schema: serde_json::Value,
    pub strict: Option<bool>,
}

/// The format that a response is to have.
#[derive(Debug, Clone, PartialEq)]
pub enum ResponseFormat {
    Text,
    JsonObject,
    JsonSchema { json_schema: JsonSchemaFormat },
}

/// The fields of an OpenAI chat completion request.
///
/// What only other parts of a server look into is held as JSON.
#[derive(Debug, Clone, PartialEq)]
pub struct CreateChatCompletionRequest {
    pub model: String,
    pub messages: Vec<serde_json::Value>,
    /// The requested reasoning effort, by its name on the wire.
    pub reasoning_effort: Option<String>,
    pub stop: Option<Stop>,
    pub n: Option<u8>,
    pub seed: Option<i64>,
    pub logprobs: Option<bool>,
    pub top_logprobs: Option<u8>,
    pub max_tokens: Option<u32>,
    pub max_completion_tokens: Option<u32>,
    pub temperature: Option<FloatBits>,
    pub top_p: Option<FloatBits>,
    pub frequency_penalty: Option<FloatBits>,
    pub presence_penalty: Option<FloatBits>,
    pub logit_bias: Option<serde_json::Value>,
    pub response_format: Option<ResponseFormat>,
    pub service_tier: Option<serde_json::Value>,
    pub tools: Option<Vec<serde_json::Value>>,
    pub tool_choice: Option<serde_json::Value>,
    pub user: Option<String>,
    /// OpenAI's other fields.
    pub other_fields: serde_json::Map<String, serde_json::Value>,
}

/// Extension fields that stand beside the OpenAI fields.
#[derive(Debug, Clone, PartialEq)]
pub struct CommonExt {
    pub ignore_eos: Option<bool>,
    pub min_tokens: Option<u32>,
    pub top_k: Option<i32>,
    pub min_p: Option<FloatBits>,
    pub repetition_penalty: Option<FloatBits>,
    pub include_stop_str_in_output: Option<bool>,
    pub guided_json: Option<serde_json::Value>,
    pub guided_regex: Option<String>,
    pub guided_grammar: Option<String>,
    pub guided_choice: Option<Vec<String>>,
    pub guided_decoding_backend: Option<String>,
    pub guided_whitespace_pattern: Option<String>,
    pub skip_special_tokens: Option<bool>,
    pub prompt_logprobs: Option<u32>,
}

/// Extension fields under `nvext`.
#[derive(Debug, Clone, PartialEq)]
pub struct NvExt {
    pub annotations: Option<Vec<String>>,
    pub extra_fields: Option<Vec<String>>,
    /// The other fields under `nvext`.
    pub other_fields: serde_json::Map<String, serde_json::Value>,
}

/// A request for a chat completion: OpenAI's fields, and extensions of them.
#[derive(Debug, Clone, PartialEq)]
pub struct NvCreateChatCompletionRequest {
    pub inner: CreateChatCompletionRequest,
    pub common: CommonExt,
    pub nvext: Option<NvExt>,
    /// What is handed to the chat template.
    pub chat_template_args: Option<serde_json::Map<String, serde_json::Value>>,
    /// OpenAI's control of thinking, until it is folded into
    /// `chat_template_args`.
    pub thinking: Option<serde_json::Value>,
    /// How media are decoded.
    pub media_io_kwargs: Option<serde_json::Value>,
    /// Tokens are named by their ids in log probabilities.
    pub return_tokens_as_token_ids: Option<bool>,
    /// The fields that the request has besides.
    pub unsupported_fields: serde_json::Map<String, serde_json::Value>,
}

impl CommonExt {
    /// No field is set.
    pub open spec fn unset() -> Self {
        CommonExt {
            ignore_eos: None,
            min_tokens: None,
            top_k: None,
            min_p: None,
            repetition_penalty: None,
            include_stop_str_in_output: None,
            guided_json: None,
            guided_regex: None,
            guided_grammar: None,
            guided_choice: None,
            guided_decoding_backend: None,
            guided_whitespace_pattern: None,
            skip_special_tokens: None,
            prompt_logprobs: None,
        }
    }
}

impl NvCreateChatCompletionRequest {
    /// The request with a model and messages, with other fields of OpenAI's and
    /// fields besides, and nothing else.
    pub open spec fn bare(
        model: String,
        messages: Vec<serde_json::Value>,
        other_fields: serde_json::Map<String, serde_json::Value>,
        unsupported_fields: serde_json::Map<String, serde_json::Value>,
    ) -> Self {
        NvCreateChatCompletionRequest {
            inner: CreateChatCompletionRequest {
                model,
                messages,
                reasoning_effort: None,
                stop: None,
                n: None,
                seed: None,
                logprobs: None,
                top_logprobs: None,
                max_tokens: None,
                max_completion_tokens: None,
                temperature: None,
                top_p: None,
                frequency_penalty: None,
                presence_penalty: None,
                logit_bias: None,
                response_format: None,
                service_tier: None,
                tools: None,
                tool_choice: None,
                user: None,
                other_fields,
            },
            common: CommonExt::unset(),
            nvext: None,
            chat_template_args: None,
            thinking: None,
            media_io_kwargs: None,
            return_tokens_as_token_ids: None,
            unsupported_fields,
        }
    }

    /// A request with a model and messages and nothing else.
    pub fn new(model: String, messages: Vec<serde_json::Value>) -> (request: Self)
        ensures
            request == Self::bare(
                model,
                messages,
                request.inner.other_fields,
                request.unsupported_fields,
            ),
            (fields(request.inner.other_fields) == Map::<Seq<char>, crate::json::Json>::empty()),
            (fields(request.unsupported_fields) == Map::<Seq<char>, crate::json::Json>::empty()),
    {
        NvCreateChatCompletionRequest {
            inner: CreateChatCompletionRequest {
                model,
                messages,
                reasoning_effort: None,
                stop: None,
                n: None,
                seed: None,
                logprobs: None,
                top_logprobs: None,
                max_tokens: None,
                max_completion_tokens: None,
                temperature: None,
                top_p: None,
                frequency_penalty: None,
                presence_penalty: None,
                logit_bias: None,
                response_format: None,
                service_tier: None,
                tools: None,
                tool_choice: None,
                user: None,
                other_fields: serde_json::Map::new(),
            },
            common: CommonExt {
                ignore_eos: None,
                min_tokens: None,
                top_k: None,
                min_p: None,
                repetition_penalty: None,
                include_stop_str_in_output: None,
                guided_json: None,
                guided_regex: None,
                guided_grammar: None,
                guided_choice: None,
                guided_decoding_backend: None,
                guided_whitespace_pattern: None,
                skip_special_tokens: None,
                prompt_logprobs: None,
            },
            nvext: None,
            chat_template_args: None,
            thinking: None,
            media_io_kwargs: None,
            return_tokens_as_token_ids: None,
            unsupported_fields: serde_json::Map::new(),
        }
    }
}

/// A new request has its model and its messages, and asks for nothing else.
pub proof fn law_new_request_asks_for_nothing(
    model: String,
    messages: Vec<serde_json::Value>,
    request: NvCreateChatCompletionRequest,
    key: Seq<char>,
)
    requires
        call_ensures(NvCreateChatCompletionRequest::new, (model, messages), request),
    ensures
        request.inner.model == model,
        request.inner.messages == messages,
        request.inner.reasoning_effort is None && request.inner.stop is None && request.inner.n
            is None && request.inner.seed is None && request.inner.logprobs is None
            && request.inner.top_logprobs is None && request.inner.max_tokens is None
            && request.inner.max_completion_tokens is None && request.inner.temperature is None
            && request.inner.top_p is None && request.inner.frequency_penalty is None
            && request.inner.presence_penalty is None && request.inner.logit_bias is None
            && request.inner.response_format is None && request.inner.service_tier is None
            && request.inner.tools is None && request.inner.tool_choice is None
            && request.inner.user is None,
        request.common.ignore_eos is None && request.common.min_tokens is None
            && request.common.top_k is None && request.common.min_p is None
            && request.common.repetition_penalty is None
            && request.common.include_stop_str_in_output is None && request.common.guided_json
            is None && request.common.guided_regex is None && request.common.guided_grammar is None
            && request.common.guided_choice is None && request.common.guided_decoding_backend
            is None && request.common.guided_whitespace_pattern is None
            && request.common.skip_special_tokens is None && request.common.prompt_logprobs is None,
        request.nvext is None && request.chat_template_args is None && request.thinking is None
            && request.media_io_kwargs is None && request.return_tokens_as_token_ids is None,
        fields(request.inner.other_fields).get(key) is None,
        fields(request.unsupported_fields).get(key) is None,
{
}

} // verus!
