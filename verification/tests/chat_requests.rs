use chat_router::chat::error::ChatRequestError;
use chat_router::chat::model_id::is_glm53_model_id;
use chat_router::chat::request::{
    FloatBits, JsonSchemaFormat, NvCreateChatCompletionRequest, NvExt, ResponseFormat, Stop,
};
use chat_router::chat::validation::{RequestCheck, REQUEST_CHECKS};
use serde_json::Value;
use std::cell::RefCell;

fn json(text: &str) -> Value {
    serde_json::from_str(text).expect("valid JSON")
}

fn texts(value: Value) -> Vec<String> {
    serde_json::from_value(value).expect("an array of strings")
}

/// Decodes the body of a request, as far as these tests use it.
fn decode(body: &str) -> Result<NvCreateChatCompletionRequest, String> {
    let mut fields = json(body).as_object().expect("an object").clone();
    let model = fields.remove("model").expect("a model");
    let messages = fields.remove("messages").expect("messages");
    let mut request = NvCreateChatCompletionRequest::new(
        model.as_str().expect("a string").to_string(),
        messages.as_array().expect("an array").clone(),
    );
    if let Some(effort) = fields.remove("reasoning_effort") {
        request.inner.reasoning_effort = Some(effort.as_str().expect("a string").to_string());
    }
    request.thinking = fields.remove("thinking").filter(|value| !value.is_null());
    for name in ["chat_template_args", "chat_template_kwargs"] {
        if let Some(args) = fields.remove(name) {
            request.chat_template_args = Some(args.as_object().expect("an object").clone());
        }
    }
    request.inner.stop = match fields.remove("stop") {
        None => None,
        Some(Value::String(stop)) => Some(Stop::String(stop)),
        Some(stop) => {
            if let Ok(strings) = serde_json::from_value::<Vec<String>>(stop.clone()) {
                Some(Stop::StringArray(strings))
            } else if let Ok(ids) = serde_json::from_value::<Vec<u32>>(stop) {
                Some(Stop::TokenIdArray(ids))
            } else {
                return Err("stop".to_string());
            }
        }
    };
    request.inner.n = fields.remove("n").map(|n| n.as_u64().expect("a number") as u8);
    request.inner.max_tokens =
        fields.remove("max_tokens").map(|n| n.as_u64().expect("a number") as u32);
    request.inner.tools =
        fields.remove("tools").map(|tools| tools.as_array().expect("an array").clone());
    request.inner.tool_choice = fields.remove("tool_choice");
    request.common.skip_special_tokens =
        fields.remove("skip_special_tokens").map(|skip| skip.as_bool().expect("a boolean"));
    request.nvext = fields.remove("nvext").map(|nvext| NvExt {
        annotations: nvext.get("annotations").cloned().map(texts),
        extra_fields: nvext.get("extra_fields").cloned().map(texts),
        other_fields: serde_json::Map::new(),
    });
    request.unsupported_fields = fields;
    Ok(request)
}

fn request(body: &str) -> NvCreateChatCompletionRequest {
    decode(body).expect("Failed to deserialize request")
}

/// A request with the given fields beside a model and a message.
fn plain(more: &str) -> NvCreateChatCompletionRequest {
    let head = r#""model": "test-model", "messages": [{"role": "user", "content": "Hello"}]"#;
    if more.is_empty() {
        request(&format!("{{{head}}}"))
    } else {
        request(&format!("{{{head}, {more}}}"))
    }
}

/// A request for the given model, with the given fields besides.
fn for_model(model: &str, more: &str) -> NvCreateChatCompletionRequest {
    let mut request = plain(more);
    request.inner.model = model.to_string();
    request
}

/// What the checks of a server say, as far as these tests use them.
fn server_check(check: RequestCheck<'_>) -> Result<(), String> {
    match check {
        RequestCheck::NoUnsupportedFields(fields) => {
            for (name, value) in fields {
                match name.as_str() {
                    "stop_token_ids" | "allowed_token_ids" => {
                        if serde_json::from_value::<Vec<u32>>(value.clone()).is_err() {
                            return Err(format!("`{name}` must be an array of token ids"));
                        }
                    }
                    "bad_words_token_ids" => {}
                    _ => return Err(format!("Unsupported parameter(s): `{name}`")),
                }
            }
            Ok(())
        }
        RequestCheck::Messages(messages) => {
            for (i, message) in messages.iter().enumerate() {
                let calls = message.get("tool_calls").and_then(Value::as_array);
                for (j, call) in calls.into_iter().flatten().enumerate() {
                    let arguments = call["function"]["arguments"].as_str().expect("a string");
                    let parsed = serde_json::from_str::<serde_json::Map<String, Value>>(arguments);
                    if !arguments.trim().is_empty() && parsed.is_err() {
                        return Err(format!(
                            "`messages[{i}].tool_calls[{j}].function.arguments` must be a valid JSON object string"
                        ));
                    }
                }
            }
            Ok(())
        }
        RequestCheck::MaxTokens(Some(0)) => {
            Err("Max tokens must be greater than 0, got 0".to_string())
        }
        RequestCheck::CompletionTokenIdsSingleChoice { choices, nvext } => {
            let extra = nvext.as_ref().and_then(|nvext| nvext.extra_fields.as_ref());
            let wanted =
                extra.is_some_and(|names| names.iter().any(|n| n == "completion_token_ids"));
            if wanted && choices > 1 {
                Err("completion_token_ids needs a single choice".to_string())
            } else {
                Ok(())
            }
        }
        RequestCheck::ToolChoice { tool_choice: Some(choice), tools } => {
            let names: Vec<&str> = tools
                .iter()
                .flatten()
                .map(|tool| tool["function"]["name"].as_str().expect("a name"))
                .collect();
            if choice.as_str() == Some("required") && names.is_empty() {
                return Err("tool_choice is \"required\" but tools is empty".to_string());
            }
            match choice["function"]["name"].as_str() {
                Some(name) if !names.contains(&name) => Err(format!(
                    "tool named \"{name}\" in tool_choice is not present in tools"
                )),
                _ => Ok(()),
            }
        }
        _ => Ok(()),
    }
}

#[test]
fn test_skip_special_tokens_none() {
    let request = plain("");
    assert_eq!(request.common.skip_special_tokens, None);
    assert_eq!(request.get_skip_special_tokens(), None);
}

#[test]
fn test_skip_special_tokens_propagates() {
    for skip_value in [true, false] {
        let request = plain(&format!(r#""skip_special_tokens": {skip_value}"#));
        assert_eq!(request.get_skip_special_tokens(), Some(skip_value));
    }
}

#[test]
fn test_stop_contract() {
    let request = plain(r#""stop": " The""#);
    assert_eq!(request.get_stop(), Some(vec![" The".to_string()]));
    assert_eq!(request.get_stop_token_ids(), None);

    let request = plain(r#""stop": ["A", "B"]"#);
    assert_eq!(request.get_stop(), Some(vec!["A".to_string(), "B".to_string()]));
    assert_eq!(request.get_stop_token_ids(), None);

    let request = plain(r#""stop": [32, 34]"#);
    assert_eq!(request.get_stop(), None);
    assert_eq!(request.get_stop_token_ids(), Some(vec![32, 34]));

    let request = plain(r#""stop": "token_id:576""#);
    assert_eq!(request.get_stop(), Some(vec!["token_id:576".to_string()]));
    assert_eq!(request.get_stop_token_ids(), None);

    let request = plain(r#""stop": ["token_id:576"]"#);
    assert_eq!(request.get_stop(), Some(vec!["token_id:576".to_string()]));
    assert_eq!(request.get_stop_token_ids(), None);

    let scalar_token_id_stop = r#"{
        "model": "test-model",
        "messages": [{"role": "user", "content": "Hello"}],
        "stop": 576
    }"#;
    assert!(decode(scalar_token_id_stop).is_err());

    let request = plain(r#""stop_token_ids": [576]"#);
    assert_eq!(request.get_stop_token_ids(), Some(vec![576]));
    assert!(
        request.validate(server_check).is_ok(),
        "stop_token_ids must be accepted via PASSTHROUGH_EXTRA_FIELDS"
    );

    let request = plain(r#""stop_token_ids": "bad""#);
    let err = request.validate(server_check).expect_err("invalid stop_token_ids");
    assert!(err.contains("stop_token_ids"));
}

#[test]
fn stop_token_ids_are_decoded_strictly() {
    let ids = |list: &str| plain(&format!(r#""stop_token_ids": {list}"#)).get_stop_token_ids();
    assert_eq!(ids("[]"), Some(vec![]));
    assert_eq!(ids("[0, 4294967295]"), Some(vec![0, u32::MAX]));
    assert_eq!(ids("[4294967296]"), None);
    assert_eq!(ids("[-1]"), None);
    assert_eq!(ids("[1.0]"), None);
    assert_eq!(ids(r#"["1"]"#), None);
    assert_eq!(ids("{}"), None);
    assert_eq!(ids("null"), None);
    let both = plain(r#""stop": [1], "stop_token_ids": [2]"#);
    assert_eq!(both.get_stop_token_ids(), Some(vec![1]));
    let text_and_ids = plain(r#""stop": "a", "stop_token_ids": [2]"#);
    assert_eq!(text_and_ids.get_stop_token_ids(), Some(vec![2]));
}

#[test]
fn test_normalize_anthropic_stop_sequences_array() {
    let mut request = plain(r#""stop_sequences": ["</block>", "</answer>"]"#);
    assert!(request.inner.stop.is_none());
    assert!(request.unsupported_fields.contains_key("stop_sequences"));
    assert!(request.validate(server_check).is_err());

    request.normalize_anthropic_stop_sequences().expect("valid Anthropic stop sequences");

    assert!(!request.unsupported_fields.contains_key("stop_sequences"));
    assert_eq!(
        request.get_stop(),
        Some(vec!["</block>".to_string(), "</answer>".to_string()])
    );
    match &request.inner.stop {
        Some(Stop::StringArray(stop)) => {
            assert_eq!(stop, &vec!["</block>".to_string(), "</answer>".to_string()])
        }
        _ => panic!("the stop sequences are adopted as an array"),
    }
    request.validate(server_check).expect("adopted request should validate");
}

#[test]
fn test_normalize_anthropic_stop_sequences_rejects_scalar_string() {
    let mut request = plain(r#""stop_sequences": "</block>""#);
    let error = request
        .normalize_anthropic_stop_sequences()
        .expect_err("Anthropic stop_sequences must be an array");
    assert_eq!(error.message(), "`stop_sequences` must be an array of strings");
    assert!(request.inner.stop.is_none());
}

#[test]
fn test_normalize_anthropic_stop_sequences_rejects_explicit_openai_stop() {
    let mut request = plain(r#""stop": ["A"], "stop_sequences": ["</block>"]"#);
    let error = request
        .normalize_anthropic_stop_sequences()
        .expect_err("conflicting stop fields must fail");
    assert_eq!(request.get_stop(), Some(vec!["A".to_string()]));
    assert_eq!(error.message(), "`stop` and `stop_sequences` cannot be used together");
}

#[test]
fn test_normalize_anthropic_stop_sequences_accepts_null() {
    let mut request = plain(r#""stop_sequences": null"#);

    request
        .normalize_anthropic_stop_sequences()
        .expect("null is equivalent to an omitted optional field");

    assert!(request.inner.stop.is_none());
    assert!(!request.unsupported_fields.contains_key("stop_sequences"));
    request.validate(server_check).expect("request with null alias should validate");
}

#[test]
fn test_normalize_anthropic_stop_sequences_rejects_non_string_member() {
    let mut request = plain(r#""stop_sequences": ["END", 7]"#);
    let error =
        request.normalize_anthropic_stop_sequences().expect_err("non-string members must fail");
    assert_eq!(error.message(), "`stop_sequences` must be an array of strings");
}

#[test]
fn stop_sequences_are_normalized_once() {
    let mut request = plain(r#""stop_sequences": ["a"], "other": 1"#);
    request.normalize_anthropic_stop_sequences().expect("adopted");
    request.normalize_anthropic_stop_sequences().expect("nothing is left to adopt");
    assert_eq!(request.get_stop(), Some(vec!["a".to_string()]));
    assert_eq!(request.unsupported_fields.get("other"), Some(&json("1")));

    let mut refused = plain(r#""stop_sequences": [1]"#);
    assert!(refused.normalize_anthropic_stop_sequences().is_err());
    refused.normalize_anthropic_stop_sequences().expect("the field is gone");

    let mut null_beside_stop = plain(r#""stop": "x", "stop_sequences": null"#);
    null_beside_stop.normalize_anthropic_stop_sequences().expect("null is no field");
    assert_eq!(null_beside_stop.get_stop(), Some(vec!["x".to_string()]));
}

#[test]
fn test_passthrough_token_constraints_validate() {
    let request = plain(r#""allowed_token_ids": [10, 11], "bad_words_token_ids": [[12, 13]]"#);
    assert_eq!(request.unsupported_fields.get("allowed_token_ids"), Some(&json("[10, 11]")));
    assert_eq!(request.unsupported_fields.get("bad_words_token_ids"), Some(&json("[[12, 13]]")));
    assert!(request.validate(server_check).is_ok());
}

#[test]
fn test_completion_token_ids_rejected_for_multi_choice() {
    let request = plain(r#""n": 2, "nvext": {"extra_fields": ["completion_token_ids"]}"#);
    let err = request.validate(server_check).expect_err("multi-choice token ids");
    assert!(err.contains("completion_token_ids"));
    let single = plain(r#""nvext": {"extra_fields": ["completion_token_ids"]}"#);
    assert!(single.validate(server_check).is_ok());
}

#[test]
fn test_validate_tool_choice_required_rejects_empty_tools() {
    let request = plain(r#""tool_choice": "required""#);
    let err = request.validate(server_check).expect_err("required needs tools");
    assert!(err.contains("tool_choice is \"required\" but tools is empty"));
}

#[test]
fn test_validate_tool_choice_named_rejects_missing_tool() {
    let request = plain(
        r#""tools": [{
            "type": "function",
            "function": {
                "name": "get_weather",
                "parameters": {"type": "object", "properties": {}}
            }
        }],
        "tool_choice": {"type": "function", "function": {"name": "search"}}"#,
    );
    let err = request.validate(server_check).expect_err("named tool must exist");
    assert!(err.contains("tool named \"search\" in tool_choice is not present in tools"));
}

#[test]
fn test_truncate_prompt_tokens_rejected_until_supported() {
    let request = plain(r#""truncate_prompt_tokens": 2"#);
    assert!(request.validate(server_check).is_err());
}

#[test]
fn test_validate_legacy_max_tokens_rejects_zero() {
    let request = plain(r#""max_tokens": 0"#);
    let err = request.validate(server_check).expect_err("zero max_tokens must fail");
    assert_eq!(err, "Max tokens must be greater than 0, got 0");
}

#[test]
fn test_validate_legacy_max_tokens_accepts_positive_value() {
    let request = plain(r#""max_tokens": 1"#);
    request.validate(server_check).expect("positive max_tokens must validate");
}

fn with_call_arguments(arguments: &str) -> NvCreateChatCompletionRequest {
    let mut request = request(
        r#"{
            "model": "test-model",
            "messages": [
                {"role": "user", "content": "weather?"},
                {
                    "role": "assistant",
                    "tool_calls": [{
                        "id": "call_1",
                        "type": "function",
                        "function": {"name": "get_weather", "arguments": ""}
                    }]
                },
                {"role": "tool", "tool_call_id": "call_1", "content": "sunny"}
            ],
            "tools": [{
                "type": "function",
                "function": {
                    "name": "get_weather",
                    "parameters": {"type": "object", "properties": {}}
                }
            }]
        }"#,
    );
    request.inner.messages[1]["tool_calls"][0]["function"]["arguments"] = Value::from(arguments);
    request
}

#[test]
fn test_validate_messages_rejects_bad_tool_call_arguments() {
    for arguments in ["{invalid json}", "[]", "null", "\"not an object\""] {
        let request = with_call_arguments(arguments);
        let err = request
            .validate(server_check)
            .expect_err("bad tool_call arguments should fail validation");
        assert!(
            err.contains("`messages[1].tool_calls[0].function.arguments`"),
            "unexpected error for {arguments:?}: {err}"
        );
        assert!(
            err.contains("valid JSON object string"),
            "unexpected error for {arguments:?}: {err}"
        );
    }
}

#[test]
fn test_validate_messages_accepts_empty_tool_call_arguments() {
    for arguments in ["", " \n\t ", "{}"] {
        let request = with_call_arguments(arguments);
        request
            .validate(server_check)
            .unwrap_or_else(|err| panic!("empty tool_call arguments should validate: {err}"));
    }
}

/// The name of a check.
fn name_of(check: &RequestCheck<'_>) -> &'static str {
    match check {
        RequestCheck::NoUnsupportedFields(_) => "unsupported_fields",
        RequestCheck::Messages(_) => "messages",
        RequestCheck::Model(_) => "model",
        RequestCheck::ReasoningEffort(_) => "reasoning_effort",
        RequestCheck::FrequencyPenalty(_) => "frequency_penalty",
        RequestCheck::LogitBias(_) => "logit_bias",
        RequestCheck::TopLogprobs(_) => "top_logprobs",
        RequestCheck::MaxTokens(_) => "max_tokens",
        RequestCheck::MaxCompletionTokens(_) => "max_completion_tokens",
        RequestCheck::N(_) => "n",
        RequestCheck::CompletionTokenIdsSingleChoice { .. } => "completion_token_ids",
        RequestCheck::PresencePenalty(_) => "presence_penalty",
        RequestCheck::ResponseFormat(_) => "response_format",
        RequestCheck::ServiceTier(_) => "service_tier",
        RequestCheck::Stop(_) => "stop",
        RequestCheck::Temperature(_) => "temperature",
        RequestCheck::TopP(_) => "top_p",
        RequestCheck::Tools(_) => "tools",
        RequestCheck::ToolChoice { .. } => "tool_choice",
        RequestCheck::User(_) => "user",
        RequestCheck::RepetitionPenalty(_) => "repetition_penalty",
        RequestCheck::MinP(_) => "min_p",
        RequestCheck::TopK(_) => "top_k",
        RequestCheck::NWithTemperature { .. } => "n_with_temperature",
    }
}

const ORDER: [&str; 24] = [
    "unsupported_fields",
    "messages",
    "model",
    "reasoning_effort",
    "frequency_penalty",
    "logit_bias",
    "top_logprobs",
    "max_tokens",
    "max_completion_tokens",
    "n",
    "completion_token_ids",
    "presence_penalty",
    "response_format",
    "service_tier",
    "stop",
    "temperature",
    "top_p",
    "tools",
    "tool_choice",
    "user",
    "repetition_penalty",
    "min_p",
    "top_k",
    "n_with_temperature",
];

#[test]
fn checks_are_made_in_order_up_to_the_first_that_fails() {
    let request = plain("");
    let seen = RefCell::new(Vec::new());
    let all = request.validate(|check| -> Result<(), ()> {
        seen.borrow_mut().push(name_of(&check));
        Ok(())
    });
    assert!(all.is_ok());
    assert_eq!(*seen.borrow(), ORDER.to_vec());
    assert_eq!(REQUEST_CHECKS, ORDER.len());

    for (i, failing) in ORDER.iter().enumerate() {
        let seen = RefCell::new(0);
        let outcome = request.validate(|check| {
            *seen.borrow_mut() += 1;
            if name_of(&check) == *failing {
                Err(*failing)
            } else {
                Ok(())
            }
        });
        assert_eq!(outcome, Err(*failing));
        assert_eq!(*seen.borrow(), i + 1);
    }
}

#[test]
fn checks_look_at_the_fields_of_the_request() {
    let mut request = plain(r#""n": 3, "max_tokens": 9, "tools": [1], "tool_choice": "auto""#);
    request.inner.temperature = Some(FloatBits { bits: 1.5f32.to_bits() });
    request.inner.top_p = Some(FloatBits { bits: 2 });
    request.inner.frequency_penalty = Some(FloatBits { bits: 3 });
    request.inner.presence_penalty = Some(FloatBits { bits: 4 });
    request.inner.max_completion_tokens = Some(8);
    request.inner.top_logprobs = Some(7);
    request.inner.user = Some("me".to_string());
    request.common.repetition_penalty = Some(FloatBits { bits: 5 });
    request.common.min_p = Some(FloatBits { bits: 6 });
    request.common.top_k = Some(-1);
    let outcome = request.validate(|check| -> Result<(), String> {
        let good = match check {
            RequestCheck::Model(model) => model == "test-model",
            RequestCheck::Messages(messages) => messages.len() == 1,
            RequestCheck::N(n) => n == Some(3),
            RequestCheck::CompletionTokenIdsSingleChoice { choices, nvext } => {
                choices == 3 && nvext.is_none()
            }
            RequestCheck::MaxTokens(max) => max == Some(9),
            RequestCheck::MaxCompletionTokens(max) => max == Some(8),
            RequestCheck::TopLogprobs(top) => top == Some(7),
            RequestCheck::Temperature(t) => t == Some(FloatBits { bits: 1.5f32.to_bits() }),
            RequestCheck::TopP(p) => p == Some(FloatBits { bits: 2 }),
            RequestCheck::FrequencyPenalty(p) => p == Some(FloatBits { bits: 3 }),
            RequestCheck::PresencePenalty(p) => p == Some(FloatBits { bits: 4 }),
            RequestCheck::RepetitionPenalty(p) => p == Some(FloatBits { bits: 5 }),
            RequestCheck::MinP(p) => p == Some(FloatBits { bits: 6 }),
            RequestCheck::TopK(k) => k == Some(-1),
            RequestCheck::Tools(tools) => *tools == Some(vec![json("1")]),
            RequestCheck::ToolChoice { tool_choice, tools } => {
                *tool_choice == Some(json(r#""auto""#)) && *tools == Some(vec![json("1")])
            }
            RequestCheck::User(user) => user.as_deref() == Some("me"),
            RequestCheck::NWithTemperature { n, temperature } => {
                n == Some(3) && temperature == Some(FloatBits { bits: 1.5f32.to_bits() })
            }
            _ => true,
        };
        if good {
            Ok(())
        } else {
            Err("a check looked at something else".to_string())
        }
    });
    assert_eq!(outcome, Ok(()));
    let default_choices = plain("").validate(|check| match check {
        RequestCheck::CompletionTokenIdsSingleChoice { choices, .. } => Err(choices),
        _ => Ok(()),
    });
    assert_eq!(default_choices, Err(1));
}

#[test]
fn test_openai_thinking_payload_normalizes_to_template_args() {
    let mut request = for_model(
        "deepseek-ai/DeepSeek-V4-Pro",
        r#""reasoning_effort": "max", "thinking": {"type": "enabled"}"#,
    );
    request.normalize_reasoning_template_args().expect("thinking payload should normalize");

    let args = request.chat_template_args.as_ref().expect("chat_template_args should be populated");
    assert_eq!(args.get("thinking"), Some(&json("true")));
    assert_eq!(args.get("enable_thinking"), Some(&json("true")));
    assert_eq!(args.get("thinking_mode"), Some(&json(r#""enabled""#)));
    assert_eq!(args.get("reasoning_effort"), Some(&json(r#""max""#)));
}

#[test]
fn test_openai_thinking_adaptive_normalizes_to_template_mode() {
    let mut request = for_model("MiniMaxAI/MiniMax-M3", r#""thinking": {"type": "adaptive"}"#);
    request
        .normalize_reasoning_template_args()
        .expect("adaptive thinking payload should normalize");

    let args = request.chat_template_args.as_ref().expect("chat_template_args should be populated");
    assert_eq!(args.get("thinking_mode"), Some(&json(r#""adaptive""#)));
    assert_eq!(args.get("thinking"), None);
    assert!(request.thinking.is_none());
}

#[test]
fn test_openai_thinking_disabled_normalizes_to_template_mode() {
    let mut request = for_model("MiniMaxAI/MiniMax-M3", r#""thinking": {"type": "disabled"}"#);
    request
        .normalize_reasoning_template_args()
        .expect("disabled thinking payload should normalize");

    let args = request.chat_template_args.as_ref().expect("chat_template_args should be populated");
    assert_eq!(args.get("thinking"), Some(&json("false")));
    assert_eq!(args.get("enable_thinking"), Some(&json("false")));
    assert_eq!(args.get("thinking_mode"), Some(&json(r#""disabled""#)));
}

#[test]
fn test_openai_thinking_top_level_overrides_stale_template_args() {
    let mut request = for_model(
        "MiniMaxAI/MiniMax-M3",
        r#""chat_template_args": {
            "thinking": true,
            "thinking_mode": "thinking",
            "reasoning_effort": "high"
        },
        "reasoning_effort": "none",
        "thinking": {"type": "disabled"}"#,
    );
    request
        .normalize_reasoning_template_args()
        .expect("top-level thinking payload should normalize");

    let args = request.chat_template_args.as_ref().expect("chat_template_args should be populated");
    assert_eq!(args.get("thinking"), Some(&json("false")));
    assert_eq!(args.get("thinking_mode"), Some(&json(r#""disabled""#)));
    assert_eq!(args.get("reasoning_effort"), Some(&json(r#""none""#)));
    assert!(request.thinking.is_none());
}

#[test]
fn test_invalid_openai_thinking_payload_is_rejected() {
    for invalid_thinking in
        [r#""enabled""#, r#"{"type": "auto"}"#, r#"{"type": true}"#, "{}"]
    {
        let mut request = for_model(
            "deepseek-ai/DeepSeek-V4-Pro",
            &format!(r#""thinking": {invalid_thinking}"#),
        );
        assert!(request.normalize_reasoning_template_args().is_err());
        assert!(request.thinking.is_some());
    }
}

#[test]
fn a_boolean_turns_thinking_on_or_off() {
    for (flag, mode) in [("true", r#""enabled""#), ("false", r#""disabled""#)] {
        let mut request = plain(&format!(
            r#""thinking": {flag}, "chat_template_args": {{"other": 1}}"#
        ));
        request.normalize_reasoning_template_args().expect("a boolean is fine");
        let args = request.chat_template_args.as_ref().expect("arguments");
        assert_eq!(args.get("thinking"), Some(&json(flag)));
        assert_eq!(args.get("enable_thinking"), Some(&json(flag)));
        assert_eq!(args.get("thinking_mode"), Some(&json(mode)));
        assert_eq!(args.get("other"), Some(&json("1")));
        assert_eq!(args.len(), 4);
    }
}

#[test]
fn normalization_is_idempotent() {
    let mut request =
        for_model("org/glm5.3", r#""thinking": true, "reasoning_effort": "low""#);
    request.normalize_reasoning_template_args().expect("fine");
    let once = request.chat_template_args.clone();
    request.normalize_reasoning_template_args().expect("still fine");
    assert_eq!(request.chat_template_args, once);
    assert_eq!(request.inner.reasoning_effort.as_deref(), Some("low"));
}

#[test]
fn a_request_without_controls_keeps_its_arguments() {
    let mut request = plain("");
    request.normalize_reasoning_template_args().expect("fine");
    assert!(request.chat_template_args.is_none());
    let mut request = plain(r#""chat_template_args": {"enable_thinking": false}"#);
    request.normalize_reasoning_template_args().expect("fine");
    let args = request.chat_template_args.expect("kept");
    assert_eq!(args.get("enable_thinking"), Some(&json("false")));
    assert_eq!(args.len(), 1);
}

#[test]
fn test_glm53_accepts_required_reasoning_modes() {
    assert!(is_glm53_model_id("zai-org/GLM-5.3"));
    assert!(is_glm53_model_id("glm-5.3"));
    assert!(!is_glm53_model_id("zai-org/GLM-5.3-Flash"));

    for effort in ["low", "high", "max"] {
        let mut request = for_model(
            "zai-org/GLM-5.3",
            &format!(r#""thinking": {{"type": "enabled"}}, "reasoning_effort": "{effort}""#),
        );
        request
            .normalize_reasoning_template_args()
            .expect("GLM-5.3 supported reasoning controls should normalize");
        let args = request.chat_template_args.as_ref().expect("template args should be populated");
        assert_eq!(args.get("thinking"), Some(&json("true")));
        assert_eq!(args.get("enable_thinking"), Some(&json("true")));
        assert_eq!(args.get("reasoning_effort"), Some(&Value::from(effort)));
    }

    let mut default_request = for_model("GLM-5.3", "");
    default_request
        .normalize_reasoning_template_args()
        .expect("omitted controls should use checkpoint defaults");
}

#[test]
fn test_glm53_rejects_disabled_or_adaptive_reasoning() {
    for thinking in ["false", r#"{"type": "disabled"}"#, r#"{"type": "adaptive"}"#] {
        let mut request = for_model("zai-org/GLM-5.3", &format!(r#""thinking": {thinking}"#));
        let error = request
            .normalize_reasoning_template_args()
            .expect_err("GLM-5.3 must reject reasoning modes other than enabled");
        assert!(error.message().contains("GLM-5.3"));
    }

    let mut template_request =
        for_model("zai-org/GLM-5.3", r#""chat_template_kwargs": {"enable_thinking": false}"#);
    assert!(template_request.normalize_reasoning_template_args().is_err());
}

#[test]
fn test_glm53_rejects_unsupported_reasoning_effort() {
    for effort in ["none", "minimal", "xhigh"] {
        let mut request =
            for_model("zai-org/GLM-5.3", &format!(r#""reasoning_effort": "{effort}""#));
        let error = request
            .normalize_reasoning_template_args()
            .expect_err("unsupported GLM-5.3 effort must be rejected");
        assert!(error.message().contains("low`, `medium`, `high`, or `max"));
    }

    let mut medium_request = for_model("zai-org/GLM-5.3", r#""reasoning_effort": "medium""#);
    medium_request
        .normalize_reasoning_template_args()
        .expect("medium effort should be accepted for GLM-5.3");

    let mut template_request =
        for_model("zai-org/GLM-5.3", r#""chat_template_args": {"reasoning_effort": "none"}"#);
    assert!(template_request.normalize_reasoning_template_args().is_err());
}

#[test]
fn every_refusal_has_its_message() {
    let refused = |more: &str| -> ChatRequestError {
        for_model("glm-5.3", more).normalize_reasoning_template_args().expect_err("refused")
    };
    assert_eq!(
        refused(r#""thinking": 1"#).message(),
        "`thinking` must be a boolean or an object with `type` set to `enabled`, `disabled`, or `adaptive`"
    );
    assert_eq!(
        refused(r#""thinking": {"type": "on"}"#).message(),
        "`thinking.type` must be `enabled`, `disabled`, or `adaptive`"
    );
    assert_eq!(
        refused(r#""thinking": {"type": "adaptive"}"#).message(),
        "GLM-5.3 requires `thinking.type` to be `enabled`"
    );
    assert_eq!(
        refused(r#""chat_template_args": {"thinking": false, "enable_thinking": false}"#).message(),
        "GLM-5.3 does not support disabling reasoning via `thinking`"
    );
    assert_eq!(
        refused(r#""chat_template_args": {"enable_thinking": false}"#).message(),
        "GLM-5.3 does not support disabling reasoning via `enable_thinking`"
    );
    assert_eq!(
        refused(r#""chat_template_args": {"thinking_mode": "chat"}"#).message(),
        "GLM-5.3 does not support `thinking_mode=chat`"
    );
    assert_eq!(
        refused(r#""chat_template_args": {"reasoning_effort": 3}"#).message(),
        "GLM-5.3 `reasoning_effort` must be `low`, `medium`, `high`, or `max`"
    );
}

#[test]
fn glm53_passes_over_what_it_does_not_read() {
    let mut request = for_model(
        "glm-5.3",
        r#""chat_template_args": {
            "thinking": "false", "thinking_mode": 7, "reasoning_effort": null
        }"#,
    );
    request.normalize_reasoning_template_args().expect("nothing here turns reasoning off");
    let mut overridden = for_model(
        "glm-5.3",
        r#""thinking": true, "reasoning_effort": "high", "chat_template_args": {
            "enable_thinking": false, "thinking_mode": "chat", "reasoning_effort": "none"
        }"#,
    );
    overridden.normalize_reasoning_template_args().expect("the request itself says otherwise");
    let args = overridden.chat_template_args.expect("arguments");
    assert_eq!(args.get("enable_thinking"), Some(&json("true")));
    assert_eq!(args.get("thinking_mode"), Some(&json(r#""enabled""#)));
    assert_eq!(args.get("reasoning_effort"), Some(&json(r#""high""#)));
}

#[test]
fn guided_json_follows_the_response_format() {
    let mut request = plain("");
    assert_eq!(request.get_guided_json(), None);
    request.inner.response_format = Some(ResponseFormat::Text);
    assert_eq!(request.get_guided_json(), None);
    request.inner.response_format = Some(ResponseFormat::JsonObject);
    assert_eq!(request.get_guided_json(), Some(json(r#"{"type": "object"}"#)));
    let schema = |schema: &str| ResponseFormat::JsonSchema {
        json_schema: JsonSchemaFormat {
            name: "answer".to_string(),
            description: None,
            schema: json(schema),
            strict: None,
        },
    };
    request.inner.response_format = Some(schema("null"));
    assert_eq!(request.get_guided_json(), None);
    request.inner.response_format = Some(schema(r#"{"type": "string"}"#));
    assert_eq!(request.get_guided_json(), Some(json(r#"{"type": "string"}"#)));
    request.common.guided_json = Some(json(r#"{"type": "number"}"#));
    assert_eq!(request.get_guided_json(), Some(json(r#"{"type": "number"}"#)));
}

#[test]
fn log_probabilities_default_to_one() {
    let mut request = plain("");
    request.inner.top_logprobs = Some(5);
    assert_eq!(request.get_logprobs(), None);
    request.inner.logprobs = Some(false);
    assert_eq!(request.get_logprobs(), None);
    request.inner.logprobs = Some(true);
    assert_eq!(request.get_logprobs(), Some(5));
    request.inner.top_logprobs = None;
    assert_eq!(request.get_logprobs(), Some(1));
}

#[test]
fn max_completion_tokens_outweighs_max_tokens() {
    let mut request = plain(r#""max_tokens": 3"#);
    assert_eq!(request.get_max_tokens(), Some(3));
    request.inner.max_completion_tokens = Some(4);
    assert_eq!(request.get_max_tokens(), Some(4));
}

#[test]
fn annotations_are_found() {
    let request = plain(r#""nvext": {"annotations": ["a", "b"]}"#);
    assert_eq!(request.annotations(), Some(vec!["a".to_string(), "b".to_string()]));
    assert!(request.has_annotation("b"));
    assert!(!request.has_annotation("c"));
    assert!(request.nvext().is_some());
    let request = plain("");
    assert_eq!(request.annotations(), None);
    assert!(!request.has_annotation("a"));
    assert!(request.nvext().is_none());
}

#[test]
fn options_are_the_fields_of_the_request() {
    let mut request = plain(r#""n": 2, "other": true"#);
    request.inner.temperature = Some(FloatBits { bits: 0.5f32.to_bits() });
    request.inner.top_p = Some(FloatBits { bits: 1 });
    request.inner.frequency_penalty = Some(FloatBits { bits: 2 });
    request.inner.presence_penalty = Some(FloatBits { bits: 3 });
    request.inner.seed = Some(-4);
    request.common.top_k = Some(5);
    request.common.min_p = Some(FloatBits { bits: 6 });
    request.common.repetition_penalty = Some(FloatBits { bits: 7 });
    request.common.include_stop_str_in_output = Some(true);
    request.common.prompt_logprobs = Some(8);
    request.common.min_tokens = Some(9);
    request.common.ignore_eos = Some(false);
    request.common.guided_regex = Some("r".to_string());
    request.common.guided_grammar = Some("g".to_string());
    request.common.guided_choice = Some(vec!["c".to_string()]);
    request.common.guided_decoding_backend = Some("b".to_string());
    request.common.guided_whitespace_pattern = Some("w".to_string());
    request.return_tokens_as_token_ids = Some(true);
    assert_eq!(request.get_temperature().map(|t| f32::from_bits(t.bits)), Some(0.5));
    assert_eq!(request.get_top_p(), Some(FloatBits { bits: 1 }));
    assert_eq!(request.get_frequency_penalty(), Some(FloatBits { bits: 2 }));
    assert_eq!(request.get_presence_penalty(), Some(FloatBits { bits: 3 }));
    assert_eq!(request.get_seed(), Some(-4));
    assert_eq!(request.get_n(), Some(2));
    assert_eq!(request.get_best_of(), None);
    assert_eq!(request.get_top_k(), Some(5));
    assert_eq!(request.get_min_p(), Some(FloatBits { bits: 6 }));
    assert_eq!(request.get_repetition_penalty(), Some(FloatBits { bits: 7 }));
    assert_eq!(request.get_include_stop_str_in_output(), Some(true));
    assert_eq!(request.get_prompt_logprobs_count(), Some(8));
    assert_eq!(request.get_prompt_logprobs(), Some(8));
    assert_eq!(request.get_min_tokens(), Some(9));
    assert_eq!(request.get_common_ignore_eos(), Some(false));
    assert_eq!(request.get_ignore_eos(), Some(false));
    assert_eq!(request.get_guided_regex().as_deref(), Some("r"));
    assert_eq!(request.get_guided_grammar().as_deref(), Some("g"));
    assert_eq!(request.get_guided_choice(), Some(vec!["c".to_string()]));
    assert_eq!(request.get_guided_decoding_backend().as_deref(), Some("b"));
    assert_eq!(request.get_guided_whitespace_pattern().as_deref(), Some("w"));
    assert_eq!(request.get_return_tokens_as_token_ids(), Some(true));
    assert_eq!(request.get_formatted_prompt(), None);
    assert_eq!(request.raw_prompt(), None);
    assert_eq!(request.common_ext().and_then(|common| common.top_k), Some(5));
    let unsupported = request.unsupported_fields().expect("the other fields");
    assert_eq!(unsupported.get("other"), Some(&json("true")));
}

#[test]
fn a_refused_request_is_left_as_it_was() {
    let mut request = for_model(
        "glm-5.3",
        r#""thinking": true, "reasoning_effort": "none", "chat_template_args": {"a": 1}"#,
    );
    let before = request.clone();
    assert!(request.normalize_reasoning_template_args().is_err());
    assert_eq!(request, before);
}
