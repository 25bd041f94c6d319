use chat_router::chat::extensions::{
    serialize_chat_completion_response, split_sglext, INTERNAL_SGLEXT_KEY,
};
use chat_router::chat::response::{
    stream_choice_chunk_from_template, CreateChatCompletionResponse,
    CreateChatCompletionStreamResponse, NvCreateChatCompletionResponse,
    NvCreateChatCompletionStreamResponse,
};
use chat_router::chat::tool_calls::{
    tool_call_response_chunk_to_protocol, tool_call_response_to_protocol, CalledFunction,
    CalledFunctionStream, ChatCompletionMessageToolCall, ChatCompletionMessageToolCallChunk,
    FunctionCall, FunctionCallStream, FunctionType, ToolCallResponse, ToolCallResponseChunk,
    ToolCallType,
};
use serde_json::Value;

fn json(text: &str) -> Value {
    serde_json::from_str(text).expect("valid JSON")
}

/// An `nvext` that carries `payload`, beside the fields of `visible`.
fn carrying(visible: &str, payload: &Value) -> Value {
    let mut fields = json(visible).as_object().expect("an object").clone();
    fields.insert(INTERNAL_SGLEXT_KEY.to_string(), payload.clone());
    Value::Object(fields)
}

#[test]
fn test_split_sglext_no_nvext() {
    let (visible, sglext) = split_sglext(&None);
    assert!(visible.is_none());
    assert!(sglext.is_none());
}

#[test]
fn test_split_sglext_no_carrier_key() {
    let nvext = Some(json(r#"{"stop_reason": "eos"}"#));
    let (visible, sglext) = split_sglext(&nvext);
    assert_eq!(visible.as_deref(), Some(&json(r#"{"stop_reason": "eos"}"#)));
    assert!(sglext.is_none());
}

#[test]
fn test_split_sglext_only_carrier_key() {
    let payload = json(r#"{"cached_tokens_details": {"device": 64, "host": 32}}"#);
    let nvext = Some(carrying("{}", &payload));
    let (visible, sglext) = split_sglext(&nvext);
    assert!(visible.is_none());
    assert_eq!(sglext, Some(payload));
}

#[test]
fn test_split_sglext_carrier_alongside_visible_fields() {
    let payload = json(r#"{"cached_tokens_details": {"device": 1, "host": 0}}"#);
    let nvext = Some(carrying(r#"{"stop_reason": "eos"}"#, &payload));
    let (visible, sglext) = split_sglext(&nvext);
    assert_eq!(visible.as_deref(), Some(&json(r#"{"stop_reason": "eos"}"#)));
    assert_eq!(sglext, Some(payload));
}

#[test]
fn test_split_sglext_non_object_nvext_passes_through() {
    let nvext = Some(json(r#""scalar""#));
    let (visible, sglext) = split_sglext(&nvext);
    assert_eq!(visible.as_deref(), Some(&json(r#""scalar""#)));
    assert!(sglext.is_none());
}

#[test]
fn an_empty_nvext_stays_visible() {
    let nvext = Some(json("{}"));
    let (visible, sglext) = split_sglext(&nvext);
    assert_eq!(visible.as_deref(), Some(&json("{}")));
    assert!(sglext.is_none());
}

#[test]
fn a_null_payload_is_a_payload() {
    let nvext = Some(carrying(r#"{"a": 1}"#, &Value::Null));
    let (visible, sglext) = split_sglext(&nvext);
    assert_eq!(visible.as_deref(), Some(&json(r#"{"a": 1}"#)));
    assert_eq!(sglext, Some(Value::Null));
}

fn stream_response(id: &str, nvext: Option<Value>) -> NvCreateChatCompletionStreamResponse {
    NvCreateChatCompletionStreamResponse {
        inner: CreateChatCompletionStreamResponse {
            id: id.to_string(),
            created: 0,
            model: "test-model".to_string(),
            object: "chat.completion.chunk".to_string(),
            system_fingerprint: None,
            choices: vec![],
            service_tier: None,
            usage: None,
        },
        nvext,
        llm_metrics: None,
    }
}

/// OpenAI's part of a streamed response without choices, as JSON.
fn inner_json(id: &str, model: &str, object: &str) -> Value {
    let mut fields = serde_json::Map::new();
    fields.insert("id".to_string(), Value::from(id));
    fields.insert("created".to_string(), Value::from(0));
    fields.insert("model".to_string(), Value::from(model));
    fields.insert("object".to_string(), Value::from(object));
    fields.insert("choices".to_string(), Value::Array(vec![]));
    Value::Object(fields)
}

fn stream_wire(response: &NvCreateChatCompletionStreamResponse) -> Value {
    let inner = &response.inner;
    serialize_chat_completion_response(
        inner_json(&inner.id, &inner.model, &inner.object),
        &response.nvext,
    )
}

#[test]
fn test_stream_response_serializes_sglext_promotion() {
    let payload = json(r#"{"cached_tokens_details": {"device": 64, "host": 32}}"#);
    let nvext = carrying(r#"{"stop_reason": "eos"}"#, &payload);
    let response = stream_response("chatcmpl-1", Some(nvext));
    let wire = stream_wire(&response);
    let obj = wire.as_object().unwrap();
    assert_eq!(obj.get("sglext"), Some(&payload));
    let nvext = obj.get("nvext").unwrap().as_object().unwrap();
    assert!(!nvext.contains_key(INTERNAL_SGLEXT_KEY));
    assert_eq!(nvext.get("stop_reason"), Some(&json(r#""eos""#)));
    assert_eq!(obj.get("id"), Some(&json(r#""chatcmpl-1""#)));
    assert_eq!(obj.len(), 7);
}

#[test]
fn test_stream_response_without_sglext_has_no_sglext_field() {
    let response = stream_response("chatcmpl-2", None);
    let wire = stream_wire(&response);
    let obj = wire.as_object().unwrap();
    assert!(!obj.contains_key("sglext"));
    assert!(!obj.contains_key("nvext"));
    assert!(!obj.contains_key("llm_metrics"));
}

#[test]
fn test_unary_response_serializes_sglext_promotion() {
    let payload = json(r#"{"cached_tokens_details": {"device": 2, "host": 1}}"#);
    let response = NvCreateChatCompletionResponse {
        inner: CreateChatCompletionResponse {
            id: "chatcmpl-3".to_string(),
            created: 0,
            model: "test-model".to_string(),
            object: "chat.completion".to_string(),
            system_fingerprint: None,
            choices: vec![],
            service_tier: None,
            usage: None,
        },
        nvext: Some(carrying("{}", &payload)),
    };
    let inner = &response.inner;
    let wire = serialize_chat_completion_response(
        inner_json(&inner.id, &inner.model, &inner.object),
        &response.nvext,
    );
    let obj = wire.as_object().unwrap();
    assert_eq!(obj.get("sglext"), Some(&payload));
    assert!(!obj.contains_key("nvext"));
}

#[test]
fn a_scalar_nvext_is_put_on_the_wire() {
    let wire = serialize_chat_completion_response(json(r#"{"id": "x"}"#), &Some(json("7")));
    assert_eq!(wire, json(r#"{"id": "x", "nvext": 7}"#));
}

#[test]
fn a_response_that_is_no_object_stays_as_it_is() {
    let payload = json("1");
    let nvext = Some(carrying("{}", &payload));
    assert_eq!(serialize_chat_completion_response(json("[1, 2]"), &nvext), json("[1, 2]"));
}

#[test]
fn a_synthetic_choice_accounts_for_nothing() {
    let mut template = stream_response("chatcmpl-9", Some(json(r#"{"a": 1}"#)));
    template.inner.created = 12;
    template.inner.system_fingerprint = Some("fp".to_string());
    template.inner.service_tier = Some(json(r#""auto""#));
    template.inner.usage = Some(json(r#"{"total_tokens": 3}"#));
    template.llm_metrics = Some(json(r#"{"tokens": 3}"#));
    let call = native_chunk(0, "call_1", "ping", "{}");
    let chunk = stream_choice_chunk_from_template(
        &template,
        4,
        Some(json(r#""text""#)),
        Some(vec![tool_call_response_chunk_to_protocol(call)]),
        Some("tool_calls".to_string()),
    );
    assert!(chunk.id.is_none());
    assert!(chunk.event.is_none());
    assert!(chunk.comment.is_none());
    assert!(chunk.error.is_none());
    let response = chunk.data.expect("a response");
    assert_eq!(response.inner.id, "chatcmpl-9");
    assert_eq!(response.inner.created, 12);
    assert_eq!(response.inner.model, "test-model");
    assert_eq!(response.inner.object, "chat.completion.chunk");
    assert_eq!(response.inner.system_fingerprint.as_deref(), Some("fp"));
    assert_eq!(response.inner.service_tier, Some(json(r#""auto""#)));
    assert_eq!(response.nvext, Some(json(r#"{"a": 1}"#)));
    assert!(response.inner.usage.is_none());
    assert!(response.llm_metrics.is_none());
    assert_eq!(response.inner.choices.len(), 1);
    let choice = &response.inner.choices[0];
    assert_eq!(choice.index, 4);
    assert_eq!(choice.finish_reason.as_deref(), Some("tool_calls"));
    assert!(choice.logprobs.is_none());
    assert!(choice.delta.role.is_none());
    assert_eq!(choice.delta.content, Some(json(r#""text""#)));
    assert_eq!(choice.delta.tool_calls, Some(vec![legacy_chunk(0, "call_1", "ping", "{}")]));
    assert!(choice.delta.function_call.is_none());
    assert!(choice.delta.refusal.is_none());
    assert!(choice.delta.reasoning_content.is_none());
}

fn native_call(id: &str, name: &str, args: &str) -> ToolCallResponse {
    ToolCallResponse {
        id: id.to_string(),
        tp: ToolCallType::Function,
        function: CalledFunction { name: name.to_string(), arguments: args.to_string() },
    }
}

fn native_chunk(index: u32, id: &str, name: &str, args: &str) -> ToolCallResponseChunk {
    ToolCallResponseChunk {
        index,
        id: Some(id.to_string()),
        tp: Some(ToolCallType::Function),
        function: Some(CalledFunctionStream {
            name: Some(name.to_string()),
            arguments: Some(args.to_string()),
        }),
    }
}

fn legacy_unary(id: &str, name: &str, args: &str) -> ChatCompletionMessageToolCall {
    ChatCompletionMessageToolCall {
        id: id.to_string(),
        call_type: FunctionType::Function,
        function: FunctionCall { name: name.to_string(), arguments: args.to_string() },
    }
}

fn legacy_chunk(
    index: u32,
    id: &str,
    name: &str,
    args: &str,
) -> ChatCompletionMessageToolCallChunk {
    ChatCompletionMessageToolCallChunk {
        index,
        id: Some(id.to_string()),
        call_type: Some(FunctionType::Function),
        function: Some(FunctionCallStream {
            name: Some(name.to_string()),
            arguments: Some(args.to_string()),
        }),
    }
}

#[test]
fn unary_mapping_matches_legacy_struct_and_json() {
    for (id, name, args) in [
        ("call_1", "get_weather", r#"{"location":"SF","unit":"celsius"}"#),
        ("call_2", "ping", "{}"),
    ] {
        let mapped = tool_call_response_to_protocol(native_call(id, name, args));
        assert_eq!(mapped, legacy_unary(id, name, args), "struct mismatch for {name}");
    }
}

#[test]
fn unary_mapping_multi_call_matches_legacy() {
    let inputs = [("a", "first", r#"{"k":"v1"}"#), ("b", "second", r#"{"k":"v2"}"#)];
    let mapped: Vec<_> = inputs
        .iter()
        .map(|(id, n, a)| tool_call_response_to_protocol(native_call(id, n, a)))
        .collect();
    let legacy: Vec<_> = inputs.iter().map(|(id, n, a)| legacy_unary(id, n, a)).collect();
    assert_eq!(mapped, legacy);
}

#[test]
fn stream_mapping_matches_legacy_struct_and_json() {
    for (idx, id, name, args) in [
        (0u32, "call_1", "get_weather", r#"{"location":"SF"}"#),
        (1u32, "call_2", "ping", "{}"),
    ] {
        let mapped = tool_call_response_chunk_to_protocol(native_chunk(idx, id, name, args));
        assert_eq!(mapped, legacy_chunk(idx, id, name, args), "struct mismatch for {name}");
    }
}

#[test]
fn stream_mapping_multi_call_indexes_and_matches_legacy() {
    let inputs = [
        (0u32, "a", "first", r#"{"k":"v1"}"#),
        (1u32, "b", "second", r#"{"k":"v2"}"#),
    ];
    let mapped: Vec<_> = inputs
        .iter()
        .map(|(i, id, n, a)| tool_call_response_chunk_to_protocol(native_chunk(*i, id, n, a)))
        .collect();
    let legacy: Vec<_> =
        inputs.iter().map(|(i, id, n, a)| legacy_chunk(*i, id, n, a)).collect();
    assert_eq!(mapped, legacy);
}

#[test]
fn what_a_chunk_lacks_stays_lacking() {
    let mapped = tool_call_response_chunk_to_protocol(ToolCallResponseChunk {
        index: 3,
        id: None,
        tp: None,
        function: Some(CalledFunctionStream { name: None, arguments: Some("x".to_string()) }),
    });
    assert_eq!(
        mapped,
        ChatCompletionMessageToolCallChunk {
            index: 3,
            id: None,
            call_type: None,
            function: Some(FunctionCallStream { name: None, arguments: Some("x".to_string()) }),
        }
    );
}
