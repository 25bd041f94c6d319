//! Tool calls, as a parser finds them and as they stand on the wire.

use vstd::prelude::*;

verus! {

/// The kind of a call that a parser found.
#[derive(Clone, Copy, Debug, PartialEq, Eq, Structural)]
pub enum ToolCallType {
    Function,
}

/// A function that a parser found to be called.
#[derive(Debug, Clone, PartialEq, Eq)]
pub struct CalledFunction {
    pub name: String,
    pub arguments: String,
}

/// A call that a parser found.
#[derive(Debug, Clone, PartialEq, Eq)]
pub struct ToolCallResponse {
    pub id: String,
    pub tp: ToolCallType,
    pub function: CalledFunction,
}

/// A part of a function that a parser found to be called.
#[derive(Debug, Clone, PartialEq, Eq)]
pub struct CalledFunctionStream {
    pub name: Option<String>,
    pub arguments: Option<String>,
}

/// A part of a call that a parser found.
#[derive(Debug, Clone, PartialEq, Eq)]
pub struct ToolCallResponseChunk {
    pub index: u32,
    pub id: Option<String>,
    pub tp: Option<ToolCallType>,
    pub function: Option<CalledFunctionStream>,
}

/// The kind of a call on the wire.
#[derive(Clone, Copy, Debug, PartialEq, Eq, Structural)]
pub enum FunctionType {
    Function,
}

/// The function of a call on the wire.
#[derive(Debug, Clone, PartialEq, Eq)]
pub struct FunctionCall {
    pub name: String,
    pub arguments: String,
}

/// A call on the wire.
#[derive(Debug, Clone, PartialEq, Eq)]
pub struct ChatCompletionMessageToolCall {
    pub id: String,
    pub call_type: FunctionType,
    pub function: FunctionCall,
}

/// A part of the function of a call on the wire.
#[derive(Debug, Clone, PartialEq, Eq)]
pub struct FunctionCallStream {
    pub name: Option<String>,
    pub arguments: Option<String>,
}

/// A part of a call on the wire.
#[derive(Debug, Clone, PartialEq, Eq)]
pub struct ChatCompletionMessageToolCallChunk {
    pub index: u32,
    pub id: Option<String>,
    pub call_type: Option<FunctionType>,
    pub function: Option<FunctionCallStream>,
}

/// Puts a call that a parser found on the wire.
pub fn tool_call_response_to_protocol(parsed: ToolCallResponse) -> (call:
    ChatCompletionMessageToolCall)
    ensures
        call == (ChatCompletionMessageToolCall {
            id: parsed.id,
            call_type: FunctionType::Function,
            function: FunctionCall {
                name: parsed.function.name,
                arguments: parsed.function.arguments,
            },
        }),
{
    ChatCompletionMessageToolCall {
        id: parsed.id,
        call_type: FunctionType::Function,
        function: FunctionCall {
            name: parsed.function.name,
            arguments: parsed.function.arguments,
        },
    }
}

/// Puts a part of a call that a parser found on the wire. What the part lacks
/// stays lacking.
pub fn tool_call_response_chunk_to_protocol(parsed: ToolCallResponseChunk) -> (chunk:
    ChatCompletionMessageToolCallChunk)
    ensures
        chunk == (ChatCompletionMessageToolCallChunk {
            index: parsed.index,
            id: parsed.id,
            call_type: match parsed.tp {
                Some(_) => Some(FunctionType::Function),
                None => None,
            },
            function: match parsed.function {
                Some(function) => Some(
                    FunctionCallStream { name: function.name, arguments: function.arguments },
                ),
                None => None,
            },
        }),
{
    ChatCompletionMessageToolCallChunk {
        index: parsed.index,
        id: parsed.id,
        call_type: match parsed.tp {
            Some(_) => Some(FunctionType::Function),
            None => None,
        },
        function: match parsed.function {
            Some(function) => Some(
                FunctionCallStream { name: function.name, arguments: function.arguments },
            ),
            None => None,
        },
    }
}

/// A call on the wire is the call that was found: the same id, function and
/// arguments, and it is a call of a function.
pub proof fn law_call_stays_the_same(
    parsed: ToolCallResponse,
    call: ChatCompletionMessageToolCall,
)
    requires
        call_ensures(tool_call_response_to_protocol, (parsed,), call),
    ensures
        call.id == parsed.id,
        call.call_type == FunctionType::Function,
        call.function.name == parsed.function.name,
        call.function.arguments == parsed.function.arguments,
{
}

/// A part of a call on the wire is the part that was found: it has the same index
/// and each of the other pieces if and only if the part has it, and the same.
pub proof fn law_part_of_a_call_stays_the_same(
    parsed: ToolCallResponseChunk,
    chunk: ChatCompletionMessageToolCallChunk,
)
    requires
        call_ensures(tool_call_response_chunk_to_protocol, (parsed,), chunk),
    ensures
        chunk.index == parsed.index,
        chunk.id == parsed.id,
        chunk.call_type is Some <==> parsed.tp is Some,
        chunk.function is Some <==> parsed.function is Some,
        parsed.function is Some ==> {
            &&& (chunk.function->0).name == (parsed.function->0).name
            &&& (chunk.function->0).arguments == (parsed.function->0).arguments
        },
{
}

} // verus!
