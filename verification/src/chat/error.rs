//! Why a chat completion request is refused.

use vstd::prelude::*;
use vstd::string::*;

verus! {

/// Why a chat completion request is refused, in contracts.
#[verifier::ext_equal]
pub enum Refusal {
    ThinkingMalformed,
    ThinkingTypeUnknown,
    Glm53ThinkingNotEnabled,
    Glm53ReasoningDisabled { key: Seq<char> },
    Glm53ThinkingMode { mode: Seq<char> },
    Glm53ReasoningEffort,
    StopConflict,
    StopSequencesMalformed,
}

/// Why a chat completion request is refused.
#[derive(Debug)]
pub enum ChatRequestError {
    /// `thinking` is neither a boolean nor an object.
    ThinkingMalformed,
    /// `thinking.type` is missing or not one of the known types.
    ThinkingTypeUnknown,
    /// GLM-5.3 was asked not to think.
    Glm53ThinkingNotEnabled,
    /// A template argument of GLM-5.3 turns reasoning off.
    Glm53ReasoningDisabled { key: String },
    /// A template argument asks GLM-5.3 for a mode that it does not have.
    Glm53ThinkingMode { mode: String },
    /// GLM-5.3 was asked for an effort that it does not have.
    Glm53ReasoningEffort,
    /// Both `stop` and `stop_sequences` are there.
    StopConflict,
    /// `stop_sequences` is not an array of strings.
    StopSequencesMalformed,
}

impl View for ChatRequestError {
    type V = Refusal;

    open spec fn view(&self) -> Refusal {
        match *self {
            ChatRequestError::ThinkingMalformed => Refusal::ThinkingMalformed,
            ChatRequestError::ThinkingTypeUnknown => Refusal::ThinkingTypeUnknown,
            ChatRequestError::Glm53ThinkingNotEnabled => Refusal::Glm53ThinkingNotEnabled,
            ChatRequestError::Glm53ReasoningDisabled { key } => Refusal::Glm53ReasoningDisabled {
                key: key@,
            },
            ChatRequestError::Glm53ThinkingMode { mode } => Refusal::Glm53ThinkingMode {
                mode: mode@,
            },
            ChatRequestError::Glm53ReasoningEffort => Refusal::Glm53ReasoningEffort,
            ChatRequestError::StopConflict => Refusal::StopConflict,
            ChatRequestError::StopSequencesMalformed => Refusal::StopSequencesMalformed,
        }
    }
}

impl Refusal {
    /// What the client is told.
    pub open spec fn message(self) -> Seq<char> {
        match self {
            Refusal::ThinkingMalformed =>
                "`thinking` must be a boolean or an object with `type` set to `enabled`, `disabled`, or `adaptive`"@,
            Refusal::ThinkingTypeUnknown =>
                "`thinking.type` must be `enabled`, `disabled`, or `adaptive`"@,
            Refusal::Glm53ThinkingNotEnabled =>
                "GLM-5.3 requires `thinking.type` to be `enabled`"@,
            Refusal::Glm53ReasoningDisabled { key } =>
                "GLM-5.3 does not support disabling reasoning via `"@ + key + "`"@,
            Refusal::Glm53ThinkingMode { mode } =>
                "GLM-5.3 does not support `thinking_mode="@ + mode + "`"@,
            Refusal::Glm53ReasoningEffort =>
                "GLM-5.3 `reasoning_effort` must be `low`, `medium`, `high`, or `max`"@,
            Refusal::StopConflict => "`stop` and `stop_sequences` cannot be used together"@,
            Refusal::StopSequencesMalformed => "`stop_sequences` must be an array of strings"@,
        }
    }
}

impl ChatRequestError {
    /// What the client is told.
    pub fn message(&self) -> (message: String)
        ensures
            message@ == self@.message(),
    {
        match self {
            ChatRequestError::ThinkingMalformed =>
                "`thinking` must be a boolean or an object with `type` set to `enabled`, `disabled`, or `adaptive`".to_owned(),
            ChatRequestError::ThinkingTypeUnknown =>
                "`thinking.type` must be `enabled`, `disabled`, or `adaptive`".to_owned(),
            ChatRequestError::Glm53ThinkingNotEnabled =>
                "GLM-5.3 requires `thinking.type` to be `enabled`".to_owned(),
            ChatRequestError::Glm53ReasoningDisabled { key } =>
                "GLM-5.3 does not support disabling reasoning via `".to_owned().concat(
                    key.as_str(),
                ).concat("`"),
            ChatRequestError::Glm53ThinkingMode { mode } =>
                "GLM-5.3 does not support `thinking_mode=".to_owned().concat(mode.as_str()).concat(
                    "`",
                ),
            ChatRequestError::Glm53ReasoningEffort =>
                "GLM-5.3 `reasoning_effort` must be `low`, `medium`, `high`, or `max`".to_owned(),
            ChatRequestError::StopConflict =>
                "`stop` and `stop_sequences` cannot be used together".to_owned(),
            ChatRequestError::StopSequencesMalformed =>
                "`stop_sequences` must be an array of strings".to_owned(),
        }
    }
}

/// What the client is told names what was refused.
pub proof fn law_message_names_the_cause(error: ChatRequestError, message: String)
    requires
        call_ensures(ChatRequestError::message, (&error,), message),
    ensures
        match error {
            ChatRequestError::ThinkingMalformed => message@
                == "`thinking` must be a boolean or an object with `type` set to `enabled`, `disabled`, or `adaptive`"@,
            ChatRequestError::ThinkingTypeUnknown => message@
                == "`thinking.type` must be `enabled`, `disabled`, or `adaptive`"@,
            ChatRequestError::Glm53ThinkingNotEnabled => message@
                == "GLM-5.3 requires `thinking.type` to be `enabled`"@,
            ChatRequestError::Glm53ReasoningDisabled { key } => message@
                == "GLM-5.3 does not support disabling reasoning via `"@ + key@ + "`"@,
            ChatRequestError::Glm53ThinkingMode { mode } => message@
                == "GLM-5.3 does not support `thinking_mode="@ + mode@ + "`"@,
            ChatRequestError::Glm53ReasoningEffort => message@
                == "GLM-5.3 `reasoning_effort` must be `low`, `medium`, `high`, or `max`"@,
            ChatRequestError::StopConflict => message@
                == "`stop` and `stop_sequences` cannot be used together"@,
            ChatRequestError::StopSequencesMalformed => message@
                == "`stop_sequences` must be an array of strings"@,
        },
{
}

} // verus!
