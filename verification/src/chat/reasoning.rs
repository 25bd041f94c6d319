//! The controls of a request over reasoning.
//!
//! A client controls reasoning by `thinking` and `reasoning_effort`, or by
//! template arguments. The first two are folded into the template arguments,
//! which is where prompt formatters look.

use super::error::ChatRequestError;
#[allow(unused_imports)]
use super::error::Refusal;
use super::model_id::is_glm53_model_id;
#[allow(unused_imports)]
use super::model_id::names_glm53;
use super::request::NvCreateChatCompletionRequest;
use crate::json::{Json, bool_value, get_field, same_text, text_value};
#[allow(unused_imports)]
use crate::json::{fields, fields_option, json, json_option};
use vstd::prelude::*;

verus! {

/// What `thinking` asks for.
#[derive(Clone, Copy, Debug, PartialEq, Eq, Structural)]
pub enum OpenAiThinkingMode {
    Enabled,
    Disabled,
    Adaptive,
}

/// What a `thinking` payload asks for: a boolean turns thinking on or off, an
/// object names the mode by its `type`.
pub open spec fn thinking_mode(thinking: Json) -> Result<OpenAiThinkingMode, Refusal> {
    match thinking {
        Json::Bool(true) => Ok(OpenAiThinkingMode::Enabled),
        Json::Bool(false) => Ok(OpenAiThinkingMode::Disabled),
        Json::Object(object) => match object.get("type"@) {
            Some(Json::Text(name)) => if name == "enabled"@ {
                Ok(OpenAiThinkingMode::Enabled)
            } else if name == "disabled"@ {
                Ok(OpenAiThinkingMode::Disabled)
            } else if name == "adaptive"@ {
                Ok(OpenAiThinkingMode::Adaptive)
            } else {
                Err(Refusal::ThinkingTypeUnknown)
            },
            _ => Err(Refusal::ThinkingTypeUnknown),
        },
        _ => Err(Refusal::ThinkingMalformed),
    }
}

/// Reads a `thinking` payload.
pub fn openai_thinking_mode(value: &serde_json::Value) -> (mode: Result<
    OpenAiThinkingMode,
    ChatRequestError,
>)
    ensures
        match mode {
            Ok(mode) => thinking_mode(json(*value)) == Ok::<OpenAiThinkingMode, Refusal>(mode),
            Err(error) => thinking_mode(json(*value)) == Err::<OpenAiThinkingMode, Refusal>(error@),
        },
{
    if let Some(enabled) = value.as_bool() {
        return Ok(
            if enabled {
                OpenAiThinkingMode::Enabled
            } else {
                OpenAiThinkingMode::Disabled
            },
        );
    }
    let thinking_object = match value.as_object() {
        Some(object) => object,
        None => {
            return Err(ChatRequestError::ThinkingMalformed);
        },
    };
    let thinking_type = match get_field(thinking_object, "type") {
        Some(value) => value.as_str(),
        None => None,
    };
    match thinking_type {
        Some(name) => {
            if same_text(name, "enabled") {
                Ok(OpenAiThinkingMode::Enabled)
            } else if same_text(name, "disabled") {
                Ok(OpenAiThinkingMode::Disabled)
            } else if same_text(name, "adaptive") {
                Ok(OpenAiThinkingMode::Adaptive)
            } else {
                Err(ChatRequestError::ThinkingTypeUnknown)
            }
        },
        None => Err(ChatRequestError::ThinkingTypeUnknown),
    }
}

/// The efforts that GLM-5.3 has. `null` leaves the effort to the model.
pub open spec fn is_glm53_effort(effort: Json) -> bool {
    match effort {
        Json::Null => true,
        Json::Text(name) => name == "low"@ || name == "medium"@ || name == "high"@ || name
            == "max"@,
        _ => false,
    }
}

/// The effort that counts: the one of the request itself, and else the one of
/// the template arguments.
pub open spec fn effective_effort(
    effort: Option<Json>,
    args: Option<Map<Seq<char>, Json>>,
) -> Option<Json> {
    match (effort, args) {
        (Some(effort), _) => Some(effort),
        (None, Some(args)) => args.get("reasoning_effort"@),
        (None, None) => None,
    }
}

/// Why GLM-5.3 refuses the template arguments of a request that has no
/// `thinking`, if it does.
pub open spec fn glm53_template_refusal(args: Map<Seq<char>, Json>) -> Option<Refusal> {
    if args.get("thinking"@) == Some(Json::Bool(false)) {
        Some(Refusal::Glm53ReasoningDisabled { key: "thinking"@ })
    } else if args.get("enable_thinking"@) == Some(Json::Bool(false)) {
        Some(Refusal::Glm53ReasoningDisabled { key: "enable_thinking"@ })
    } else {
        match args.get("thinking_mode"@) {
            Some(Json::Text(mode)) => if mode == "enabled"@ || mode == "thinking"@ {
                None
            } else {
                Some(Refusal::Glm53ThinkingMode { mode })
            },
            _ => None,
        }
    }
}

/// Why GLM-5.3 refuses the controls of a request, if it does: it always
/// reasons, and it has no effort but its own.
pub open spec fn glm53_refusal(
    thinking: Option<OpenAiThinkingMode>,
    effort: Option<Json>,
    args: Option<Map<Seq<char>, Json>>,
) -> Option<Refusal> {
    let mode_refusal = match (thinking, args) {
        (Some(OpenAiThinkingMode::Enabled), _) => None,
        (Some(_), _) => Some(Refusal::Glm53ThinkingNotEnabled),
        (None, Some(args)) => glm53_template_refusal(args),
        (None, None) => None,
    };
    match (mode_refusal, effective_effort(effort, args)) {
        (Some(refusal), _) => Some(refusal),
        (None, Some(effort)) => if is_glm53_effort(effort) {
            None
        } else {
            Some(Refusal::Glm53ReasoningEffort)
        },
        (None, None) => None,
    }
}

/// The template arguments with the mode that `thinking` asked for.
pub open spec fn with_mode(
    args: Map<Seq<char>, Json>,
    mode: OpenAiThinkingMode,
) -> Map<Seq<char>, Json> {
    match mode {
        OpenAiThinkingMode::Enabled => args.insert("thinking"@, Json::Bool(true)).insert(
            "enable_thinking"@,
            Json::Bool(true),
        ).insert("thinking_mode"@, Json::Text("enabled"@)),
        OpenAiThinkingMode::Disabled => args.insert("thinking"@, Json::Bool(false)).insert(
            "enable_thinking"@,
            Json::Bool(false),
        ).insert("thinking_mode"@, Json::Text("disabled"@)),
        OpenAiThinkingMode::Adaptive => args.insert("thinking_mode"@, Json::Text("adaptive"@)),
    }
}

/// The template arguments with the controls of a request folded in. A request
/// without controls keeps its arguments.
pub open spec fn with_controls(
    args: Option<Map<Seq<char>, Json>>,
    mode: Option<OpenAiThinkingMode>,
    effort: Option<Json>,
) -> Option<Map<Seq<char>, Json>> {
    let given = match args {
        Some(args) => args,
        None => Map::empty(),
    };
    match (mode, effort) {
        (None, None) => args,
        (Some(mode), None) => Some(with_mode(given, mode)),
        (None, Some(effort)) => Some(given.insert("reasoning_effort"@, effort)),
        (Some(mode), Some(effort)) => Some(
            with_mode(given, mode).insert("reasoning_effort"@, effort),
        ),
    }
}

/// The template arguments after the controls of a request are folded in, or why
/// the request is refused.
pub open spec fn folded(
    model: Seq<char>,
    thinking: Option<Json>,
    effort: Option<Json>,
    args: Option<Map<Seq<char>, Json>>,
) -> Result<Option<Map<Seq<char>, Json>>, Refusal> {
    let mode = match thinking {
        Some(thinking) => match thinking_mode(thinking) {
            Ok(mode) => Ok(Some(mode)),
            Err(refusal) => Err(refusal),
        },
        None => Ok(None),
    };
    match mode {
        Err(refusal) => Err(refusal),
        Ok(mode) => match glm53_refusal(mode, effort, args) {
            Some(refusal) => if names_glm53(model) {
                Err(refusal)
            } else {
                Ok(with_controls(args, mode, effort))
            },
            None => Ok(with_controls(args, mode, effort)),
        },
    }
}

impl NvCreateChatCompletionRequest {
    /// The requested effort as the template gets it.
    pub open spec fn effort(self) -> Option<Json> {
        match self.inner.reasoning_effort {
            Some(effort) => Some(Json::Text(effort@)),
            None => None,
        }
    }

    /// The template arguments after normalization, or why the request is
    /// refused.
    pub open spec fn normalized_args(self) -> Result<Option<Map<Seq<char>, Json>>, Refusal> {
        folded(
            self.inner.model@,
            json_option(self.thinking),
            self.effort(),
            fields_option(self.chat_template_args),
        )
    }

    /// Folds `thinking` and `reasoning_effort` into the template arguments.
    ///
    /// What the request itself says overrides what its template arguments said.
    /// `thinking` leaves the request, so that nothing downstream reads it again.
    /// A request that is refused is left as it was.
    pub fn normalize_reasoning_template_args(&mut self) -> (done: Result<(), ChatRequestError>)
        ensures
            match done {
                Ok(_) => {
                    &&& old(self).normalized_args() == Ok::<
                        Option<Map<Seq<char>, Json>>,
                        Refusal,
                    >(fields_option(final(self).chat_template_args))
                    &&& *final(self) == (NvCreateChatCompletionRequest {
                        chat_template_args: final(self).chat_template_args,
                        thinking: None,
                        ..*old(self)
                    })
                },
                Err(error) => {
                    &&& old(self).normalized_args() == Err::<
                        Option<Map<Seq<char>, Json>>,
                        Refusal,
                    >(error@)
                    &&& *final(self) == *old(self)
                },
            },
    {
        let thinking_mode = match &self.thinking {
            Some(thinking) => match openai_thinking_mode(thinking) {
                Ok(mode) => Some(mode),
                Err(error) => {
                    return Err(error);
                },
            },
            None => None,
        };
        let reasoning_effort = match &self.inner.reasoning_effort {
            Some(effort) => Some(text_value(effort.clone())),
            None => None,
        };
        match self.validate_glm53_reasoning_controls(thinking_mode, reasoning_effort.as_ref()) {
            Ok(()) => {},
            Err(error) => {
                return Err(error);
            },
        }
        if thinking_mode.is_none() && reasoning_effort.is_none() {
            return Ok(());
        }
        let mut args = match self.chat_template_args.take() {
            Some(args) => args,
            None => serde_json::Map::new(),
        };
        if let Some(mode) = thinking_mode {
            match mode {
                OpenAiThinkingMode::Enabled => {
                    args.insert("thinking".to_owned(), bool_value(true));
                    args.insert("enable_thinking".to_owned(), bool_value(true));
                    args.insert("thinking_mode".to_owned(), text_value("enabled".to_owned()));
                },
                OpenAiThinkingMode::Disabled => {
                    args.insert("thinking".to_owned(), bool_value(false));
                    args.insert("enable_thinking".to_owned(), bool_value(false));
                    args.insert("thinking_mode".to_owned(), text_value("disabled".to_owned()));
                },
                OpenAiThinkingMode::Adaptive => {
                    args.insert("thinking_mode".to_owned(), text_value("adaptive".to_owned()));
                },
            }
        }
        if let Some(effort) = reasoning_effort {
            args.insert("reasoning_effort".to_owned(), effort);
        }
        self.chat_template_args = Some(args);
        self.thinking = None;
        Ok(())
    }

    /// Refuses the controls that GLM-5.3 cannot honour.
    ///
    /// GLM-5.3 always reasons, with effort `low`, `medium`, `high` or `max`. Its
    /// template takes any other effort for `max` and ignores what would turn
    /// reasoning off, so a request that asks for either is refused here. A
    /// request for any other model is left alone.
    pub fn validate_glm53_reasoning_controls(
        &self,
        top_level_thinking: Option<OpenAiThinkingMode>,
        top_level_effort: Option<&serde_json::Value>,
    ) -> (checked: Result<(), ChatRequestError>)
        ensures
            ({
                let effort = match top_level_effort {
                    Some(effort) => Some(json(*effort)),
                    None => None,
                };
                let refusal = glm53_refusal(
                    top_level_thinking,
                    effort,
                    fields_option(self.chat_template_args),
                );
                match checked {
                    Ok(_) => !names_glm53(self.inner.model@) || refusal is None,
                    Err(error) => names_glm53(self.inner.model@) && refusal == Some(error@),
                }
            }),
    {
        if !is_glm53_model_id(self.inner.model.as_str()) {
            return Ok(());
        }
        if let Some(mode) = top_level_thinking {
            match mode {
                OpenAiThinkingMode::Enabled => {},
                _ => {
                    return Err(ChatRequestError::Glm53ThinkingNotEnabled);
                },
            }
        } else if let Some(args) = &self.chat_template_args {
            if let Some(flag) = get_field(args, "thinking") {
                if let Some(false) = flag.as_bool() {
                    return Err(
                        ChatRequestError::Glm53ReasoningDisabled { key: "thinking".to_owned() },
                    );
                }
            }
            if let Some(flag) = get_field(args, "enable_thinking") {
                if let Some(false) = flag.as_bool() {
                    return Err(
                        ChatRequestError::Glm53ReasoningDisabled {
                            key: "enable_thinking".to_owned(),
                        },
                    );
                }
            }
            if let Some(value) = get_field(args, "thinking_mode") {
                if let Some(mode) = value.as_str() {
                    if !same_text(mode, "enabled") && !same_text(mode, "thinking") {
                        return Err(
                            ChatRequestError::Glm53ThinkingMode { mode: mode.to_owned() },
                        );
                    }
                }
            }
        }
        let effective = match top_level_effort {
            Some(effort) => Some(effort),
            None => match &self.chat_template_args {
                Some(args) => get_field(args, "reasoning_effort"),
                None => None,
            },
        };
        if let Some(effort) = effective {
            if !effort.is_null() {
                let known = match effort.as_str() {
                    Some(name) => same_text(name, "low") || same_text(name, "medium") || same_text(
                        name,
                        "high",
                    ) || same_text(name, "max"),
                    None => false,
                };
                if !known {
                    return Err(ChatRequestError::Glm53ReasoningEffort);
                }
            }
        }
        Ok(())
    }
}

/// The keys and modes of template arguments differ from each other.
proof fn lemma_names_differ()
    ensures
        "thinking"@ != "enable_thinking"@,
        "thinking"@ != "thinking_mode"@,
        "thinking"@ != "reasoning_effort"@,
        "enable_thinking"@ != "thinking_mode"@,
        "enable_thinking"@ != "reasoning_effort"@,
        "thinking_mode"@ != "reasoning_effort"@,
        "enabled"@ != "disabled"@,
        "enabled"@ != "adaptive"@,
        "thinking"@ != "disabled"@,
        "thinking"@ != "adaptive"@,
{
    reveal_strlit("thinking");
    reveal_strlit("enable_thinking");
    reveal_strlit("thinking_mode");
    reveal_strlit("reasoning_effort");
    reveal_strlit("enabled");
    reveal_strlit("disabled");
    reveal_strlit("adaptive");
    assert("thinking"@.len() == 8);
    assert("enable_thinking"@.len() == 15);
    assert("thinking_mode"@.len() == 13);
    assert("reasoning_effort"@.len() == 16);
    assert("thinking"@[0] != "disabled"@[0]);
    assert("thinking"@[0] != "adaptive"@[0]);
}

/// The name of a mode in the template arguments.
pub open spec fn mode_name(mode: OpenAiThinkingMode) -> Seq<char> {
    match mode {
        OpenAiThinkingMode::Enabled => "enabled"@,
        OpenAiThinkingMode::Disabled => "disabled"@,
        OpenAiThinkingMode::Adaptive => "adaptive"@,
    }
}

/// What the request itself asks for overrides what its template arguments said,
/// and every other template argument stays as it was. Adaptive thinking neither
/// turns thinking on nor off, and a request that says nothing of thinking or of
/// the effort leaves what its arguments say of it.
pub proof fn law_request_controls_win(
    args: Option<Map<Seq<char>, Json>>,
    mode: Option<OpenAiThinkingMode>,
    effort: Option<Json>,
)
    ensures
        effort is Some ==> with_controls(args, mode, effort) is Some
            && with_controls(args, mode, effort)->0.get("reasoning_effort"@) == effort,
        mode matches Some(mode) ==> {
            let after = with_controls(args, Some(mode), effort)->0;
            &&& with_controls(args, Some(mode), effort) is Some
            &&& after.get("thinking_mode"@) == Some(Json::Text(mode_name(mode)))
            &&& mode != OpenAiThinkingMode::Adaptive ==> {
                &&& after.get("thinking"@) == Some(
                    Json::Bool(mode == OpenAiThinkingMode::Enabled),
                )
                &&& after.get("enable_thinking"@) == Some(
                    Json::Bool(mode == OpenAiThinkingMode::Enabled),
                )
            }
        },
        mode is None || mode == Some(OpenAiThinkingMode::Adaptive) ==> {
            let after = with_controls(args, mode, effort);
            &&& argument(after, "thinking"@) == argument(args, "thinking"@)
            &&& argument(after, "enable_thinking"@) == argument(args, "enable_thinking"@)
        },
        mode is None ==> argument(with_controls(args, mode, effort), "thinking_mode"@) == argument(
            args,
            "thinking_mode"@,
        ),
        effort is None ==> argument(with_controls(args, mode, effort), "reasoning_effort"@)
            == argument(args, "reasoning_effort"@),
        forall|key: Seq<char>|
            key != "thinking"@ && key != "enable_thinking"@ && key != "thinking_mode"@ && key
                != "reasoning_effort"@ ==> #[trigger] argument(
                with_controls(args, mode, effort),
                key,
            ) == argument(args, key),
{
    lemma_names_differ();
}

/// The template argument `key`, if there is one.
pub open spec fn argument(args: Option<Map<Seq<char>, Json>>, key: Seq<char>) -> Option<Json> {
    match args {
        Some(args) => args.get(key),
        None => None,
    }
}

/// A request without controls keeps its template arguments as they are.
pub proof fn law_no_controls_no_change(model: Seq<char>, args: Option<Map<Seq<char>, Json>>)
    ensures
        folded(model, None, None, args) is Ok ==> folded(model, None, None, args)->Ok_0 == args,
{
}

/// Normalizing a request that was normalized before changes nothing: it is not
/// refused, and its template arguments stay.
pub proof fn law_normalization_is_idempotent(
    model: Seq<char>,
    thinking: Option<Json>,
    effort: Option<Json>,
    args: Option<Map<Seq<char>, Json>>,
)
    requires
        folded(model, thinking, effort, args) is Ok,
    ensures
        folded(model, None, effort, folded(model, thinking, effort, args)->Ok_0) == folded(
            model,
            thinking,
            effort,
            args,
        ),
{
    lemma_names_differ();
    let once = folded(model, thinking, effort, args)->Ok_0;
    let twice = with_controls(once, None, effort);
    if let Some(effort) = effort {
        assert(once->0.get("reasoning_effort"@) == Some(effort));
        assert(twice->0 =~= once->0);
    }
    assert(twice == once);
    if names_glm53(model) {
        if once is Some && thinking is None {
            assert(once->0.get("thinking"@) == argument(args, "thinking"@));
            assert(once->0.get("enable_thinking"@) == argument(args, "enable_thinking"@));
            assert(once->0.get("thinking_mode"@) == argument(args, "thinking_mode"@));
        }
        assert(glm53_refusal(None, effort, once) is None);
    }
}

/// A request for GLM-5.3 that is accepted reasons: nothing in the template
/// arguments turns reasoning off or asks for another mode, and the effort is one
/// that the model has.
pub proof fn law_glm53_always_reasons(
    model: Seq<char>,
    thinking: Option<Json>,
    effort: Option<Json>,
    args: Option<Map<Seq<char>, Json>>,
)
    requires
        names_glm53(model),
        folded(model, thinking, effort, args) is Ok,
    ensures
        ({
            let after = folded(model, thinking, effort, args)->Ok_0;
            &&& argument(after, "thinking"@) != Some(Json::Bool(false))
            &&& argument(after, "enable_thinking"@) != Some(Json::Bool(false))
            &&& argument(after, "thinking_mode"@) matches Some(Json::Text(mode)) ==> mode
                == "enabled"@ || mode == "thinking"@
            &&& argument(after, "reasoning_effort"@) matches Some(effort) ==> is_glm53_effort(
                effort,
            )
        }),
{
    law_normalization_is_idempotent(model, thinking, effort, args);
    lemma_names_differ();
}

/// The rules of GLM-5.3 are for GLM-5.3 alone: a request for another model is
/// refused only for a `thinking` that says nothing.
pub proof fn law_other_models_are_left_alone(
    model: Seq<char>,
    thinking: Option<Json>,
    effort: Option<Json>,
    args: Option<Map<Seq<char>, Json>>,
)
    requires
        !names_glm53(model),
    ensures
        folded(model, thinking, effort, args) is Ok <==> (thinking matches Some(value)
            ==> thinking_mode(value) is Ok),
{
}

/// What a `thinking` payload is read as: the mode that it names as a boolean or
/// by its `type`, and else the error that says which of the two is missing.
pub proof fn law_thinking_is_read(
    value: serde_json::Value,
    mode: Result<OpenAiThinkingMode, ChatRequestError>,
)
    requires
        call_ensures(openai_thinking_mode, (&value,), mode),
    ensures
        ({
            let thinking = json(value);
            let typed = |name: Seq<char>|
                thinking is Object && thinking->Object_0.get("type"@) == Some(Json::Text(name));
            &&& mode == Ok::<OpenAiThinkingMode, ChatRequestError>(OpenAiThinkingMode::Enabled)
                <==> thinking == Json::Bool(true) || typed("enabled"@)
            &&& mode == Ok::<OpenAiThinkingMode, ChatRequestError>(OpenAiThinkingMode::Disabled)
                <==> thinking == Json::Bool(false) || typed("disabled"@)
            &&& mode == Ok::<OpenAiThinkingMode, ChatRequestError>(OpenAiThinkingMode::Adaptive)
                <==> typed("adaptive"@)
            &&& mode matches Err(error) ==> {
                &&& error is ThinkingMalformed <==> !(thinking is Bool) && !(thinking is Object)
                &&& error is ThinkingTypeUnknown <==> thinking is Object
            }
        }),
{
    lemma_names_differ();
    lemma_modes_differ();
}

proof fn lemma_modes_differ()
    ensures
        "disabled"@ != "adaptive"@,
{
    reveal_strlit("disabled");
    reveal_strlit("adaptive");
    assert("disabled"@[0] != "adaptive"@[0]);
}

/// Which controls GLM-5.3 refuses, and with what. A request for any other model
/// is never refused. What `thinking` says outweighs the template arguments on
/// thinking, and the effort of the request outweighs the one among them.
pub proof fn law_glm53_refuses(
    request: NvCreateChatCompletionRequest,
    thinking: Option<OpenAiThinkingMode>,
    effort: Option<&serde_json::Value>,
    checked: Result<(), ChatRequestError>,
)
    requires
        call_ensures(
            NvCreateChatCompletionRequest::validate_glm53_reasoning_controls,
            (&request, thinking, effort),
            checked,
        ),
    ensures
        !names_glm53(request.inner.model@) ==> checked is Ok,
        names_glm53(request.inner.model@) ==> ({
            let given = |key: Seq<char>|
                match request.chat_template_args {
                    Some(args) => fields(args).get(key),
                    None => None,
                };
            let not_enabled = thinking is Some && thinking != Some(OpenAiThinkingMode::Enabled);
            let off = |key: Seq<char>| thinking is None && given(key) == Some(Json::Bool(false));
            let odd_mode = thinking is None && given("thinking_mode"@) is Some && (given(
                "thinking_mode"@,
            )->0) is Text && given("thinking_mode"@) != Some(Json::Text("enabled"@)) && given(
                "thinking_mode"@,
            ) != Some(Json::Text("thinking"@));
            let counts = match effort {
                Some(effort) => Some(json(*effort)),
                None => given("reasoning_effort"@),
            };
            let odd_effort = counts is Some && counts != Some(Json::Null) && counts != Some(
                Json::Text("low"@),
            ) && counts != Some(Json::Text("medium"@)) && counts != Some(Json::Text("high"@))
                && counts != Some(Json::Text("max"@));
            match checked {
                Ok(_) => !not_enabled && !off("thinking"@) && !off("enable_thinking"@) && !odd_mode
                    && !odd_effort,
                Err(ChatRequestError::Glm53ThinkingNotEnabled) => not_enabled,
                Err(ChatRequestError::Glm53ReasoningDisabled { key }) => (key@ == "thinking"@
                    || key@ == "enable_thinking"@) && off(key@) && (key@ == "enable_thinking"@
                    ==> !off("thinking"@)),
                Err(ChatRequestError::Glm53ThinkingMode { mode }) => odd_mode && given(
                    "thinking_mode"@,
                ) == Some(Json::Text(mode@)) && !off("thinking"@) && !off("enable_thinking"@),
                Err(ChatRequestError::Glm53ReasoningEffort) => odd_effort && !not_enabled && !off(
                    "thinking"@,
                ) && !off("enable_thinking"@) && !odd_mode,
                Err(_) => false,
            }
        }),
{
    lemma_names_differ();
}

/// What normalization makes of the template arguments, argument by argument. The
/// effort of the request becomes `reasoning_effort`. `thinking` turned on or off
/// becomes all three arguments on thinking; adaptive thinking becomes
/// `thinking_mode` alone. Without an effort, or without `thinking`, the arguments
/// that it would set stay, and any other argument stays in any case. `thinking`
/// leaves the request, and nothing else of the request changes.
pub proof fn law_normalization_sets_arguments(
    request: &mut NvCreateChatCompletionRequest,
    done: Result<(), ChatRequestError>,
    key: Seq<char>,
)
    requires
        call_ensures(
            NvCreateChatCompletionRequest::normalize_reasoning_template_args,
            (request,),
            done,
        ),
        done is Ok,
    ensures
        ({
            let before = match old(request).chat_template_args {
                Some(args) => fields(args).get(key),
                None => None,
            };
            let after = match final(request).chat_template_args {
                Some(args) => fields(args).get(key),
                None => None,
            };
            let thinking = match old(request).thinking {
                Some(thinking) => Some(json(thinking)),
                None => None,
            };
            let typed = |name: Seq<char>|
                thinking is Some && thinking->0 is Object && (thinking->0)->Object_0.get("type"@)
                    == Some(Json::Text(name));
            let on = thinking == Some(Json::Bool(true)) || typed("enabled"@);
            let off = thinking == Some(Json::Bool(false)) || typed("disabled"@);
            let adaptive = typed("adaptive"@);
            &&& thinking is None || on || off || adaptive
            &&& after == (if key == "reasoning_effort"@ {
                match old(request).inner.reasoning_effort {
                    Some(effort) => Some(Json::Text(effort@)),
                    None => before,
                }
            } else if key == "thinking"@ || key == "enable_thinking"@ {
                if on {
                    Some(Json::Bool(true))
                } else if off {
                    Some(Json::Bool(false))
                } else {
                    before
                }
            } else if key == "thinking_mode"@ {
                if on {
                    Some(Json::Text("enabled"@))
                } else if off {
                    Some(Json::Text("disabled"@))
                } else if adaptive {
                    Some(Json::Text("adaptive"@))
                } else {
                    before
                }
            } else {
                before
            })
            &&& final(request).chat_template_args is Some <==> old(request).chat_template_args is Some
                || old(request).thinking is Some || old(request).inner.reasoning_effort is Some
            &&& final(request).thinking is None
            &&& final(request).inner == old(request).inner
            &&& final(request).common == old(request).common
            &&& final(request).nvext == old(request).nvext
            &&& final(request).media_io_kwargs == old(request).media_io_kwargs
            &&& final(request).return_tokens_as_token_ids
                == old(request).return_tokens_as_token_ids
            &&& final(request).unsupported_fields == old(request).unsupported_fields
        }),
{
    lemma_names_differ();
    lemma_modes_differ();
}

/// A request is refused by normalization if and only if its `thinking` cannot be
/// read, or GLM-5.3 refuses its controls, and then for that reason. It is left as
/// it was.
pub proof fn law_normalization_refuses(
    request: &mut NvCreateChatCompletionRequest,
    done: Result<(), ChatRequestError>,
    read: Result<OpenAiThinkingMode, ChatRequestError>,
    thinking: Option<OpenAiThinkingMode>,
    effort: Option<&serde_json::Value>,
    checked: Result<(), ChatRequestError>,
)
    requires
        call_ensures(
            NvCreateChatCompletionRequest::normalize_reasoning_template_args,
            (request,),
            done,
        ),
        old(request).thinking matches Some(value) ==> call_ensures(
            openai_thinking_mode,
            (&value,),
            read,
        ),
        thinking == (if old(request).thinking is Some && read is Ok {
            Some(read->Ok_0)
        } else {
            None
        }),
        match (old(request).inner.reasoning_effort, effort) {
            (Some(name), Some(effort)) => json(*effort) == Json::Text(name@),
            (None, None) => true,
            _ => false,
        },
        call_ensures(
            NvCreateChatCompletionRequest::validate_glm53_reasoning_controls,
            (&*old(request), thinking, effort),
            checked,
        ),
    ensures
        ({
            let unread = old(request).thinking is Some && read is Err;
            &&& done is Err <==> unread || checked is Err
            &&& unread ==> done->Err_0@ == read->Err_0@
            &&& !unread && checked is Err ==> done->Err_0@ == checked->Err_0@
            &&& done is Err ==> *final(request) == *old(request)
        }),
{
}

} // verus!
