//! Validating a request.

use super::request::{FloatBits, NvCreateChatCompletionRequest, NvExt, ResponseFormat, Stop};
use vstd::prelude::*;

verus! {

/// One check of a request, with what is checked.
///
/// The checks themselves are the server's: the request says which there are, in
/// which order they are made, and what each of them looks at.
pub enum RequestCheck<'a> {
    NoUnsupportedFields(&'a serde_json::Map<String, serde_json::Value>),
    Messages(&'a Vec<serde_json::Value>),
    Model(&'a String),
    ReasoningEffort(&'a Option<String>),
    FrequencyPenalty(Option<FloatBits>),
    LogitBias(&'a Option<serde_json::Value>),
    TopLogprobs(Option<u8>),
    MaxTokens(Option<u32>),
    MaxCompletionTokens(Option<u32>),
    N(Option<u8>),
    /// Completion token ids are given for a single choice only.
    CompletionTokenIdsSingleChoice { choices: usize, nvext: &'a Option<NvExt> },
    PresencePenalty(Option<FloatBits>),
    ResponseFormat(&'a Option<ResponseFormat>),
    ServiceTier(&'a Option<serde_json::Value>),
    Stop(&'a Option<Stop>),
    Temperature(Option<FloatBits>),
    TopP(Option<FloatBits>),
    Tools(&'a Option<Vec<serde_json::Value>>),
    ToolChoice {
        tool_choice: &'a Option<serde_json::Value>,
        tools: &'a Option<Vec<serde_json::Value>>,
    },
    User(&'a Option<String>),
    RepetitionPenalty(Option<FloatBits>),
    MinP(Option<FloatBits>),
    TopK(Option<i32>),
    /// How many choices there are must fit the temperature.
    NWithTemperature { n: Option<u8>, temperature: Option<FloatBits> },
}

/// How many checks a request goes through.
pub const REQUEST_CHECKS: usize = 24;

impl NvCreateChatCompletionRequest {
    /// How many choices the request asks for.
    pub open spec fn choices(self) -> usize {
        match self.inner.n {
            Some(n) => n as usize,
            None => 1,
        }
    }

    /// The check that is made after `position` others.
    pub open spec fn check(&self, position: int) -> RequestCheck<'_> {
        if position == 0 {
            RequestCheck::NoUnsupportedFields(&self.unsupported_fields)
        } else if position == 1 {
            RequestCheck::Messages(&self.inner.messages)
        } else if position == 2 {
            RequestCheck::Model(&self.inner.model)
        } else if position == 3 {
            RequestCheck::ReasoningEffort(&self.inner.reasoning_effort)
        } else if position == 4 {
            RequestCheck::FrequencyPenalty(self.inner.frequency_penalty)
        } else if position == 5 {
            RequestCheck::LogitBias(&self.inner.logit_bias)
        } else if position == 6 {
            RequestCheck::TopLogprobs(self.inner.top_logprobs)
        } else if position == 7 {
            RequestCheck::MaxTokens(self.inner.max_tokens)
        } else if position == 8 {
            RequestCheck::MaxCompletionTokens(self.inner.max_completion_tokens)
        } else if position == 9 {
            RequestCheck::N(self.inner.n)
        } else if position == 10 {
            RequestCheck::CompletionTokenIdsSingleChoice {
                choices: self.choices(),
                nvext: &self.nvext,
            }
        } else if position == 11 {
            RequestCheck::PresencePenalty(self.inner.presence_penalty)
        } else if position == 12 {
            RequestCheck::ResponseFormat(&self.inner.response_format)
        } else if position == 13 {
            RequestCheck::ServiceTier(&self.inner.service_tier)
        } else if position == 14 {
            RequestCheck::Stop(&self.inner.stop)
        } else if position == 15 {
            RequestCheck::Temperature(self.inner.temperature)
        } else if position == 16 {
            RequestCheck::TopP(self.inner.top_p)
        } else if position == 17 {
            RequestCheck::Tools(&self.inner.tools)
        } else if position == 18 {
            RequestCheck::ToolChoice {
                tool_choice: &self.inner.tool_choice,
                tools: &self.inner.tools,
            }
        } else if position == 19 {
            RequestCheck::User(&self.inner.user)
        } else if position == 20 {
            RequestCheck::RepetitionPenalty(self.common.repetition_penalty)
        } else if position == 21 {
            RequestCheck::MinP(self.common.min_p)
        } else if position == 22 {
            RequestCheck::TopK(self.common.top_k)
        } else {
            RequestCheck::NWithTemperature {
                n: self.inner.n,
                temperature: self.inner.temperature,
            }
        }
    }

    /// The check that is made after `position` others.
    fn check_at<'a>(&'a self, position: usize) -> (check: RequestCheck<'a>)
        ensures
            check == self.check(position as int),
    {
        match position {
            0 => RequestCheck::NoUnsupportedFields(&self.unsupported_fields),
            1 => RequestCheck::Messages(&self.inner.messages),
            2 => RequestCheck::Model(&self.inner.model),
            3 => RequestCheck::ReasoningEffort(&self.inner.reasoning_effort),
            4 => RequestCheck::FrequencyPenalty(self.inner.frequency_penalty),
            5 => RequestCheck::LogitBias(&self.inner.logit_bias),
            6 => RequestCheck::TopLogprobs(self.inner.top_logprobs),
            7 => RequestCheck::MaxTokens(self.inner.max_tokens),
            8 => RequestCheck::MaxCompletionTokens(self.inner.max_completion_tokens),
            9 => RequestCheck::N(self.inner.n),
            10 => RequestCheck::CompletionTokenIdsSingleChoice {
                choices: match self.inner.n {
                    Some(n) => n as usize,
                    None => 1,
                },
                nvext: &self.nvext,
            },
            11 => RequestCheck::PresencePenalty(self.inner.presence_penalty),
            12 => RequestCheck::ResponseFormat(&self.inner.response_format),
            13 => RequestCheck::ServiceTier(&self.inner.service_tier),
            14 => RequestCheck::Stop(&self.inner.stop),
            15 => RequestCheck::Temperature(self.inner.temperature),
            16 => RequestCheck::TopP(self.inner.top_p),
            17 => RequestCheck::Tools(&self.inner.tools),
            18 => RequestCheck::ToolChoice {
                tool_choice: &self.inner.tool_choice,
                tools: &self.inner.tools,
            },
            19 => RequestCheck::User(&self.inner.user),
            20 => RequestCheck::RepetitionPenalty(self.common.repetition_penalty),
            21 => RequestCheck::MinP(self.common.min_p),
            22 => RequestCheck::TopK(self.common.top_k),
            _ => RequestCheck::NWithTemperature {
                n: self.inner.n,
                temperature: self.inner.temperature,
            },
        }
    }

    /// Validates a request: makes one check after the other, and stops at the
    /// first that fails, with what that check said.
    pub fn validate<'a, E, F: Fn(RequestCheck<'a>) -> Result<(), E>>(&'a self, check: F) -> (valid:
        Result<(), E>)
        requires
            forall|i: int|
                0 <= i < REQUEST_CHECKS ==> check.requires((#[trigger] self.check(i),)),
        ensures
            match valid {
                Ok(_) => forall|i: int|
                    0 <= i < REQUEST_CHECKS ==> check.ensures((#[trigger] self.check(i),), Ok(())),
                Err(error) => exists|i: int|
                    {
                        &&& 0 <= i < REQUEST_CHECKS
                        &&& check.ensures((#[trigger] self.check(i),), Err(error))
                        &&& forall|j: int|
                            0 <= j < i ==> check.ensures((#[trigger] self.check(j),), Ok(()))
                    },
            },
    {
        let mut position: usize = 0;
        while position < REQUEST_CHECKS
            invariant
                position <= REQUEST_CHECKS,
                forall|i: int|
                    0 <= i < REQUEST_CHECKS ==> check.requires((#[trigger] self.check(i),)),
                forall|i: int|
                    0 <= i < position ==> check.ensures((#[trigger] self.check(i),), Ok(())),
            decreases REQUEST_CHECKS - position,
        {
            let outcome = check(self.check_at(position));
            match outcome {
                Ok(done) => {
                    assert(done == ());
                },
                Err(error) => {
                    return Err(error);
                },
            }
            position = position + 1;
        }
        Ok(())
    }
}

/// Every check looks at the field of the request that it is named for.
pub proof fn law_check_looks_at_its_field<'a>(
    request: &'a NvCreateChatCompletionRequest,
    position: int,
)
    ensures
        match request.check(position) {
            RequestCheck::NoUnsupportedFields(x) => *x == request.unsupported_fields,
            RequestCheck::Messages(x) => *x == request.inner.messages,
            RequestCheck::Model(x) => *x == request.inner.model,
            RequestCheck::ReasoningEffort(x) => *x == request.inner.reasoning_effort,
            RequestCheck::FrequencyPenalty(x) => x == request.inner.frequency_penalty,
            RequestCheck::LogitBias(x) => *x == request.inner.logit_bias,
            RequestCheck::TopLogprobs(x) => x == request.inner.top_logprobs,
            RequestCheck::MaxTokens(x) => x == request.inner.max_tokens,
            RequestCheck::MaxCompletionTokens(x) => x == request.inner.max_completion_tokens,
            RequestCheck::N(x) => x == request.inner.n,
            RequestCheck::CompletionTokenIdsSingleChoice { choices, nvext } => {
                &&& request.inner.n matches Some(n) ==> choices == n
                &&& request.inner.n is None ==> choices == 1
                &&& *nvext == request.nvext
            },
            RequestCheck::PresencePenalty(x) => x == request.inner.presence_penalty,
            RequestCheck::ResponseFormat(x) => *x == request.inner.response_format,
            RequestCheck::ServiceTier(x) => *x == request.inner.service_tier,
            RequestCheck::Stop(x) => *x == request.inner.stop,
            RequestCheck::Temperature(x) => x == request.inner.temperature,
            RequestCheck::TopP(x) => x == request.inner.top_p,
            RequestCheck::Tools(x) => *x == request.inner.tools,
            RequestCheck::ToolChoice { tool_choice, tools } => *tool_choice
                == request.inner.tool_choice && *tools == request.inner.tools,
            RequestCheck::User(x) => *x == request.inner.user,
            RequestCheck::RepetitionPenalty(x) => x == request.common.repetition_penalty,
            RequestCheck::MinP(x) => x == request.common.min_p,
            RequestCheck::TopK(x) => x == request.common.top_k,
            RequestCheck::NWithTemperature { n, temperature } => n == request.inner.n && temperature
                == request.inner.temperature,
        },
{
}

/// A request is valid only if every check of it passed, in `checks`, each on the
/// field that it is about. If it is not, some check failed with the error that is
/// returned, and every check that comes before that one passed.
pub proof fn law_valid_request_passed_every_check<
    'a,
    E,
    F: Fn(RequestCheck<'a>) -> Result<(), E>,
>(
    request: &'a NvCreateChatCompletionRequest,
    checks: Seq<RequestCheck<'a>>,
    check: F,
    valid: Result<(), E>,
)
    requires
        checks == seq![
            RequestCheck::NoUnsupportedFields(&request.unsupported_fields),
            RequestCheck::Messages(&request.inner.messages),
            RequestCheck::Model(&request.inner.model),
            RequestCheck::ReasoningEffort(&request.inner.reasoning_effort),
            RequestCheck::FrequencyPenalty(request.inner.frequency_penalty),
            RequestCheck::LogitBias(&request.inner.logit_bias),
            RequestCheck::TopLogprobs(request.inner.top_logprobs),
            RequestCheck::MaxTokens(request.inner.max_tokens),
            RequestCheck::MaxCompletionTokens(request.inner.max_completion_tokens),
            RequestCheck::N(request.inner.n),
            RequestCheck::CompletionTokenIdsSingleChoice {
                choices: match request.inner.n {
                    Some(n) => n as usize,
                    None => 1,
                },
                nvext: &request.nvext,
            },
            RequestCheck::PresencePenalty(request.inner.presence_penalty),
            RequestCheck::ResponseFormat(&request.inner.response_format),
            RequestCheck::ServiceTier(&request.inner.service_tier),
            RequestCheck::Stop(&request.inner.stop),
            RequestCheck::Temperature(request.inner.temperature),
            RequestCheck::TopP(request.inner.top_p),
            RequestCheck::Tools(&request.inner.tools),
            RequestCheck::ToolChoice {
                tool_choice: &request.inner.tool_choice,
                tools: &request.inner.tools,
            },
            RequestCheck::User(&request.inner.user),
            RequestCheck::RepetitionPenalty(request.common.repetition_penalty),
            RequestCheck::MinP(request.common.min_p),
            RequestCheck::TopK(request.common.top_k),
            RequestCheck::NWithTemperature {
                n: request.inner.n,
                temperature: request.inner.temperature,
            },
        ],
        call_ensures(
            NvCreateChatCompletionRequest::validate::<'a, E, F>,
            (request, check),
            valid,
        ),
    ensures
        match valid {
            Ok(_) => forall|i: int|
                0 <= i < checks.len() ==> call_ensures(
                    check,
                    (#[trigger] checks[i],),
                    Ok::<(), E>(()),
                ),
            Err(error) => exists|i: int|
                {
                    &&& 0 <= i < checks.len()
                    &&& call_ensures(check, (#[trigger] checks[i],), Err::<(), E>(error))
                    &&& forall|j: int|
                        0 <= j < i ==> call_ensures(
                            check,
                            (#[trigger] checks[j],),
                            Ok::<(), E>(()),
                        )
                },
        },
{
    assert(checks.len() == 24);
    assert forall|i: int| 0 <= i < 24 implies checks[i] == #[trigger] request.check(i) by {
    }
    if let Err(error) = valid {
        let i = choose|i: int|
            {
                &&& 0 <= i < REQUEST_CHECKS
                &&& check.ensures((#[trigger] request.check(i),), Err(error))
                &&& forall|j: int|
                    0 <= j < i ==> check.ensures((#[trigger] request.check(j),), Ok(()))
            };
        assert(checks[i] == request.check(i));
        assert forall|j: int| 0 <= j < i implies call_ensures(
            check,
            (#[trigger] checks[j],),
            Ok::<(), E>(()),
        ) by {
            assert(checks[j] == request.check(j));
        }
    } else {
        assert forall|i: int| 0 <= i < checks.len() implies call_ensures(
            check,
            (#[trigger] checks[i],),
            Ok::<(), E>(()),
        ) by {
            assert(checks[i] == request.check(i));
        }
    }
}

} // verus!
