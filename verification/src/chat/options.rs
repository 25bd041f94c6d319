//! What a request asks for, as the parts of a server read it.

use super::request::{
    CommonExt, FloatBits, NvCreateChatCompletionRequest, NvExt, ResponseFormat,
};
use super::response::copy_text;
use super::stop::copy_texts;
use crate::json::{Json, object_value, same_text, text_value};
#[allow(unused_imports)]
use crate::json::{json, json_option, texts};
use vstd::prelude::*;

verus! {

/// The JSON Schema of any object.
pub open spec fn any_object_schema() -> Json {
    Json::Object(Map::empty().insert("type"@, Json::Text("object"@)))
}

impl NvCreateChatCompletionRequest {
    /// The JSON Schema that guides generation: the one that is given for that,
    /// and else the one that the response format stands for.
    pub open spec fn guided_json(self) -> Option<Json> {
        match (self.common.guided_json, self.inner.response_format) {
            (Some(schema), _) => Some(json(schema)),
            (None, Some(ResponseFormat::JsonObject)) => Some(any_object_schema()),
            (None, Some(ResponseFormat::JsonSchema { json_schema })) => if json(json_schema.schema)
                is Null {
                None
            } else {
                Some(json(json_schema.schema))
            },
            (None, _) => None,
        }
    }

    /// The annotations that the request asks for.
    pub open spec fn wanted_annotations(self) -> Option<Seq<Seq<char>>> {
        match self.nvext {
            Some(nvext) => match nvext.annotations {
                Some(annotations) => Some(texts(annotations@)),
                None => None,
            },
            None => None,
        }
    }

    /// The JSON Schema that guides generation.
    pub fn get_guided_json(&self) -> (schema: Option<serde_json::Value>)
        ensures
            json_option(schema) == self.guided_json(),
    {
        if let Some(schema) = &self.common.guided_json {
            return Some(schema.clone());
        }
        match &self.inner.response_format {
            Some(ResponseFormat::JsonObject) => {
                let mut any_object = serde_json::Map::new();
                any_object.insert("type".to_owned(), text_value("object".to_owned()));
                Some(object_value(any_object))
            },
            Some(ResponseFormat::JsonSchema { json_schema }) => {
                if json_schema.schema.is_null() {
                    None
                } else {
                    Some(json_schema.schema.clone())
                }
            },
            _ => None,
        }
    }

    /// How many log probabilities each token gets: as many as asked for, or one,
    /// where log probabilities are wanted at all.
    pub fn get_logprobs(&self) -> (logprobs: Option<u32>)
        ensures
            logprobs == (match (self.inner.logprobs, self.inner.top_logprobs) {
                (Some(true), Some(top_logprobs)) => Some(top_logprobs as u32),
                (Some(true), None) => Some(1u32),
                _ => None,
            }),
    {
        match self.inner.logprobs {
            Some(true) => match self.inner.top_logprobs {
                Some(top_logprobs) => Some(top_logprobs as u32),
                None => Some(1u32),
            },
            Some(false) => None,
            None => None,
        }
    }

    /// How many tokens are generated at most. `max_completion_tokens` outweighs
    /// the older `max_tokens`.
    pub fn get_max_tokens(&self) -> (max_tokens: Option<u32>)
        ensures
            max_tokens == (match self.inner.max_completion_tokens {
                Some(max_tokens) => Some(max_tokens),
                None => self.inner.max_tokens,
            }),
    {
        match self.inner.max_completion_tokens {
            Some(max_tokens) => Some(max_tokens),
            None => self.inner.max_tokens,
        }
    }

    /// The annotations that the request asks for.
    pub fn annotations(&self) -> (annotations: Option<Vec<String>>)
        ensures
            match annotations {
                Some(annotations) => self.wanted_annotations() == Some(texts(annotations@)),
                None => self.wanted_annotations() is None,
            },
    {
        match &self.nvext {
            Some(nvext) => match &nvext.annotations {
                Some(annotations) => Some(copy_texts(annotations)),
                None => None,
            },
            None => None,
        }
    }

    /// The request asks for an annotation.
    pub fn has_annotation(&self, annotation: &str) -> (wanted: bool)
        ensures
            wanted == (self.wanted_annotations() matches Some(wanted) && wanted.contains(
                annotation@,
            )),
    {
        if let Some(nvext) = &self.nvext {
            if let Some(annotations) = &nvext.annotations {
                for i in 0..annotations.len()
                    invariant
                        self.wanted_annotations() == Some(texts(annotations@)),
                        forall|j: int| 0 <= j < i ==> texts(annotations@)[j] != annotation@,
                {
                    if same_text(annotations[i].as_str(), annotation) {
                        assert(texts(annotations@)[i as int] == annotation@);
                        return true;
                    }
                }
            }
        }
        false
    }

    /// The strings that generation chooses from.
    pub fn get_guided_choice(&self) -> (choice: Option<Vec<String>>)
        ensures
            match (choice, self.common.guided_choice) {
                (Some(choice), Some(given)) => choice@ == given@,
                (None, None) => true,
                _ => false,
            },
    {
        match &self.common.guided_choice {
            Some(choice) => Some(copy_texts(choice)),
            None => None,
        }
    }

    /// The extension fields under `nvext`.
    pub fn nvext(&self) -> (nvext: Option<&NvExt>)
        ensures
            match nvext {
                Some(nvext) => self.nvext == Some(*nvext),
                None => self.nvext is None,
            },
    {
        self.nvext.as_ref()
    }

    /// The extension fields beside OpenAI's.
    pub fn common_ext(&self) -> (common: Option<&CommonExt>)
        ensures
            common == Some(&self.common),
    {
        Some(&self.common)
    }

    /// The fields that the request has besides.
    pub fn unsupported_fields(&self) -> (unsupported: Option<
        &serde_json::Map<String, serde_json::Value>,
    >)
        ensures
            unsupported == Some(&self.unsupported_fields),
    {
        Some(&self.unsupported_fields)
    }

    /// A chat completion has no raw prompt.
    pub fn raw_prompt(&self) -> (prompt: Option<String>)
        ensures
            prompt is None,
    {
        None
    }

    /// A chat completion does not pick the best of several.
    pub fn get_best_of(&self) -> (best_of: Option<u8>)
        ensures
            best_of is None,
    {
        None
    }

    /// The formatted prompt is not asked for.
    pub fn get_formatted_prompt(&self) -> (formatted: Option<bool>)
        ensures
            formatted is None,
    {
        None
    }

    /// The sampling temperature.
    pub fn get_temperature(&self) -> (temperature: Option<FloatBits>)
        ensures
            temperature == self.inner.temperature,
    {
        self.inner.temperature
    }

    /// The probability mass that is sampled from.
    pub fn get_top_p(&self) -> (top_p: Option<FloatBits>)
        ensures
            top_p == self.inner.top_p,
    {
        self.inner.top_p
    }

    /// The penalty on tokens that are frequent.
    pub fn get_frequency_penalty(&self) -> (frequency_penalty: Option<FloatBits>)
        ensures
            frequency_penalty == self.inner.frequency_penalty,
    {
        self.inner.frequency_penalty
    }

    /// The penalty on tokens that are present.
    pub fn get_presence_penalty(&self) -> (presence_penalty: Option<FloatBits>)
        ensures
            presence_penalty == self.inner.presence_penalty,
    {
        self.inner.presence_penalty
    }

    /// The seed of the sampling.
    pub fn get_seed(&self) -> (seed: Option<i64>)
        ensures
            seed == self.inner.seed,
    {
        self.inner.seed
    }

    /// How many choices are generated.
    pub fn get_n(&self) -> (n: Option<u8>)
        ensures
            n == self.inner.n,
    {
        self.inner.n
    }

    /// How many tokens are sampled from.
    pub fn get_top_k(&self) -> (top_k: Option<i32>)
        ensures
            top_k == self.common.top_k,
    {
        self.common.top_k
    }

    /// The least probability that is sampled from.
    pub fn get_min_p(&self) -> (min_p: Option<FloatBits>)
        ensures
            min_p == self.common.min_p,
    {
        self.common.min_p
    }

    /// The penalty on tokens that repeat.
    pub fn get_repetition_penalty(&self) -> (repetition_penalty: Option<FloatBits>)
        ensures
            repetition_penalty == self.common.repetition_penalty,
    {
        self.common.repetition_penalty
    }

    /// The string that generation stopped at is part of the output.
    pub fn get_include_stop_str_in_output(&self) -> (include_stop_str_in_output: Option<bool>)
        ensures
            include_stop_str_in_output == self.common.include_stop_str_in_output,
    {
        self.common.include_stop_str_in_output
    }

    /// Special tokens are left out of the output.
    pub fn get_skip_special_tokens(&self) -> (skip_special_tokens: Option<bool>)
        ensures
            skip_special_tokens == self.common.skip_special_tokens,
    {
        self.common.skip_special_tokens
    }

    /// How many log probabilities the prompt gets.
    pub fn get_prompt_logprobs_count(&self) -> (prompt_logprobs_count: Option<u32>)
        ensures
            prompt_logprobs_count == self.common.prompt_logprobs,
    {
        self.common.prompt_logprobs
    }

    /// How many log probabilities the prompt gets.
    pub fn get_prompt_logprobs(&self) -> (prompt_logprobs: Option<u32>)
        ensures
            prompt_logprobs == self.common.prompt_logprobs,
    {
        self.common.prompt_logprobs
    }

    /// How many tokens are generated at least.
    pub fn get_min_tokens(&self) -> (min_tokens: Option<u32>)
        ensures
            min_tokens == self.common.min_tokens,
    {
        self.common.min_tokens
    }

    /// Generation goes on behind the end of the sequence, as the extension fields say.
    pub fn get_common_ignore_eos(&self) -> (common_ignore_eos: Option<bool>)
        ensures
            common_ignore_eos == self.common.ignore_eos,
    {
        self.common.ignore_eos
    }

    /// Generation goes on behind the end of the sequence.
    pub fn get_ignore_eos(&self) -> (ignore_eos: Option<bool>)
        ensures
            ignore_eos == self.common.ignore_eos,
    {
        self.common.ignore_eos
    }

    /// Tokens are named by their ids in log probabilities.
    pub fn get_return_tokens_as_token_ids(&self) -> (return_tokens_as_token_ids: Option<bool>)
        ensures
            return_tokens_as_token_ids == self.return_tokens_as_token_ids,
    {
        self.return_tokens_as_token_ids
    }

    /// The regular expression that guides generation.
    pub fn get_guided_regex(&self) -> (guided_regex: Option<String>)
        ensures
            guided_regex == self.common.guided_regex,
    {
        copy_text(&self.common.guided_regex)
    }

    /// The grammar that guides generation.
    pub fn get_guided_grammar(&self) -> (guided_grammar: Option<String>)
        ensures
            guided_grammar == self.common.guided_grammar,
    {
        copy_text(&self.common.guided_grammar)
    }

    /// The backend that guides generation.
    pub fn get_guided_decoding_backend(&self) -> (guided_decoding_backend: Option<String>)
        ensures
            guided_decoding_backend == self.common.guided_decoding_backend,
    {
        copy_text(&self.common.guided_decoding_backend)
    }

    /// The whitespace that guided generation allows.
    pub fn get_guided_whitespace_pattern(&self) -> (guided_whitespace_pattern: Option<String>)
        ensures
            guided_whitespace_pattern == self.common.guided_whitespace_pattern,
    {
        copy_text(&self.common.guided_whitespace_pattern)
    }
}

/// Each sampling option is the field of the request that bears its name; a chat
/// completion has no `best_of`.
pub proof fn law_sampling_options_are_those_of_the_request(
    request: NvCreateChatCompletionRequest,
    temperature: Option<FloatBits>,
    top_p: Option<FloatBits>,
    frequency_penalty: Option<FloatBits>,
    presence_penalty: Option<FloatBits>,
    seed: Option<i64>,
    n: Option<u8>,
    best_of: Option<u8>,
    top_k: Option<i32>,
    min_p: Option<FloatBits>,
    repetition_penalty: Option<FloatBits>,
)
    requires
        call_ensures(NvCreateChatCompletionRequest::get_temperature, (&request,), temperature),
        call_ensures(NvCreateChatCompletionRequest::get_top_p, (&request,), top_p),
        call_ensures(
            NvCreateChatCompletionRequest::get_frequency_penalty,
            (&request,),
            frequency_penalty,
        ),
        call_ensures(
            NvCreateChatCompletionRequest::get_presence_penalty,
            (&request,),
            presence_penalty,
        ),
        call_ensures(NvCreateChatCompletionRequest::get_seed, (&request,), seed),
        call_ensures(NvCreateChatCompletionRequest::get_n, (&request,), n),
        call_ensures(NvCreateChatCompletionRequest::get_best_of, (&request,), best_of),
        call_ensures(NvCreateChatCompletionRequest::get_top_k, (&request,), top_k),
        call_ensures(NvCreateChatCompletionRequest::get_min_p, (&request,), min_p),
        call_ensures(
            NvCreateChatCompletionRequest::get_repetition_penalty,
            (&request,),
            repetition_penalty,
        ),
    ensures
        temperature == request.inner.temperature,
        top_p == request.inner.top_p,
        frequency_penalty == request.inner.frequency_penalty,
        presence_penalty == request.inner.presence_penalty,
        seed == request.inner.seed,
        n == request.inner.n,
        best_of is None,
        top_k == request.common.top_k,
        min_p == request.common.min_p,
        repetition_penalty == request.common.repetition_penalty,
{
}

/// Each option on the output and on its end is the field of the request that bears
/// its name; there is no raw or formatted prompt.
pub proof fn law_output_options_are_those_of_the_request(
    request: NvCreateChatCompletionRequest,
    include_stop_str_in_output: Option<bool>,
    skip_special_tokens: Option<bool>,
    prompt_logprobs_count: Option<u32>,
    prompt_logprobs: Option<u32>,
    min_tokens: Option<u32>,
    common_ignore_eos: Option<bool>,
    ignore_eos: Option<bool>,
    return_tokens_as_token_ids: Option<bool>,
    formatted_prompt: Option<bool>,
    raw_prompt: Option<String>,
)
    requires
        call_ensures(
            NvCreateChatCompletionRequest::get_include_stop_str_in_output,
            (&request,),
            include_stop_str_in_output,
        ),
        call_ensures(
            NvCreateChatCompletionRequest::get_skip_special_tokens,
            (&request,),
            skip_special_tokens,
        ),
        call_ensures(
            NvCreateChatCompletionRequest::get_prompt_logprobs_count,
            (&request,),
            prompt_logprobs_count,
        ),
        call_ensures(
            NvCreateChatCompletionRequest::get_prompt_logprobs,
            (&request,),
            prompt_logprobs,
        ),
        call_ensures(NvCreateChatCompletionRequest::get_min_tokens, (&request,), min_tokens),
        call_ensures(
            NvCreateChatCompletionRequest::get_common_ignore_eos,
            (&request,),
            common_ignore_eos,
        ),
        call_ensures(NvCreateChatCompletionRequest::get_ignore_eos, (&request,), ignore_eos),
        call_ensures(
            NvCreateChatCompletionRequest::get_return_tokens_as_token_ids,
            (&request,),
            return_tokens_as_token_ids,
        ),
        call_ensures(
            NvCreateChatCompletionRequest::get_formatted_prompt,
            (&request,),
            formatted_prompt,
        ),
        call_ensures(NvCreateChatCompletionRequest::raw_prompt, (&request,), raw_prompt),
    ensures
        include_stop_str_in_output == request.common.include_stop_str_in_output,
        skip_special_tokens == request.common.skip_special_tokens,
        prompt_logprobs_count == request.common.prompt_logprobs,
        prompt_logprobs == request.common.prompt_logprobs,
        min_tokens == request.common.min_tokens,
        common_ignore_eos == request.common.ignore_eos,
        ignore_eos == request.common.ignore_eos,
        return_tokens_as_token_ids == request.return_tokens_as_token_ids,
        formatted_prompt is None,
        raw_prompt is None,
{
}

/// Each guide of generation but the schema and the choices is the field of the
/// request that bears its name.
pub proof fn law_guides_are_those_of_the_request(
    request: NvCreateChatCompletionRequest,
    guided_regex: Option<String>,
    guided_grammar: Option<String>,
    guided_decoding_backend: Option<String>,
    guided_whitespace_pattern: Option<String>,
)
    requires
        call_ensures(NvCreateChatCompletionRequest::get_guided_regex, (&request,), guided_regex),
        call_ensures(
            NvCreateChatCompletionRequest::get_guided_grammar,
            (&request,),
            guided_grammar,
        ),
        call_ensures(
            NvCreateChatCompletionRequest::get_guided_decoding_backend,
            (&request,),
            guided_decoding_backend,
        ),
        call_ensures(
            NvCreateChatCompletionRequest::get_guided_whitespace_pattern,
            (&request,),
            guided_whitespace_pattern,
        ),
    ensures
        guided_regex == request.common.guided_regex,
        guided_grammar == request.common.guided_grammar,
        guided_decoding_backend == request.common.guided_decoding_backend,
        guided_whitespace_pattern == request.common.guided_whitespace_pattern,
{
}

/// The schema that guides generation. One that is given for that is it, whatever
/// response format is asked for, if any. Else it is the schema of the response
/// format, unless that is `null`, and for any JSON object the schema whose only
/// field says so. A response format without a schema, or none, guides nothing.
pub proof fn law_given_schema_guides(
    request: NvCreateChatCompletionRequest,
    schema: Option<serde_json::Value>,
)
    requires
        call_ensures(NvCreateChatCompletionRequest::get_guided_json, (&request,), schema),
    ensures
        request.common.guided_json matches Some(given) ==> schema is Some && json(schema->0)
            == json(given),
        request.common.guided_json is None ==> (match request.inner.response_format {
            Some(ResponseFormat::JsonSchema { json_schema }) => {
                &&& schema is None <==> json(json_schema.schema) == Json::Null
                &&& schema is Some ==> json(schema->0) == json(json_schema.schema)
            },
            Some(ResponseFormat::JsonObject) => {
                &&& schema is Some
                &&& json(schema->0) is Object
                &&& forall|key: Seq<char>| #[trigger]
                    json(schema->0)->Object_0.get(key) == (if key == "type"@ {
                        Some(Json::Text("object"@))
                    } else {
                        None
                    })
            },
            Some(ResponseFormat::Text) => schema is None,
            None => schema is None,
        }),
{
}

/// The choices that guide generation are those of the request, in order, and
/// there are some if and only if the request has them.
pub proof fn law_choices_are_those_of_the_request(
    request: NvCreateChatCompletionRequest,
    choices: Option<Vec<String>>,
)
    requires
        call_ensures(NvCreateChatCompletionRequest::get_guided_choice, (&request,), choices),
    ensures
        choices is Some <==> request.common.guided_choice is Some,
        choices is Some ==> (choices->0)@ == (request.common.guided_choice->0)@,
{
}

/// Log probabilities are given if and only if they are asked for: as many as
/// `top_logprobs` says, and one where it says nothing.
pub proof fn law_log_probabilities_are_asked_for(
    request: NvCreateChatCompletionRequest,
    logprobs: Option<u32>,
)
    requires
        call_ensures(NvCreateChatCompletionRequest::get_logprobs, (&request,), logprobs),
    ensures
        logprobs is Some <==> request.inner.logprobs == Some(true),
        logprobs is Some && request.inner.top_logprobs is Some ==> logprobs->0
            == request.inner.top_logprobs->0,
        logprobs is Some && request.inner.top_logprobs is None ==> logprobs->0 == 1,
{
}

/// The limit on tokens is `max_completion_tokens` where that is set, and else
/// `max_tokens`, set or not.
pub proof fn law_newer_limit_outweighs(
    request: NvCreateChatCompletionRequest,
    max_tokens: Option<u32>,
)
    requires
        call_ensures(NvCreateChatCompletionRequest::get_max_tokens, (&request,), max_tokens),
    ensures
        request.inner.max_completion_tokens is Some ==> max_tokens
            == request.inner.max_completion_tokens,
        request.inner.max_completion_tokens is None ==> max_tokens == request.inner.max_tokens,
{
}

/// A request has an annotation if and only if it is among the annotations that
/// its `nvext` lists, and these are handed out as they are listed.
pub proof fn law_annotations_are_those_listed(
    request: NvCreateChatCompletionRequest,
    annotation: &str,
    has: bool,
    annotations: Option<Vec<String>>,
)
    requires
        call_ensures(NvCreateChatCompletionRequest::has_annotation, (&request, annotation), has),
        call_ensures(NvCreateChatCompletionRequest::annotations, (&request,), annotations),
    ensures
        has <==> request.nvext is Some && (request.nvext->0).annotations is Some && exists|i: int|
            0 <= i < ((request.nvext->0).annotations->0)@.len() && (#[trigger] (
            (request.nvext->0).annotations->0)@[i])@ == annotation@,
        annotations is Some <==> request.nvext is Some && (request.nvext->0).annotations is Some,
        annotations is Some ==> {
            let listed = (request.nvext->0).annotations->0;
            &&& (annotations->0)@.len() == listed@.len()
            &&& forall|i: int|
                0 <= i < listed@.len() ==> (#[trigger] (annotations->0)@[i])@ == listed@[i]@
        },
{
    if let Some(nvext) = request.nvext {
        if let Some(listed) = nvext.annotations {
            let shown = texts(listed@);
            assert(shown.len() == listed@.len());
            assert(forall|i: int| 0 <= i < listed@.len() ==> shown[i] == (#[trigger] listed@[i])@);
            if shown.contains(annotation@) {
                let i = choose|i: int| 0 <= i < shown.len() && shown[i] == annotation@;
                assert(listed@[i]@ == annotation@);
            }
            if let Some(given) = annotations {
                assert(texts(given@) == shown);
                assert(texts(given@).len() == given@.len());
                assert forall|i: int| 0 <= i < listed@.len() implies (#[trigger] given@[i])@
                    == listed@[i]@ by {
                    assert(texts(given@)[i] == given@[i]@);
                    assert(shown[i] == listed@[i]@);
                }
            }
            if exists|i: int|
                0 <= i < listed@.len() && (#[trigger] listed@[i])@ == annotation@ {
                let i = choose|i: int|
                    0 <= i < listed@.len() && (#[trigger] listed@[i])@ == annotation@;
                assert(shown[i] == annotation@);
            }
        }
    }
}

/// The groups of fields are handed out as the request holds them.
pub proof fn law_extensions_are_those_of_the_request(
    request: NvCreateChatCompletionRequest,
    nvext: Option<&NvExt>,
    common: Option<&CommonExt>,
    unsupported: Option<&serde_json::Map<String, serde_json::Value>>,
)
    requires
        call_ensures(NvCreateChatCompletionRequest::nvext, (&request,), nvext),
        call_ensures(NvCreateChatCompletionRequest::common_ext, (&request,), common),
        call_ensures(
            NvCreateChatCompletionRequest::unsupported_fields,
            (&request,),
            unsupported,
        ),
    ensures
        nvext is Some <==> request.nvext is Some,
        nvext matches Some(nvext) ==> *nvext == request.nvext->0,
        common matches Some(common) && *common == request.common,
        unsupported matches Some(unsupported) && *unsupported == request.unsupported_fields,
{
}

} // verus!
