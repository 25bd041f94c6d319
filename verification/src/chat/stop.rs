//! Where the generation of a request stops.

use super::error::ChatRequestError;
use super::request::{CreateChatCompletionRequest, NvCreateChatCompletionRequest, Stop};
use crate::json::{decode_texts, decode_token_ids, get_field, remove_field};
#[allow(unused_imports)]
use crate::json::{Json, fields, json, texts};
#[allow(unused_imports)]
use super::error::Refusal;
use vstd::prelude::*;

verus! {

/// A copy of a list of strings.
pub(crate) fn copy_texts(strings: &Vec<String>) -> (copy: Vec<String>)
    ensures
        copy@ == strings@,
{
    let mut copy: Vec<String> = Vec::new();
    for i in 0..strings.len()
        invariant
            copy@ == strings@.take(i as int),
    {
        copy.push(strings[i].clone());
        assert(copy@ =~= strings@.take(i as int + 1));
    }
    assert(strings@.take(strings@.len() as int) =~= strings@);
    copy
}

/// A copy of a list of token ids.
fn copy_token_ids(ids: &Vec<u32>) -> (copy: Vec<u32>)
    ensures
        copy@ == ids@,
{
    let mut copy: Vec<u32> = Vec::new();
    for i in 0..ids.len()
        invariant
            copy@ == ids@.take(i as int),
    {
        copy.push(ids[i]);
        assert(copy@ =~= ids@.take(i as int + 1));
    }
    assert(ids@.take(ids@.len() as int) =~= ids@);
    copy
}

impl Stop {
    /// The strings at which generation stops, if it stops at strings.
    pub open spec fn stop_texts(self) -> Option<Seq<Seq<char>>> {
        match self {
            Stop::String(string) => Some(seq![string@]),
            Stop::StringArray(strings) => Some(texts(strings@)),
            Stop::TokenIdArray(_) => None,
        }
    }

    /// The tokens at which generation stops, if it stops at tokens.
    pub open spec fn stop_tokens(self) -> Option<Seq<u32>> {
        match self {
            Stop::TokenIdArray(ids) => Some(ids@),
            _ => None,
        }
    }

    /// The strings at which generation stops, if it stops at strings.
    pub fn strings(&self) -> (strings: Option<Vec<String>>)
        ensures
            match strings {
                Some(strings) => self.stop_texts() == Some(texts(strings@)),
                None => self.stop_texts() is None,
            },
    {
        match self {
            Stop::String(string) => {
                let mut strings: Vec<String> = Vec::new();
                strings.push(string.clone());
                assert(texts(strings@) =~= seq![string@]);
                Some(strings)
            },
            Stop::StringArray(strings) => Some(copy_texts(strings)),
            Stop::TokenIdArray(_) => None,
        }
    }

    /// The tokens at which generation stops, if it stops at tokens.
    pub fn token_ids(&self) -> (ids: Option<Vec<u32>>)
        ensures
            match ids {
                Some(ids) => self.stop_tokens() == Some(ids@),
                None => self.stop_tokens() is None,
            },
    {
        match self {
            Stop::TokenIdArray(ids) => Some(copy_token_ids(ids)),
            _ => None,
        }
    }
}

/// How `stop_sequences`, if a request has it, becomes the `stop` of the request,
/// which has one already or not: the strings to stop at, `None` where there is
/// nothing to adopt, or why the request is refused.
pub open spec fn adopted_stop(
    stop_sequences: Option<Json>,
    has_stop: bool,
) -> Result<Option<Seq<Seq<char>>>, Refusal> {
    match stop_sequences {
        None => Ok(None),
        Some(Json::Null) => Ok(None),
        Some(value) => if has_stop {
            Err(Refusal::StopConflict)
        } else {
            match value.as_texts() {
                Some(strings) => Ok(Some(strings)),
                None => Err(Refusal::StopSequencesMalformed),
            }
        },
    }
}

impl NvCreateChatCompletionRequest {
    /// The strings at which generation stops.
    pub open spec fn stop_texts(self) -> Option<Seq<Seq<char>>> {
        match self.inner.stop {
            Some(stop) => stop.stop_texts(),
            None => None,
        }
    }

    /// The tokens at which generation stops: those of `stop`, and else those of
    /// a `stop_token_ids` that is a list of token ids.
    pub open spec fn stop_tokens(self) -> Option<Seq<u32>> {
        match self.inner.stop {
            Some(Stop::TokenIdArray(ids)) => Some(ids@),
            _ => match fields(self.unsupported_fields).get("stop_token_ids"@) {
                Some(value) => value.as_token_ids(),
                None => None,
            },
        }
    }

    /// Moves `stop_sequences`, Anthropic's name for `stop`, to where it belongs.
    ///
    /// The field is an array of strings; `null` counts as no field. It is
    /// refused beside a `stop`, so that neither is dropped in silence. The field
    /// leaves the request in any case.
    pub fn normalize_anthropic_stop_sequences(&mut self) -> (done: Result<(), ChatRequestError>)
        ensures
            ({
                let adopted = adopted_stop(
                    fields(old(self).unsupported_fields).get("stop_sequences"@),
                    old(self).inner.stop is Some,
                );
                match done {
                    Ok(_) => match adopted {
                        Ok(Some(strings)) => final(self).inner.stop matches Some(
                            Stop::StringArray(stop),
                        ) && texts(stop@) == strings && final(self).stop_texts() == Some(strings),
                        Ok(None) => final(self).inner.stop == old(self).inner.stop,
                        Err(_) => false,
                    },
                    Err(error) => adopted == Err::<Option<Seq<Seq<char>>>, Refusal>(error@)
                        && final(self).inner.stop == old(self).inner.stop,
                }
            }),
            fields(final(self).unsupported_fields) == fields(old(self).unsupported_fields).remove(
                "stop_sequences"@,
            ),
            *final(self) == (NvCreateChatCompletionRequest {
                inner: CreateChatCompletionRequest {
                    stop: final(self).inner.stop,
                    ..old(self).inner
                },
                unsupported_fields: final(self).unsupported_fields,
                ..*old(self)
            }),
    {
        let value = match remove_field(&mut self.unsupported_fields, "stop_sequences") {
            Some(value) => value,
            None => {
                return Ok(());
            },
        };
        if value.is_null() {
            return Ok(());
        }
        if self.inner.stop.is_some() {
            return Err(ChatRequestError::StopConflict);
        }
        match decode_texts(value) {
            Ok(stop_sequences) => {
                self.inner.stop = Some(Stop::StringArray(stop_sequences));
                Ok(())
            },
            Err(_) => Err(ChatRequestError::StopSequencesMalformed),
        }
    }

    /// The strings at which generation stops.
    pub fn get_stop(&self) -> (stop: Option<Vec<String>>)
        ensures
            match stop {
                Some(strings) => self.stop_texts() == Some(texts(strings@)),
                None => self.stop_texts() is None,
            },
    {
        match &self.inner.stop {
            Some(stop) => stop.strings(),
            None => None,
        }
    }

    /// The tokens at which generation stops: those of `stop`, and else those of
    /// the field `stop_token_ids`, which some clients pass instead.
    pub fn get_stop_token_ids(&self) -> (stop: Option<Vec<u32>>)
        ensures
            match stop {
                Some(ids) => self.stop_tokens() == Some(ids@),
                None => self.stop_tokens() is None,
            },
    {
        if let Some(stop) = &self.inner.stop {
            if let Some(ids) = stop.token_ids() {
                return Some(ids);
            }
        }
        match get_field(&self.unsupported_fields, "stop_token_ids") {
            Some(value) => match decode_token_ids(value.clone()) {
                Ok(ids) => Some(ids),
                Err(_) => None,
            },
            None => None,
        }
    }
}

/// A request stops at strings or at tokens of its `stop`, never at both.
pub proof fn law_stop_is_text_or_tokens(stop: Stop)
    ensures
        stop.stop_texts() is Some <==> stop.stop_tokens() is None,
{
}

/// The normalization of `stop_sequences` is done once: afterwards the field is
/// gone, and there is nothing to adopt or to refuse.
pub proof fn law_adoption_is_done_once(
    before: Map<Seq<char>, Json>,
    has_stop: bool,
)
    ensures
        adopted_stop(before.remove("stop_sequences"@).get("stop_sequences"@), has_stop) == Ok::<
            Option<Seq<Seq<char>>>,
            Refusal,
        >(None),
{
}

/// What the stops of a request are read as. Strings come out as they went in, one
/// or several, in order; token ids are no strings. Tokens are those of `stop`, and
/// where it has none, those of a `stop_token_ids` that is an array of integers
/// which are token ids, in order.
pub proof fn law_stops_are_read_as_given(
    request: NvCreateChatCompletionRequest,
    strings: Option<Vec<String>>,
    ids: Option<Vec<u32>>,
)
    requires
        call_ensures(NvCreateChatCompletionRequest::get_stop, (&request,), strings),
        call_ensures(NvCreateChatCompletionRequest::get_stop_token_ids, (&request,), ids),
    ensures
        match request.inner.stop {
            Some(Stop::String(given)) => strings is Some && (strings->0)@.len() == 1 && (
            strings->0)@[0]@ == given@,
            Some(Stop::StringArray(given)) => strings is Some && (strings->0)@.len()
                == given@.len() && forall|i: int|
                0 <= i < given@.len() ==> (#[trigger] (strings->0)@[i])@ == given@[i]@,
            Some(Stop::TokenIdArray(_)) => strings is None,
            None => strings is None,
        },
        match (request.inner.stop, fields(request.unsupported_fields).get("stop_token_ids"@)) {
            (Some(Stop::TokenIdArray(given)), _) => ids is Some && (ids->0)@ == given@,
            (_, Some(Json::List(items))) => {
                &&& ids is Some <==> forall|i: int|
                    0 <= i < items.len() ==> (#[trigger] items[i]) is Integer && 0
                        <= items[i]->Integer_0 <= 0xffff_ffff
                &&& ids is Some ==> (ids->0)@.len() == items.len() && forall|i: int|
                    0 <= i < items.len() ==> #[trigger] items[i] == Json::Integer(
                        (ids->0)@[i] as int,
                    )
            },
            _ => ids is None,
        },
{
    if let Some(given) = strings {
        let shown = texts(given@);
        assert(shown.len() == given@.len());
        if let Some(Stop::StringArray(had)) = request.inner.stop {
            assert(shown == texts(had@));
            assert(texts(had@).len() == had@.len());
            assert forall|i: int| 0 <= i < had@.len() implies (#[trigger] given@[i])@ == had@[i]@ by {
                assert(shown[i] == given@[i]@);
                assert(texts(had@)[i] == had@[i]@);
            }
        }
        if let Some(Stop::String(had)) = request.inner.stop {
            assert(shown == seq![had@]);
            assert(shown[0] == given@[0]@);
        }
    }
    if let Some(Json::List(items)) = fields(request.unsupported_fields).get("stop_token_ids"@) {
        assert(forall|i: int|
            0 <= i < items.len() ==> ((#[trigger] items[i]).is_token_id() <==> items[i] is Integer
                && 0 <= items[i]->Integer_0 <= 0xffff_ffff));
        if let Some(given) = ids {
            if !(request.inner.stop is Some && request.inner.stop->0 is TokenIdArray) {
                let read = items.map_values(|item: Json| item->Integer_0 as u32);
                assert(read == given@);
                assert forall|i: int| 0 <= i < items.len() implies #[trigger] items[i]
                    == Json::Integer(given@[i] as int) by {
                    assert(items[i].is_token_id());
                    assert(read[i] == given@[i]);
                }
            }
        }
    }
}

/// A `stop` by itself is read as a request with that `stop` is.
pub proof fn law_stop_is_read_as_its_request(
    request: NvCreateChatCompletionRequest,
    stop: Stop,
    strings: Option<Vec<String>>,
    ids: Option<Vec<u32>>,
    read: Option<Vec<String>>,
)
    requires
        request.inner.stop == Some(stop),
        call_ensures(Stop::strings, (&stop,), strings),
        call_ensures(Stop::token_ids, (&stop,), ids),
        call_ensures(NvCreateChatCompletionRequest::get_stop, (&request,), read),
    ensures
        strings is Some <==> read is Some,
        strings is Some ==> texts((strings->0)@) == texts((read->0)@),
        ids is Some <==> stop is TokenIdArray,
        ids is Some ==> (ids->0)@ == stop->TokenIdArray_0@,
        strings is Some <==> ids is None,
{
}

/// What becomes of `stop_sequences`. Absent or `null`, it changes nothing. Beside
/// a `stop` it is refused. An array of strings becomes the `stop`, string by
/// string; anything else is refused. The field leaves the request in every case,
/// and nothing but it and `stop` changes.
pub proof fn law_stop_sequences_become_the_stop(
    request: &mut NvCreateChatCompletionRequest,
    done: Result<(), ChatRequestError>,
    key: Seq<char>,
)
    requires
        call_ensures(
            NvCreateChatCompletionRequest::normalize_anthropic_stop_sequences,
            (request,),
            done,
        ),
    ensures
        ({
            let given = fields(old(request).unsupported_fields).get("stop_sequences"@);
            let nothing = given is None || given == Some(Json::Null);
            let strings = given is Some && given->0 is List && forall|i: int|
                0 <= i < (given->0)->List_0.len() ==> (#[trigger] (given->0)->List_0[i]) is Text;
            let had = old(request).inner.stop is Some;
            &&& done is Ok <==> nothing || !had && strings
            &&& done matches Err(error) ==> {
                &&& error is StopConflict <==> had
                &&& error is StopSequencesMalformed <==> !had
            }
            &&& nothing || done is Err ==> final(request).inner.stop == old(request).inner.stop
            &&& !nothing && done is Ok ==> {
                let items = (given->0)->List_0;
                &&& final(request).inner.stop is Some
                &&& final(request).inner.stop->0 is StringArray
                &&& (final(request).inner.stop->0)->StringArray_0@.len() == items.len()
                &&& forall|i: int|
                    0 <= i < items.len() ==> #[trigger] items[i] == Json::Text(
                        (final(request).inner.stop->0)->StringArray_0@[i]@,
                    )
            }
            &&& fields(final(request).unsupported_fields).get(key) == (if key
                == "stop_sequences"@ {
                None
            } else {
                fields(old(request).unsupported_fields).get(key)
            })
            &&& final(request).inner == (CreateChatCompletionRequest {
                stop: final(request).inner.stop,
                ..old(request).inner
            })
            &&& final(request).common == old(request).common
            &&& final(request).nvext == old(request).nvext
            &&& final(request).chat_template_args == old(request).chat_template_args
            &&& final(request).thinking == old(request).thinking
            &&& final(request).media_io_kwargs == old(request).media_io_kwargs
            &&& final(request).return_tokens_as_token_ids
                == old(request).return_tokens_as_token_ids
        }),
{
    let given = fields(old(request).unsupported_fields).get("stop_sequences"@);
    if let Some(Json::List(items)) = given {
        if done is Ok {
            let stop = (final(request).inner.stop->0)->StringArray_0;
            let read = items.map_values(|item: Json| item->Text_0);
            assert(texts(stop@) == read);
            assert forall|i: int| 0 <= i < items.len() implies #[trigger] items[i] == Json::Text(
                stop@[i]@,
            ) by {
                assert(read[i] == texts(stop@)[i]);
            }
        }
    }
}

} // verus!
