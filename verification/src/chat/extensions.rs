//! Extension fields of a chat completion response on the wire.
//!
//! A backend's own extension payload travels inside `nvext`, under an internal
//! key. On the wire it stands at the top level, as `sglext`, and the internal
//! key is gone.

use crate::json::{Json, get_field, into_object, object_value, remove_field};
#[allow(unused_imports)]
use crate::json::{fields, json, json_option};
use std::borrow::Cow;
use vstd::prelude::*;

verus! {

/// The key under which the payload travels inside `nvext`. Clients never see it.
pub const INTERNAL_SGLEXT_KEY: &'static str = "__dynamo_internal_sglext";

/// What of an `nvext` the client sees, and the payload that it carried.
pub open spec fn split(nvext: Option<Json>) -> (Option<Json>, Option<Json>) {
    match nvext {
        Some(Json::Object(object)) => match object.get(INTERNAL_SGLEXT_KEY@) {
            Some(payload) => {
                let visible = object.remove(INTERNAL_SGLEXT_KEY@);
                if visible == Map::<Seq<char>, Json>::empty() {
                    (None, Some(payload))
                } else {
                    (Some(Json::Object(visible)), Some(payload))
                }
            },
            None => (nvext, None),
        },
        _ => (nvext, None),
    }
}

/// The document of an optional value, borrowed or owned.
pub open spec fn cow_json(value: Option<Cow<'_, serde_json::Value>>) -> Option<Json> {
    match value {
        Some(Cow::Borrowed(value)) => Some(json(*value)),
        Some(Cow::Owned(value)) => Some(json(value)),
        None => None,
    }
}

/// Splits the internal carrier out of the `nvext` of a response.
///
/// Returns what of `nvext` is visible, and the payload that it carried. An
/// `nvext` that is no object, or that carries nothing, is visible as it is; one
/// that only carried a payload is not visible at all.
pub fn split_sglext<'a>(nvext: &'a Option<serde_json::Value>) -> (parts: (
    Option<Cow<'a, serde_json::Value>>,
    Option<serde_json::Value>,
))
    ensures
        (cow_json(parts.0), json_option(parts.1)) == split(json_option(*nvext)),
{
    let value = match nvext {
        Some(value) => value,
        None => {
            return (None, None);
        },
    };
    let object = match value.as_object() {
        Some(object) => object,
        None => {
            return (Some(Cow::Borrowed(value)), None);
        },
    };
    let sglext = match get_field(object, INTERNAL_SGLEXT_KEY) {
        Some(sglext) => sglext,
        None => {
            return (Some(Cow::Borrowed(value)), None);
        },
    };
    let mut visible = object.clone();
    let _ = remove_field(&mut visible, INTERNAL_SGLEXT_KEY);
    let visible_nvext = if visible.is_empty() {
        None
    } else {
        Some(Cow::Owned(object_value(visible)))
    };
    (visible_nvext, Some(sglext.clone()))
}

/// An object with the field `key` set to `value`, if there is a value.
pub open spec fn with_field(
    object: Map<Seq<char>, Json>,
    key: Seq<char>,
    value: Option<Json>,
) -> Map<Seq<char>, Json> {
    match value {
        Some(value) => object.insert(key, value),
        None => object,
    }
}

/// A response on the wire: the fields of OpenAI's response, and then what is
/// visible of `nvext`, and the payload as `sglext`.
pub open spec fn on_the_wire(inner: Json, nvext: Option<Json>) -> Json {
    match inner {
        Json::Object(object) => Json::Object(
            with_field(
                with_field(object, "nvext"@, split(nvext).0),
                "sglext"@,
                split(nvext).1,
            ),
        ),
        other => other,
    }
}

/// Puts a response on the wire. `inner` is OpenAI's response, as JSON.
pub fn serialize_chat_completion_response(
    inner: serde_json::Value,
    nvext: &Option<serde_json::Value>,
) -> (wire: serde_json::Value)
    ensures
        json(wire) == on_the_wire(json(inner), json_option(*nvext)),
{
    let mut object = match into_object(inner) {
        Ok(object) => object,
        Err(other) => {
            return other;
        },
    };
    let (visible_nvext, sglext) = split_sglext(nvext);
    match visible_nvext {
        Some(Cow::Borrowed(visible)) => {
            object.insert("nvext".to_owned(), visible.clone());
        },
        Some(Cow::Owned(visible)) => {
            object.insert("nvext".to_owned(), visible);
        },
        None => {},
    }
    if let Some(sglext) = sglext {
        object.insert("sglext".to_owned(), sglext);
    }
    object_value(object)
}

/// The internal key never reaches the client: it is not a field of what is
/// visible of an `nvext`, nor of the `nvext` of a response on the wire.
pub proof fn law_internal_key_is_hidden(inner: Map<Seq<char>, Json>, nvext: Option<Json>)
    requires
        !inner.contains_key(INTERNAL_SGLEXT_KEY@),
        !inner.contains_key("nvext"@),
    ensures
        split(nvext).0 matches Some(Json::Object(visible)) ==> !visible.contains_key(
            INTERNAL_SGLEXT_KEY@,
        ),
        ({
            let wire = on_the_wire(Json::Object(inner), nvext)->Object_0;
            &&& !wire.contains_key(INTERNAL_SGLEXT_KEY@)
            &&& wire.get("nvext"@) matches Some(Json::Object(visible)) ==> !visible.contains_key(
                INTERNAL_SGLEXT_KEY@,
            )
        }),
{
    lemma_keys_differ();
}

proof fn lemma_keys_differ()
    ensures
        "nvext"@ != "sglext"@,
        INTERNAL_SGLEXT_KEY@ != "nvext"@,
        INTERNAL_SGLEXT_KEY@ != "sglext"@,
{
    reveal_strlit("nvext");
    reveal_strlit("sglext");
    reveal_strlit("__dynamo_internal_sglext");
    assert("nvext"@.len() == 5);
    assert("sglext"@.len() == 6);
    assert(INTERNAL_SGLEXT_KEY@.len() == 24);
}

/// Splitting loses nothing: what is visible, with the payload put back under the
/// internal key, is the `nvext` that was split.
pub proof fn law_split_loses_nothing(nvext: Option<Json>)
    ensures
        match split(nvext) {
            (visible, None) => visible == nvext,
            (Some(Json::Object(visible)), Some(payload)) => nvext == Some(
                Json::Object(visible.insert(INTERNAL_SGLEXT_KEY@, payload)),
            ),
            (None, Some(payload)) => nvext == Some(
                Json::Object(
                    Map::<Seq<char>, Json>::empty().insert(INTERNAL_SGLEXT_KEY@, payload),
                ),
            ),
            (Some(_), Some(_)) => false,
        },
{
    if let Some(Json::Object(object)) = nvext {
        if object.contains_key(INTERNAL_SGLEXT_KEY@) {
            let visible = object.remove(INTERNAL_SGLEXT_KEY@);
            assert(visible.insert(INTERNAL_SGLEXT_KEY@, object[INTERNAL_SGLEXT_KEY@]) =~= object);
        }
    }
}

/// A response on the wire has every field of OpenAI's response, `nvext` if and
/// only if something of it is visible, `sglext` if and only if a payload was
/// carried, and nothing else.
pub proof fn law_wire_fields(inner: Map<Seq<char>, Json>, nvext: Option<Json>)
    requires
        !inner.contains_key("nvext"@),
        !inner.contains_key("sglext"@),
    ensures
        ({
            let wire = on_the_wire(Json::Object(inner), nvext)->Object_0;
            &&& wire.get("nvext"@) == split(nvext).0
            &&& wire.get("sglext"@) == split(nvext).1
            &&& forall|key: Seq<char>|
                key != "nvext"@ && key != "sglext"@ ==> #[trigger] wire.get(key) == inner.get(key)
        }),
{
    lemma_keys_differ();
}

/// What [`split_sglext`] hands back. An `nvext` that is absent, or that is no
/// object with the internal key, is all visible, and there is no payload. Of an
/// object with the key the payload is what stood there, and visible are the other
/// fields as they were, if there are any.
pub proof fn law_split_parts(
    nvext: Option<serde_json::Value>,
    parts: (Option<Cow<'_, serde_json::Value>>, Option<serde_json::Value>),
)
    requires
        call_ensures(split_sglext, (&nvext,), parts),
    ensures
        ({
            let carried = match nvext {
                Some(value) => match json(value) {
                    Json::Object(object) => object.get("__dynamo_internal_sglext"@),
                    _ => None,
                },
                None => None,
            };
            let visible = match parts.0 {
                Some(Cow::Borrowed(value)) => Some(json(*value)),
                Some(Cow::Owned(value)) => Some(json(value)),
                None => None,
            };
            &&& parts.1 is Some <==> carried is Some
            &&& parts.1 matches Some(payload) ==> carried == Some(json(payload))
            &&& carried is None ==> visible == (match nvext {
                Some(value) => Some(json(value)),
                None => None,
            })
            &&& carried is Some ==> {
                let object = json(nvext->0)->Object_0;
                let others = |key: Seq<char>|
                    key != "__dynamo_internal_sglext"@ && object.contains_key(key);
                &&& visible is Some <==> exists|key: Seq<char>| #[trigger] others(key)
                &&& visible matches Some(shown) ==> shown is Object && forall|key: Seq<char>|
                    #[trigger] shown->Object_0.get(key) == (if key
                        == "__dynamo_internal_sglext"@ {
                        None
                    } else {
                        object.get(key)
                    })
            }
        }),
{
    if let Some(value) = nvext {
        if let Json::Object(object) = json(value) {
            if object.contains_key(INTERNAL_SGLEXT_KEY@) {
                let visible = object.remove(INTERNAL_SGLEXT_KEY@);
                let others = |key: Seq<char>|
                    key != "__dynamo_internal_sglext"@ && object.contains_key(key);
                if visible == Map::<Seq<char>, Json>::empty() {
                    assert forall|key: Seq<char>| !(#[trigger] others(key)) by {
                        assert(!visible.contains_key(key));
                    }
                } else {
                    if forall|key: Seq<char>| !(#[trigger] others(key)) {
                        assert forall|key: Seq<char>| !visible.contains_key(key) by {
                            assert(!others(key));
                        }
                        assert(visible =~= Map::<Seq<char>, Json>::empty());
                    }
                }
            }
        }
    }
}

/// A response on the wire, from what [`split_sglext`] hands back for its `nvext`:
/// a response that is no object stays as it is; in any other `nvext` is what is
/// visible, `sglext` is the payload, and each other field, and each of these two
/// that there is nothing for, is what OpenAI's response has.
pub proof fn law_wire_joins_the_parts(
    inner: serde_json::Value,
    nvext: Option<serde_json::Value>,
    parts: (Option<Cow<'_, serde_json::Value>>, Option<serde_json::Value>),
    wire: serde_json::Value,
)
    requires
        call_ensures(split_sglext, (&nvext,), parts),
        call_ensures(serialize_chat_completion_response, (inner, &nvext), wire),
    ensures
        !(json(inner) is Object) ==> json(wire) == json(inner),
        json(inner) is Object ==> json(wire) is Object && forall|key: Seq<char>| #[trigger]
            json(wire)->Object_0.get(key) == (match (key == "nvext"@, key == "sglext"@, parts) {
                (true, _, (Some(Cow::Borrowed(visible)), _)) => Some(json(*visible)),
                (true, _, (Some(Cow::Owned(visible)), _)) => Some(json(visible)),
                (_, true, (_, Some(payload))) => Some(json(payload)),
                _ => json(inner)->Object_0.get(key),
            }),
{
    lemma_keys_differ();
}

} // verus!
