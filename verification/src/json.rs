//! JSON documents, held as `serde_json` values.
//!
//! `serde_json` does the work on JSON values. This module says what a value
//! holds ([`json`], [`fields`]) and what each `serde_json` function that the
//! crate calls does to it. None of the statements on those functions is proved
//! here: each is a fact about `serde_json` 1.

use vstd::prelude::*;

verus! {

/// A JSON document.
///
/// An object maps each of its keys to a document; it has no order.
#[verifier::ext_equal]
pub enum Json {
    Null,
    Bool(bool),
    /// A number that `serde_json` holds as an integer.
    Integer(int),
    /// A number that `serde_json` holds in floating point, by its 64 bits.
    Real(u64),
    Text(Seq<char>),
    List(Seq<Json>),
    Object(Map<Seq<char>, Json>),
}

/// `serde_json::Value`: a JSON value of any kind.
#[verifier::external_type_specification]
#[verifier::external_body]
pub struct ExValue(serde_json::Value);

/// `serde_json::Map`: the fields of a JSON object.
#[verifier::external_type_specification]
#[verifier::external_body]
#[verifier::reject_recursive_types(K)]
#[verifier::reject_recursive_types(V)]
pub struct ExFields<K, V>(serde_json::Map<K, V>);

/// `serde_json::Error`: why a value could not be decoded.
#[verifier::external_type_specification]
#[verifier::external_body]
pub struct ExJsonError(serde_json::Error);

/// The document that a `serde_json` value holds.
pub uninterp spec fn json(value: serde_json::Value) -> Json;

/// The fields that a `serde_json` object map holds.
pub uninterp spec fn fields(map: serde_json::Map<String, serde_json::Value>) -> Map<
    Seq<char>,
    Json,
>;

/// The document of an optional value.
pub open spec fn json_option(value: Option<serde_json::Value>) -> Option<Json> {
    match value {
        Some(v) => Some(json(v)),
        None => None,
    }
}

/// The fields of an optional object map.
pub open spec fn fields_option(
    map: Option<serde_json::Map<String, serde_json::Value>>,
) -> Option<Map<Seq<char>, Json>> {
    match map {
        Some(m) => Some(fields(m)),
        None => None,
    }
}

impl Json {
    /// The boolean that the document is, if it is one.
    pub open spec fn as_bool(self) -> Option<bool> {
        match self {
            Json::Bool(b) => Some(b),
            _ => None,
        }
    }

    /// The strings of the array of strings that the document is, if it is one.
    pub open spec fn as_texts(self) -> Option<Seq<Seq<char>>> {
        match self {
            Json::List(items) => if forall|i: int| 0 <= i < items.len() ==> items[i] is Text {
                Some(items.map_values(|item: Json| item->Text_0))
            } else {
                None
            },
            _ => None,
        }
    }

    /// The document is an integer that a token id can be.
    pub open spec fn is_token_id(self) -> bool {
        self matches Json::Integer(n) && 0 <= n <= u32::MAX
    }

    /// The token ids of the array of token ids that the document is, if it is one.
    pub open spec fn as_token_ids(self) -> Option<Seq<u32>> {
        match self {
            Json::List(items) => if forall|i: int|
                0 <= i < items.len() ==> (#[trigger] items[i]).is_token_id() {
                Some(items.map_values(|item: Json| item->Integer_0 as u32))
            } else {
                None
            },
            _ => None,
        }
    }
}

/// The views of a list of strings.
pub open spec fn texts(strings: Seq<String>) -> Seq<Seq<char>> {
    strings.map_values(|s: String| s@)
}

/// `serde_json::Value::clone` returns the value it is given, field for field.
pub assume_specification[ <serde_json::Value as Clone>::clone ](
    value: &serde_json::Value,
) -> (copy: serde_json::Value)
    ensures
        copy == *value,
;

/// `serde_json::Map::clone` returns a map with the same fields.
pub assume_specification[ <serde_json::Map<String, serde_json::Value> as Clone>::clone ](
    map: &serde_json::Map<String, serde_json::Value>,
) -> (copy: serde_json::Map<String, serde_json::Value>)
    ensures
        copy == *map,
;

/// `serde_json::Value::as_bool` returns the boolean that the value is, and
/// `None` for a value of any other kind.
pub assume_specification[ serde_json::Value::as_bool ](value: &serde_json::Value) -> (flag: Option<
    bool,
>)
    ensures
        flag == json(*value).as_bool(),
;

/// `serde_json::Value::is_null` tells whether the value is JSON's `null`.
pub assume_specification[ serde_json::Value::is_null ](value: &serde_json::Value) -> (null: bool)
    ensures
        null == (json(*value) is Null),
;

/// `serde_json::Map::new` returns a map without fields.
pub assume_specification[ serde_json::Map::<String, serde_json::Value>::new ]() -> (made: serde_json::Map<String, serde_json::Value>)
    ensures
        (fields(made) == Map::<Seq<char>, Json>::empty()),
;

/// `serde_json::Map::is_empty` tells whether the map has no field.
pub assume_specification[ serde_json::Map::<String, serde_json::Value>::is_empty ](
    map: &serde_json::Map<String, serde_json::Value>,
) -> (empty: bool)
    ensures
        empty == (fields(*map) == Map::<Seq<char>, Json>::empty()),
;

/// `serde_json::Map::insert` sets one field and leaves every other field as it
/// was. It returns the value that the field had before, if it had one.
pub assume_specification[ serde_json::Map::<String, serde_json::Value>::insert ](
    map: &mut serde_json::Map<String, serde_json::Value>,
    k: String,
    v: serde_json::Value,
) -> (before: Option<serde_json::Value>)
    ensures
        fields(*final(map)) == fields(*old(map)).insert(k@, json(v)),
        json_option(before) == fields(*old(map)).get(k@),
;

/// `serde_json::Value::as_str` returns the string that the value is, and `None`
/// for a value of any other kind.
pub assume_specification[ serde_json::Value::as_str ](value: &serde_json::Value) -> (text: Option<&str>)
    ensures
        match text {
            Some(s) => json(*value) == Json::Text(s@),
            None => !(json(*value) is Text),
        },
;

/// `serde_json::Value::as_object` returns the fields of the object that the
/// value is, and `None` for a value of any other kind.
pub assume_specification[ serde_json::Value::as_object ](value: &serde_json::Value) -> (object: Option<&serde_json::Map<String, serde_json::Value>>)
    ensures
        match object {
            Some(map) => json(*value) == Json::Object(fields(*map)),
            None => !(json(*value) is Object),
        },
;

/// Calls `serde_json::Map::get`, which returns the value of the field `key`,
/// and `None` where the map has no such field.
#[verifier::external_body]
pub(crate) fn get_field<'a>(
    map: &'a serde_json::Map<String, serde_json::Value>,
    key: &str,
) -> (value: Option<&'a serde_json::Value>)
    ensures
        match value {
            Some(v) => fields(*map).get(key@) == Some(json(*v)),
            None => fields(*map).get(key@) is None,
        },
{
    map.get(key)
}

/// Calls `serde_json::Map::remove`, which takes the field `key` out of the map,
/// leaves every other field as it was, and returns the value that the field had.
#[verifier::external_body]
pub(crate) fn remove_field(
    map: &mut serde_json::Map<String, serde_json::Value>,
    key: &str,
) -> (value: Option<serde_json::Value>)
    ensures
        fields(*final(map)) == fields(*old(map)).remove(key@),
        json_option(value) == fields(*old(map)).get(key@),
{
    map.remove(key)
}

/// Makes a `serde_json::Value::Bool`, which is the JSON boolean `flag`.
#[verifier::external_body]
pub(crate) fn bool_value(flag: bool) -> (value: serde_json::Value)
    ensures
        json(value) == Json::Bool(flag),
{
    serde_json::Value::Bool(flag)
}

/// Makes a `serde_json::Value::String`, which is the JSON string `text`.
#[verifier::external_body]
pub(crate) fn text_value(text: String) -> (value: serde_json::Value)
    ensures
        json(value) == Json::Text(text@),
{
    serde_json::Value::String(text)
}

/// Makes a `serde_json::Value::Object`, which is the JSON object with the
/// fields of `map`.
#[verifier::external_body]
pub(crate) fn object_value(map: serde_json::Map<String, serde_json::Value>) -> (value: serde_json::Value)
    ensures
        json(value) == Json::Object(fields(map)),
{
    serde_json::Value::Object(map)
}

/// Tells a `serde_json::Value::Object` from the other variants: gives the
/// fields of an object, and hands back a value of any other kind.
#[verifier::external_body]
pub(crate) fn into_object(value: serde_json::Value) -> (object: Result<
    serde_json::Map<String, serde_json::Value>,
    serde_json::Value,
>)
    ensures
        match object {
            Ok(map) => json(value) == Json::Object(fields(map)),
            Err(other) => other == value && !(json(value) is Object),
        },
{
    match value {
        serde_json::Value::Object(map) => Ok(map),
        other => Err(other),
    }
}

/// Calls `serde_json::from_value` for a list of strings. It succeeds on an
/// array whose items are all strings, with those strings in order, and fails on
/// any other value.
#[verifier::external_body]
pub(crate) fn decode_texts(value: serde_json::Value) -> (decoded: Result<
    Vec<String>,
    serde_json::Error,
>)
    ensures
        match decoded {
            Ok(strings) => json(value).as_texts() == Some(texts(strings@)),
            Err(_) => json(value).as_texts() is None,
        },
{
    serde_json::from_value::<Vec<String>>(value)
}

/// Calls `serde_json::from_value` for a list of 32-bit unsigned integers. It
/// succeeds on an array whose items are all integers in that range, with those
/// integers in order, and fails on any other value. A number in floating point
/// is no integer here, whatever its value.
#[verifier::external_body]
pub(crate) fn decode_token_ids(value: serde_json::Value) -> (decoded: Result<
    Vec<u32>,
    serde_json::Error,
>)
    ensures
        match decoded {
            Ok(ids) => json(value).as_token_ids() == Some(ids@),
            Err(_) => json(value).as_token_ids() is None,
        },
{
    serde_json::from_value::<Vec<u32>>(value)
}

/// The strings have the same characters in the same order.
pub(crate) fn same_text(a: &str, b: &str) -> (same: bool)
    ensures
        same == (a@ == b@),
{
    a.to_owned() == b.to_owned()
}

/// A document is an array of strings, or of token ids, if and only if it is an
/// array and every item is one; and then these are the items, in order.
pub proof fn law_lists_are_read_item_by_item(document: Json, strings: Seq<Seq<char>>, ids: Seq<u32>)
    ensures
        document.as_texts() == Some(strings) <==> document == Json::List(
            strings.map_values(|text: Seq<char>| Json::Text(text)),
        ),
        document.as_token_ids() == Some(ids) <==> document == Json::List(
            ids.map_values(|id: u32| Json::Integer(id as int)),
        ),
{
    if let Json::List(items) = document {
        let as_strings = strings.map_values(|text: Seq<char>| Json::Text(text));
        if document.as_texts() == Some(strings) {
            assert(items =~= as_strings) by {
                assert forall|i: int| 0 <= i < items.len() implies items[i] == as_strings[i] by {
                    assert(items.map_values(|item: Json| item->Text_0)[i] == strings[i]);
                }
            }
        }
        if items == as_strings {
            assert(forall|i: int| 0 <= i < items.len() ==> items[i] == as_strings[i]);
            assert(items.map_values(|item: Json| item->Text_0) =~= strings);
        }
        let as_integers = ids.map_values(|id: u32| Json::Integer(id as int));
        if document.as_token_ids() == Some(ids) {
            assert(items =~= as_integers) by {
                assert forall|i: int| 0 <= i < items.len() implies items[i] == as_integers[i] by {
                    assert(items[i].is_token_id());
                    assert(items.map_values(|item: Json| item->Integer_0 as u32)[i] == ids[i]);
                }
            }
        }
        if items == as_integers {
            assert(forall|i: int| 0 <= i < items.len() ==> items[i] == as_integers[i]);
            assert(items.map_values(|item: Json| item->Integer_0 as u32) =~= ids);
        }
    }
}

/// An optional value has a document if and only if it is there, and then its own.
pub proof fn law_optional_values_are_read(
    value: serde_json::Value,
    map: serde_json::Map<String, serde_json::Value>,
)
    ensures
        json_option(Some(value)) == Some(json(value)),
        json_option(None) is None,
        fields_option(Some(map)) == Some(fields(map)),
        fields_option(None) is None,
{
}

} // verus!
