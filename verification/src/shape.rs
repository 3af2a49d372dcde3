//! The JSON shapes that the messages share.
//!
//! A variant of a message type with fields is an object with one member,
//! named after the variant, whose value is an object of the fields. A variant
//! without fields is its bare name. An optional field that holds nothing is
//! left out of the object; a reader takes an absent member and a `null` for
//! "not provided" alike, and passes over members that it does not know.

use vstd::prelude::*;
use crate::error::DecodeError;
use crate::json::{
    array, as_array, as_bool, as_object, as_str, as_u64, first_member, insert, is_null, json_of,
    jsons_of, lookup, member, member_count, members_of, no_members, object, string, unsigned, Json,
    JsonNumber, Members, ValueMap,
};

verus! {

/// The JSON value of a variant with fields.
pub open spec fn struct_variant(name: Seq<char>, fields: Members) -> Json {
    Json::Object(seq![(name, Json::Object(fields))])
}

/// The JSON value of a variant without fields.
pub open spec fn unit_variant(name: Seq<char>) -> Json {
    Json::String(name)
}

/// The discriminator of a value and, for the object form, what stands under
/// it. `None` where the value is neither a string nor an object with exactly
/// one member.
pub open spec fn tag_of(j: Json) -> Option<(Seq<char>, Option<Json>)> {
    match j {
        Json::String(name) => Some((name, None)),
        Json::Object(members) => if members.len() == 1 {
            Some((members[0].0, Some(members[0].1)))
        } else {
            None
        },
        _ => None,
    }
}

/// The discriminator of a value alone, where it has one.
pub open spec fn discriminator(j: Json) -> Option<Seq<char>> {
    match tag_of(j) {
        Some((name, _)) => Some(name),
        None => None,
    }
}

/// The fields under the name of a variant with fields.
pub open spec fn fields_of(body: Option<Json>) -> Result<Members, DecodeError> {
    match body {
        Some(Json::Object(fields)) => Ok(fields),
        _ => Err(DecodeError::InvalidType),
    }
}

/// What may stand under the name of a variant without fields: nothing (the
/// bare name was given) or `null`.
pub open spec fn is_unit_body(body: Option<Json>) -> bool {
    body is None || body == Some(Json::Null)
}

/// `fields`, followed by the text `value` under `key` where there is one.
pub open spec fn optional_text_field(
    fields: Members,
    key: Seq<char>,
    value: Option<Seq<char>>,
) -> Members {
    match value {
        Some(text) => fields.push((key, Json::String(text))),
        None => fields,
    }
}

/// `fields`, followed by the number `value` under `key` where there is one.
pub open spec fn optional_number_field(
    fields: Members,
    key: Seq<char>,
    value: Option<u64>,
) -> Members {
    match value {
        Some(n) => fields.push((key, Json::Number(JsonNumber::PosInt(n)))),
        None => fields,
    }
}

/// An array of strings.
pub open spec fn text_array(items: Seq<Seq<char>>) -> Json {
    Json::Array(items.map_values(|text: Seq<char>| Json::String(text)))
}

/// A field that must be there, whatever it holds.
pub open spec fn required(fields: Members, key: Seq<char>) -> Result<Json, DecodeError> {
    match lookup(fields, key) {
        Some(value) => Ok(value),
        None => Err(DecodeError::MissingField),
    }
}

/// A field that must hold a string.
pub open spec fn required_text(fields: Members, key: Seq<char>) -> Result<Seq<char>, DecodeError> {
    match lookup(fields, key) {
        Some(Json::String(text)) => Ok(text),
        Some(_) => Err(DecodeError::InvalidType),
        None => Err(DecodeError::MissingField),
    }
}

/// A field that must hold a boolean.
pub open spec fn required_bool(fields: Members, key: Seq<char>) -> Result<bool, DecodeError> {
    match lookup(fields, key) {
        Some(Json::Bool(b)) => Ok(b),
        Some(_) => Err(DecodeError::InvalidType),
        None => Err(DecodeError::MissingField),
    }
}

/// A field that must hold a non-negative integer of at most `max`.
pub open spec fn required_number(fields: Members, key: Seq<char>, max: u64) -> Result<
    u64,
    DecodeError,
> {
    match lookup(fields, key) {
        Some(Json::Number(JsonNumber::PosInt(n))) => if n <= max {
            Ok(n)
        } else {
            Err(DecodeError::InvalidType)
        },
        Some(_) => Err(DecodeError::InvalidType),
        None => Err(DecodeError::MissingField),
    }
}

/// A field that must hold an array of strings.
pub open spec fn required_texts(fields: Members, key: Seq<char>) -> Result<
    Seq<Seq<char>>,
    DecodeError,
> {
    match lookup(fields, key) {
        Some(Json::Array(items)) => if forall|i: int|
            0 <= i < items.len() ==> (#[trigger] items[i]) is String {
            Ok(items.map_values(|item: Json| item->String_0))
        } else {
            Err(DecodeError::InvalidType)
        },
        Some(_) => Err(DecodeError::InvalidType),
        None => Err(DecodeError::MissingField),
    }
}

/// A field that holds a string, or is `null` or absent.
pub open spec fn optional_text(fields: Members, key: Seq<char>) -> Result<
    Option<Seq<char>>,
    DecodeError,
> {
    match lookup(fields, key) {
        Some(Json::String(text)) => Ok(Some(text)),
        Some(Json::Null) => Ok(None),
        Some(_) => Err(DecodeError::InvalidType),
        None => Ok(None),
    }
}

/// A field that holds a non-negative integer, or is `null` or absent.
pub open spec fn optional_number(fields: Members, key: Seq<char>) -> Result<
    Option<u64>,
    DecodeError,
> {
    match lookup(fields, key) {
        Some(Json::Number(JsonNumber::PosInt(n))) => Ok(Some(n)),
        Some(Json::Null) => Ok(None),
        Some(_) => Err(DecodeError::InvalidType),
        None => Ok(None),
    }
}

/// Looking a key up after one more member was added at the end: an earlier
/// member of that name still wins, else the new member is found under its
/// own key only.
pub broadcast proof fn lemma_lookup_push(
    fields: Members,
    key: Seq<char>,
    value: Json,
    wanted: Seq<char>,
)
    ensures
        #[trigger] lookup(fields.push((key, value)), wanted) == (if lookup(fields, wanted) is Some {
            lookup(fields, wanted)
        } else if key == wanted {
            Some(value)
        } else {
            None
        }),
    decreases fields.len(),
{
    let longer = fields.push((key, value));
    if fields.len() == 0 {
        assert(lookup(longer.drop_first(), wanted) is None);
    } else {
        assert(longer.drop_first() =~= fields.drop_first().push((key, value)));
        lemma_lookup_push(fields.drop_first(), key, value, wanted);
    }
}

/// The value of a variant with fields.
pub(crate) fn make_struct_variant(name: &str, fields: ValueMap) -> (v: serde_json::Value)
    ensures
        json_of(v) == struct_variant(name@, members_of(fields)),
{
    let mut outer = no_members();
    let body = object(fields);
    insert(&mut outer, name.to_owned(), body);
    object(outer)
}

/// The value of a variant without fields.
pub(crate) fn make_unit_variant(name: &str) -> (v: serde_json::Value)
    ensures
        json_of(v) == unit_variant(name@),
{
    string(name.to_owned())
}

/// Reads the discriminator of a value.
pub(crate) fn read_tag<'a>(v: &'a serde_json::Value) -> (r: Option<
    (&'a str, Option<&'a serde_json::Value>),
>)
    ensures
        match r {
            Some((name, body)) => tag_of(json_of(*v)) == Some((name@, body_of(body))),
            None => tag_of(json_of(*v)) is None,
        },
{
    match as_str(v) {
        Some(name) => Some((name, None)),
        None => match as_object(v) {
            Some(members) => {
                if member_count(members) != 1 {
                    return None;
                }
                match first_member(members) {
                    Some((name, body)) => Some((name.as_str(), Some(body))),
                    None => None,
                }
            },
            None => None,
        },
    }
}

/// What stands under the name, as a tree.
pub open spec fn body_of(body: Option<&serde_json::Value>) -> Option<Json> {
    match body {
        Some(value) => Some(json_of(*value)),
        None => None,
    }
}

/// Reads the fields under the name of a variant with fields.
pub(crate) fn read_fields<'a>(body: Option<&'a serde_json::Value>) -> (r: Result<
    &'a ValueMap,
    DecodeError,
>)
    ensures
        match r {
            Ok(fields) => fields_of(body_of(body)) == Ok::<Members, DecodeError>(
                members_of(*fields),
            ),
            Err(e) => fields_of(body_of(body)) == Err::<Members, DecodeError>(e),
        },
{
    match body {
        Some(b) => match as_object(b) {
            Some(fields) => Ok(fields),
            None => Err(DecodeError::InvalidType),
        },
        None => Err(DecodeError::InvalidType),
    }
}

/// Whether what stands under the name of a variant without fields is
/// acceptable.
pub(crate) fn check_unit_body(body: Option<&serde_json::Value>) -> (ok: bool)
    ensures
        ok == is_unit_body(body_of(body)),
{
    match body {
        Some(b) => is_null(b),
        None => true,
    }
}

/// Adds a member at the end of `fields`.
pub(crate) fn put(fields: &mut ValueMap, key: &str, value: serde_json::Value)
    requires
        lookup(members_of(*old(fields)), key@) is None,
    ensures
        members_of(*final(fields)) == members_of(*old(fields)).push((key@, json_of(value))),
{
    insert(fields, key.to_owned(), value);
}

/// Adds a string field.
pub(crate) fn put_text(fields: &mut ValueMap, key: &str, value: &String)
    requires
        lookup(members_of(*old(fields)), key@) is None,
    ensures
        members_of(*final(fields)) == members_of(*old(fields)).push((key@, Json::String(value@))),
{
    put(fields, key, string(value.clone()));
}

/// Adds an optional string field: nothing at all where it holds nothing.
pub(crate) fn put_optional_text(fields: &mut ValueMap, key: &str, value: &Option<String>)
    requires
        lookup(members_of(*old(fields)), key@) is None,
    ensures
        members_of(*final(fields)) == optional_text_field(
            members_of(*old(fields)),
            key@,
            value.deep_view(),
        ),
{
    match value {
        Some(text) => put_text(fields, key, text),
        None => {},
    }
}

/// Adds an optional number field: nothing at all where it holds nothing.
pub(crate) fn put_optional_number(fields: &mut ValueMap, key: &str, value: Option<u64>)
    requires
        lookup(members_of(*old(fields)), key@) is None,
    ensures
        members_of(*final(fields)) == optional_number_field(members_of(*old(fields)), key@, value),
{
    match value {
        Some(n) => put(fields, key, unsigned(n)),
        None => {},
    }
}

/// Builds an array of strings.
pub(crate) fn make_text_array(items: &Vec<String>) -> (v: serde_json::Value)
    ensures
        json_of(v) == text_array(items.deep_view()),
{
    let mut values: Vec<serde_json::Value> = Vec::new();
    let mut i: usize = 0;
    while i < items.len()
        invariant
            i <= items.len(),
            values.len() == i,
            forall|k: int| 0 <= k < i ==> json_of(#[trigger] values[k]) == Json::String(items[k]@),
        decreases items.len() - i,
    {
        values.push(string(items[i].clone()));
        i += 1;
    }
    let v = array(values);
    assert(jsons_of(values@) =~= items.deep_view().map_values(
        |text: Seq<char>| Json::String(text),
    ));
    v
}

/// Reads a field that must be there, whatever it holds.
pub(crate) fn get<'a>(fields: &'a ValueMap, key: &str) -> (r: Result<
    &'a serde_json::Value,
    DecodeError,
>)
    ensures
        match r {
            Ok(value) => required(members_of(*fields), key@) == Ok::<Json, DecodeError>(
                json_of(*value),
            ),
            Err(e) => required(members_of(*fields), key@) == Err::<Json, DecodeError>(e),
        },
{
    match member(fields, key) {
        Some(value) => Ok(value),
        None => Err(DecodeError::MissingField),
    }
}

/// Reads a field that must hold a string.
pub(crate) fn get_text(fields: &ValueMap, key: &str) -> (r: Result<String, DecodeError>)
    ensures
        match r {
            Ok(text) => required_text(members_of(*fields), key@) == Ok::<Seq<char>, DecodeError>(
                text@,
            ),
            Err(e) => required_text(members_of(*fields), key@) == Err::<Seq<char>, DecodeError>(e),
        },
{
    match member(fields, key) {
        Some(value) => match as_str(value) {
            Some(text) => Ok(text.to_owned()),
            None => Err(DecodeError::InvalidType),
        },
        None => Err(DecodeError::MissingField),
    }
}

/// Reads a field that must hold a boolean.
pub(crate) fn get_bool(fields: &ValueMap, key: &str) -> (r: Result<bool, DecodeError>)
    ensures
        r == required_bool(members_of(*fields), key@),
{
    match member(fields, key) {
        Some(value) => match as_bool(value) {
            Some(b) => Ok(b),
            None => Err(DecodeError::InvalidType),
        },
        None => Err(DecodeError::MissingField),
    }
}

/// Reads a field that must hold a non-negative integer of at most `max`.
pub(crate) fn get_number(fields: &ValueMap, key: &str, max: u64) -> (r: Result<u64, DecodeError>)
    ensures
        r == required_number(members_of(*fields), key@, max),
{
    match member(fields, key) {
        Some(value) => match as_u64(value) {
            Some(n) => if n <= max {
                Ok(n)
            } else {
                Err(DecodeError::InvalidType)
            },
            None => Err(DecodeError::InvalidType),
        },
        None => Err(DecodeError::MissingField),
    }
}

/// Reads a field that must hold an array of strings.
pub(crate) fn get_texts(fields: &ValueMap, key: &str) -> (r: Result<Vec<String>, DecodeError>)
    ensures
        match r {
            Ok(texts) => required_texts(members_of(*fields), key@) == Ok::<
                Seq<Seq<char>>,
                DecodeError,
            >(texts.deep_view()),
            Err(e) => required_texts(members_of(*fields), key@) == Err::<
                Seq<Seq<char>>,
                DecodeError,
            >(e),
        },
{
    let value = match member(fields, key) {
        Some(value) => value,
        None => return Err(DecodeError::MissingField),
    };
    let items = match as_array(value) {
        Some(items) => items,
        None => return Err(DecodeError::InvalidType),
    };
    let ghost trees = jsons_of(items@);
    let mut texts: Vec<String> = Vec::new();
    let mut i: usize = 0;
    while i < items.len()
        invariant
            trees == jsons_of(items@),
            lookup(members_of(*fields), key@) == Some(Json::Array(trees)),
            i <= items.len(),
            texts.len() == i,
            forall|k: int| 0 <= k < i ==> #[trigger] trees[k] == Json::String(texts[k]@),
        decreases items.len() - i,
    {
        assert(trees[i as int] == json_of(items@[i as int]));
        match as_str(&items[i]) {
            Some(text) => texts.push(text.to_owned()),
            None => {
                return Err(DecodeError::InvalidType);
            },
        }
        i += 1;
    }
    assert(texts.deep_view() =~= trees.map_values(|item: Json| item->String_0));
    Ok(texts)
}

/// Reads a field that holds a string, or is `null` or absent.
pub(crate) fn get_optional_text(fields: &ValueMap, key: &str) -> (r: Result<
    Option<String>,
    DecodeError,
>)
    ensures
        match r {
            Ok(text) => optional_text(members_of(*fields), key@) == Ok::<
                Option<Seq<char>>,
                DecodeError,
            >(text.deep_view()),
            Err(e) => optional_text(members_of(*fields), key@) == Err::<
                Option<Seq<char>>,
                DecodeError,
            >(e),
        },
{
    match member(fields, key) {
        Some(value) => match as_str(value) {
            Some(text) => Ok(Some(text.to_owned())),
            None => if is_null(value) {
                Ok(None)
            } else {
                Err(DecodeError::InvalidType)
            },
        },
        None => Ok(None),
    }
}

/// Reads a field that holds a non-negative integer, or is `null` or absent.
pub(crate) fn get_optional_number(fields: &ValueMap, key: &str) -> (r: Result<
    Option<u64>,
    DecodeError,
>)
    ensures
        r == optional_number(members_of(*fields), key@),
{
    match member(fields, key) {
        Some(value) => match as_u64(value) {
            Some(n) => Ok(Some(n)),
            None => if is_null(value) {
                Ok(None)
            } else {
                Err(DecodeError::InvalidType)
            },
        },
        None => Ok(None),
    }
}

} // verus!
