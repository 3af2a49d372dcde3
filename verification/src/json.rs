//! The boundary to `serde_json`.
//!
//! `serde_json` reads and writes the JSON text; this library only decides
//! which JSON value stands for which message. A [`serde_json::Value`] is opaque
//! to the verifier. Its content is described by [`json_of`], which maps it to
//! the mathematical tree [`Json`], and every function of this module that
//! touches a `Value` states what it does in terms of that tree.
//!
//! None of the contracts on the `pub(crate)` functions below is proved. They
//! say what `serde_json` does when it is built with its `preserve_order`
//! feature (an object keeps its members in insertion order) and its
//! `float_roundtrip` feature (a printed double is read back exactly).

use vstd::prelude::*;

verus! {

/// A JSON number, as `serde_json::Number` holds it.
pub enum JsonNumber {
    /// A non-negative integer.
    PosInt(u64),
    /// An integer below zero.
    NegInt(i64),
    /// A finite double, given by its IEEE 754 bit pattern.
    Float(u64),
}

/// A JSON value as a mathematical tree.
///
/// The members of an object keep their order. In the tree of an actual
/// `Value` no two members of one object share a key.
pub enum Json {
    Null,
    Bool(bool),
    Number(JsonNumber),
    String(Seq<char>),
    Array(Seq<Json>),
    Object(Seq<(Seq<char>, Json)>),
}

/// The members of a JSON object: keys with their values, in order.
pub type Members = Seq<(Seq<char>, Json)>;

/// The map behind a `Value::Object`.
pub type ValueMap = serde_json::Map<String, serde_json::Value>;

/// The byte that ends a message on the wire.
pub const NEWLINE: u8 = 0x0a;

/// How many arrays and objects may be nested inside one another in a text
/// that `serde_json` still reads: its parser gives up at the 128th level.
pub const MAX_NESTING: usize = 127;

/// The value of the first member of `members` whose key is `key`.
pub open spec fn lookup(members: Members, key: Seq<char>) -> Option<Json>
    decreases members.len(),
{
    if members.len() == 0 {
        None
    } else if members[0].0 == key {
        Some(members[0].1)
    } else {
        lookup(members.drop_first(), key)
    }
}

/// Arrays and objects are nested at most `depth` deep in `j`: a scalar has
/// depth 0, an empty array depth 1.
pub open spec fn within_depth(j: Json, depth: nat) -> bool
    decreases depth,
{
    match j {
        Json::Array(items) => depth > 0 && forall|i: int|
            0 <= i < items.len() ==> within_depth(#[trigger] items[i], (depth - 1) as nat),
        Json::Object(members) => depth > 0 && forall|i: int|
            0 <= i < members.len() ==> within_depth((#[trigger] members[i]).1, (depth - 1) as nat),
        _ => true,
    }
}

/// The trees of a sequence of values.
pub open spec fn jsons_of(values: Seq<serde_json::Value>) -> Seq<Json> {
    values.map_values(|v: serde_json::Value| json_of(v))
}

/// `bytes` is the compact JSON text of `j`: it holds no newline, and parsing
/// it gives `j` back unless `j` is nested too deeply for the parser.
pub open spec fn is_text_of(bytes: Seq<u8>, j: Json) -> bool {
    &&& bytes == json_text(j)
    &&& forall|i: int| 0 <= i < bytes.len() ==> bytes[i] != NEWLINE
    &&& within_depth(j, MAX_NESTING as nat) ==> json_parse(bytes) == Some(j)
}

/// Makes `serde_json::Value` known to the verifier, as a type whose inside
/// it does not see.
#[verifier::external_type_specification]
#[verifier::external_body]
pub struct ExValue(serde_json::Value);

/// Makes `serde_json::Map` known to the verifier, as a type whose inside it
/// does not see.
#[verifier::external_type_specification]
#[verifier::external_body]
#[verifier::reject_recursive_types(K)]
#[verifier::reject_recursive_types(V)]
pub struct ExMap<K, V>(serde_json::Map<K, V>);

/// Makes `serde_json::Error` known to the verifier, as a type whose inside
/// it does not see. The library only tells an error from a value.
#[verifier::external_type_specification]
#[verifier::external_body]
pub struct ExError(serde_json::Error);

/// The tree that a `Value` holds: which variant it is and, for a number, a
/// string, an array or an object, what is inside.
pub uninterp spec fn json_of(v: serde_json::Value) -> Json;

/// The members that a `Map` holds, in the order in which it walks them.
pub uninterp spec fn members_of(m: serde_json::Map<String, serde_json::Value>) -> Seq<
    (Seq<char>, Json),
>;

/// The compact text that `serde_json::to_vec` writes for a value with the
/// tree `j`.
pub uninterp spec fn json_text(j: Json) -> Seq<u8>;

/// The tree of the value that `serde_json::from_slice` reads from `bytes`, or
/// `None` where it reports an error.
pub uninterp spec fn json_parse(bytes: Seq<u8>) -> Option<Json>;

/// `serde_json::to_vec` on a `Value`. It cannot fail on a `Value`, whose keys
/// are strings and whose numbers are finite. Three things are claimed of the
/// text. It depends on the tree alone. It is compact: the serializer writes
/// no whitespace between tokens and escapes every control character inside
/// a string, so no byte of it is a newline. And `serde_json::from_slice`
/// reads the same tree back from it: members come back in the order in
/// which they were written, integers and strings as they were, doubles bit
/// for bit; only nesting stands in the way, since the parser counts down
/// from 128 at every array and object that it enters and gives up at zero.
#[verifier::external_body]
pub(crate) fn to_bytes(v: &serde_json::Value) -> (out: Vec<u8>)
    ensures
        out@ == json_text(json_of(*v)),
        forall|i: int| 0 <= i < out@.len() ==> out@[i] != NEWLINE,
        within_depth(json_of(*v), MAX_NESTING as nat) ==> json_parse(out@) == Some(json_of(*v)),
{
    serde_json::to_vec(v).expect("a JSON value always serializes")
}

/// `serde_json::from_slice` at the type `Value`: the value that the whole of
/// `bytes` spells, or the parser's error. The outcome depends on the bytes
/// alone.
#[verifier::external_body]
pub(crate) fn from_bytes(bytes: &[u8]) -> (r: Result<serde_json::Value, serde_json::Error>)
    ensures
        match r {
            Ok(v) => json_parse(bytes@) == Some(json_of(v)),
            Err(_) => json_parse(bytes@) is None,
        },
{
    serde_json::from_slice::<serde_json::Value>(bytes)
}

/// `Value::clone`: a value with the same tree.
pub assume_specification[ <serde_json::Value as Clone>::clone ](v: &serde_json::Value) -> (r:
    serde_json::Value)
    ensures
        json_of(r) == json_of(*v),
;

/// The variant `Value::Bool`.
#[verifier::external_body]
pub(crate) fn boolean(b: bool) -> (v: serde_json::Value)
    ensures
        json_of(v) == Json::Bool(b),
{
    serde_json::Value::Bool(b)
}

/// `Value::from` on a `u64`: a number that holds it as a non-negative integer.
#[verifier::external_body]
pub(crate) fn unsigned(n: u64) -> (v: serde_json::Value)
    ensures
        json_of(v) == Json::Number(JsonNumber::PosInt(n)),
{
    serde_json::Value::from(n)
}

/// The variant `Value::String`.
#[verifier::external_body]
pub(crate) fn string(s: String) -> (v: serde_json::Value)
    ensures
        json_of(v) == Json::String(s@),
{
    serde_json::Value::String(s)
}

/// The variant `Value::Array`.
#[verifier::external_body]
pub(crate) fn array(items: Vec<serde_json::Value>) -> (v: serde_json::Value)
    ensures
        json_of(v) == Json::Array(jsons_of(items@)),
{
    serde_json::Value::Array(items)
}

/// The variant `Value::Object`.
#[verifier::external_body]
pub(crate) fn object(members: ValueMap) -> (v: serde_json::Value)
    ensures
        json_of(v) == Json::Object(members_of(members)),
{
    serde_json::Value::Object(members)
}

/// `Map::new`: a map without members.
#[verifier::external_body]
pub(crate) fn no_members() -> (m: ValueMap)
    ensures
        members_of(m) == Seq::<(Seq<char>, Json)>::empty(),
{
    serde_json::Map::new()
}

/// `Map::insert` with a key that the map does not hold yet: the new member
/// comes last.
#[verifier::external_body]
pub(crate) fn insert(m: &mut ValueMap, key: String, value: serde_json::Value)
    requires
        lookup(members_of(*old(m)), key@) is None,
    ensures
        members_of(*final(m)) == members_of(*old(m)).push((key@, json_of(value))),
{
    m.insert(key, value);
}

/// `Map::len`: the number of members.
#[verifier::external_body]
pub(crate) fn member_count(m: &ValueMap) -> (n: usize)
    ensures
        n == members_of(*m).len(),
{
    m.len()
}

/// `Map::iter`, asked for one item: the first member, or `None` for a map
/// without members.
#[verifier::external_body]
pub(crate) fn first_member(m: &ValueMap) -> (r: Option<(&String, &serde_json::Value)>)
    ensures
        match r {
            Some((key, value)) => members_of(*m).len() > 0 && members_of(*m)[0] == (
                key@,
                json_of(*value),
            ),
            None => members_of(*m).len() == 0,
        },
{
    m.iter().next()
}

/// `Map::get`: the value of the member with this key, or `None` where the map
/// holds no such member.
#[verifier::external_body]
pub(crate) fn member<'a>(m: &'a ValueMap, key: &str) -> (r: Option<&'a serde_json::Value>)
    ensures
        match r {
            Some(value) => lookup(members_of(*m), key@) == Some(json_of(*value)),
            None => lookup(members_of(*m), key@) is None,
        },
{
    m.get(key)
}

/// `Value::is_null`.
#[verifier::external_body]
pub(crate) fn is_null(v: &serde_json::Value) -> (r: bool)
    ensures
        r == (json_of(*v) is Null),
{
    v.is_null()
}

/// `Value::as_bool`: the boolean of a `Value::Bool`, and `None` for every
/// other value.
#[verifier::external_body]
pub(crate) fn as_bool(v: &serde_json::Value) -> (r: Option<bool>)
    ensures
        match r {
            Some(b) => json_of(*v) == Json::Bool(b),
            None => !(json_of(*v) is Bool),
        },
{
    v.as_bool()
}

/// `Value::as_u64`: the integer of a number that holds a non-negative
/// integer, and `None` for every other value.
#[verifier::external_body]
pub(crate) fn as_u64(v: &serde_json::Value) -> (r: Option<u64>)
    ensures
        match r {
            Some(n) => json_of(*v) == Json::Number(JsonNumber::PosInt(n)),
            None => !(json_of(*v) matches Json::Number(JsonNumber::PosInt(_))),
        },
{
    v.as_u64()
}

/// `Value::as_str`: the text of a `Value::String`, and `None` for every other
/// value.
#[verifier::external_body]
pub(crate) fn as_str<'a>(v: &'a serde_json::Value) -> (r: Option<&'a str>)
    ensures
        match r {
            Some(s) => json_of(*v) == Json::String(s@),
            None => !(json_of(*v) is String),
        },
{
    v.as_str()
}

/// `Value::as_array`: the items of a `Value::Array`, and `None` for every
/// other value.
#[verifier::external_body]
pub(crate) fn as_array<'a>(v: &'a serde_json::Value) -> (r: Option<&'a Vec<serde_json::Value>>)
    ensures
        match r {
            Some(items) => json_of(*v) == Json::Array(jsons_of(items@)),
            None => !(json_of(*v) is Array),
        },
{
    v.as_array()
}

/// `Value::as_object`: the map of a `Value::Object`, and `None` for every
/// other value.
#[verifier::external_body]
pub(crate) fn as_object<'a>(v: &'a serde_json::Value) -> (r: Option<&'a ValueMap>)
    ensures
        match r {
            Some(m) => json_of(*v) == Json::Object(members_of(*m)),
            None => !(json_of(*v) is Object),
        },
{
    v.as_object()
}

} // verus!
