//! JSON documents: a mathematical model of them, the calls into `serde_json`
//! that build, read, print and parse them, and verified helpers that write and
//! read the members of an object.
//!
//! Every function marked `external_body` in this file is a single call into
//! `serde_json`; its contract is taken on trust from that crate's source.

use serde_json::Value;
use vstd::prelude::*;

verus! {

/// A JSON document as a mathematical value.
pub enum Json {
    /// The literal `null`.
    Null,
    /// A boolean.
    Bool(bool),
    /// A number that is an integer.
    Int(int),
    /// A number that is not an integer, by the bits of its binary representation.
    Real(u64),
    /// A string.
    Text(Seq<char>),
    /// An array.
    List(Seq<Json>),
    /// An object: its keys and the value of each.
    Object(Map<Seq<char>, Json>),
}

/// The members of a JSON object.
pub type Members = Map<Seq<char>, Json>;

/// An object under construction or inspection, as `serde_json` holds it.
pub type JsonObject = serde_json::Map<String, Value>;

/// `serde_json::Value`, taken as it is: what a value holds is known through
/// [`json_of`] alone.
#[verifier::external_type_specification]
#[verifier::external_body]
pub struct ExValue(serde_json::Value);

/// `serde_json::Map`, taken as it is: what a map holds is known through
/// [`members_of`] alone.
#[verifier::external_type_specification]
#[verifier::external_body]
#[verifier::reject_recursive_types(K)]
#[verifier::reject_recursive_types(V)]
pub struct ExMap<K, V>(serde_json::Map<K, V>);

/// `serde_json::Error`, taken as it is: an error is known by the description
/// that it gives of itself, [`error_text`].
#[verifier::external_type_specification]
#[verifier::external_body]
pub struct ExError(serde_json::Error);

/// The document that a `serde_json::Value` holds.
pub uninterp spec fn json_of(value: Value) -> Json;

/// The members that a `serde_json::Map` holds.
pub uninterp spec fn members_of(object: JsonObject) -> Members;

/// The text that `serde_json` prints for a document, in its compact form.
pub uninterp spec fn json_text(document: Json) -> Seq<char>;

/// What `serde_json` makes of a text: the document that it reads from it, or,
/// where the text is not JSON, the parser's description of what it met.
pub uninterp spec fn json_parsed(text: Seq<char>) -> Result<Json, Seq<char>>;

/// The description that a `serde_json::Error` gives of itself.
pub uninterp spec fn error_text(error: serde_json::Error) -> Seq<char>;

/// The documents that a sequence of values holds, one by one.
pub open spec fn documents(values: Seq<Value>) -> Seq<Json> {
    values.map_values(|v: Value| json_of(v))
}

/// `Value::from(String)`: a JSON string with the given text.
#[verifier::external_body]
pub(crate) fn text_value(text: String) -> (value: Value)
    ensures
        json_of(value) == Json::Text(text@),
{
    Value::from(text)
}

/// `Value::from(bool)`: a JSON boolean.
#[verifier::external_body]
pub(crate) fn bool_value(flag: bool) -> (value: Value)
    ensures
        json_of(value) == Json::Bool(flag),
{
    Value::from(flag)
}

/// `Value::from(u64)`: a JSON number with the given integer value.
#[verifier::external_body]
pub(crate) fn u64_value(number: u64) -> (value: Value)
    ensures
        json_of(value) == Json::Int(number as int),
{
    Value::from(number)
}

/// `Value::from(i64)`: a JSON number with the given integer value.
#[verifier::external_body]
pub(crate) fn i64_value(number: i64) -> (value: Value)
    ensures
        json_of(value) == Json::Int(number as int),
{
    Value::from(number)
}

/// `Value::from(Vec<Value>)`: the array of the given items, in their order.
#[verifier::external_body]
pub(crate) fn list_value(items: Vec<Value>) -> (value: Value)
    ensures
        json_of(value) == Json::List(documents(items@)),
{
    Value::from(items)
}

/// `Value::from(Map)`: the object with the given members.
#[verifier::external_body]
pub(crate) fn object_value(object: JsonObject) -> (value: Value)
    ensures
        json_of(value) == Json::Object(members_of(object)),
{
    Value::from(object)
}

/// `Map::new`: an object without members.
#[verifier::external_body]
pub(crate) fn new_object() -> (object: JsonObject)
    ensures
        members_of(object) == Members::empty(),
{
    serde_json::Map::new()
}

/// `Map::insert`: sets the member `key` to `value`; a member that was there
/// under the same key is replaced.
#[verifier::external_body]
pub(crate) fn set_member(object: &mut JsonObject, key: &str, value: Value)
    ensures
        members_of(*final(object)) == members_of(*old(object)).insert(key@, json_of(value)),
{
    object.insert(key.to_owned(), value);
}

/// `Map::get`: the member under `key`, if the object has one.
#[verifier::external_body]
pub(crate) fn get_member<'a>(object: &'a JsonObject, key: &str) -> (value: Option<&'a Value>)
    ensures
        match value {
            Some(v) => members_of(*object).contains_key(key@) && members_of(*object)[key@]
                == json_of(*v),
            None => !members_of(*object).contains_key(key@),
        },
{
    object.get(key)
}

/// Whether `names` are the keys of `object`: each name is a key, and each key
/// is among the names.
pub open spec fn names_cover(names: Seq<String>, object: Members) -> bool {
    &&& forall|i: int| 0 <= i < names.len() ==> object.contains_key(#[trigger] names[i]@)
    &&& forall|key: Seq<char>| #[trigger]
        object.contains_key(key) ==> exists|i: int| 0 <= i < names.len() && names[i]@ == key
}

/// `Map::keys`: the keys of the object, each handed out as a `String`.
#[verifier::external_body]
pub(crate) fn member_names(object: &JsonObject) -> (names: Vec<String>)
    ensures
        names_cover(names@, members_of(*object)),
{
    object.keys().cloned().collect()
}

/// `Value::as_object`: the members of the document, if it is an object.
#[verifier::external_body]
pub(crate) fn as_object(value: &Value) -> (object: Option<&JsonObject>)
    ensures
        match object {
            Some(o) => json_of(*value) == Json::Object(members_of(*o)),
            None => !(json_of(*value) is Object),
        },
{
    value.as_object()
}

/// `Value::as_array`: the items of the document, if it is an array.
#[verifier::external_body]
pub(crate) fn as_array(value: &Value) -> (items: Option<&Vec<Value>>)
    ensures
        match items {
            Some(list) => json_of(*value) == Json::List(documents(list@)),
            None => !(json_of(*value) is List),
        },
{
    value.as_array()
}

/// `Value::as_str`: the text of the document, if it is a string.
#[verifier::external_body]
pub(crate) fn as_text(value: &Value) -> (text: Option<&str>)
    ensures
        match text {
            Some(t) => json_of(*value) == Json::Text(t@),
            None => !(json_of(*value) is Text),
        },
{
    value.as_str()
}

/// `Value::as_bool`: the boolean of the document, if it is one.
#[verifier::external_body]
pub(crate) fn as_bool(value: &Value) -> (flag: Option<bool>)
    ensures
        match flag {
            Some(b) => json_of(*value) == Json::Bool(b),
            None => !(json_of(*value) is Bool),
        },
{
    value.as_bool()
}

/// `Value::as_i64`: the number of the document, if it is an integer that an
/// `i64` can hold.
#[verifier::external_body]
pub(crate) fn as_i64(value: &Value) -> (number: Option<i64>)
    ensures
        match number {
            Some(n) => json_of(*value) == Json::Int(n as int),
            None => !(json_of(*value) matches Json::Int(i) && i64::MIN <= i <= i64::MAX),
        },
{
    value.as_i64()
}

/// `Value::as_u64`: the number of the document, if it is an integer that a
/// `u64` can hold.
#[verifier::external_body]
pub(crate) fn as_u64(value: &Value) -> (number: Option<u64>)
    ensures
        match number {
            Some(n) => json_of(*value) == Json::Int(n as int),
            None => !(json_of(*value) matches Json::Int(i) && 0 <= i <= u64::MAX),
        },
{
    value.as_u64()
}

/// `Value::is_null`: whether the document is the literal `null`.
#[verifier::external_body]
pub(crate) fn is_null(value: &Value) -> (null: bool)
    ensures
        null == (json_of(*value) is Null),
{
    value.is_null()
}

/// `Value`'s `Display`: the compact text of the document.
#[verifier::external_body]
pub(crate) fn print(value: &Value) -> (text: String)
    ensures
        text@ == json_text(json_of(*value)),
{
    value.to_string()
}

/// `serde_json::from_str`: the document that the text holds, or the parser's
/// error where the text is not JSON.
#[verifier::external_body]
pub(crate) fn parse(text: &str) -> (outcome: Result<Value, serde_json::Error>)
    ensures
        match outcome {
            Ok(v) => json_parsed(text@) == Ok::<Json, Seq<char>>(json_of(v)),
            Err(e) => json_parsed(text@) == Err::<Json, Seq<char>>(error_text(e)),
        },
{
    serde_json::from_str(text)
}

/// `serde_json::Error`'s `Display`: the parser's description of what it met.
#[verifier::external_body]
pub(crate) fn error_message(error: &serde_json::Error) -> (text: String)
    ensures
        text@ == error_text(*error),
{
    error.to_string()
}

/// The members of `object` with `value`, where there is one, set under `key`.
#[verifier::opaque]
pub open spec fn with_member(object: Members, key: Seq<char>, value: Option<Json>) -> Members {
    match value {
        Some(v) => object.insert(key, v),
        None => object,
    }
}

/// The member under `key` that carries a value: a member that is `null` counts
/// as absent.
#[verifier::opaque]
pub open spec fn member(object: Members, key: Seq<char>) -> Option<Json> {
    if object.contains_key(key) && !(object[key] is Null) {
        Some(object[key])
    } else {
        None
    }
}

/// Whether no member of an object is `null`.
#[verifier::opaque]
pub open spec fn no_null_members(object: Members) -> bool {
    forall|key: Seq<char>| #[trigger] object.contains_key(key) ==> !(object[key] is Null)
}

/// What it does to an object to set a member under a key that is not taken
/// yet: the new member reads as what was set, and every other key reads as
/// before. Where there is no value to set, the key stays free.
pub proof fn lemma_with_member(object: Members, key: Seq<char>, value: Option<Json>) -> (next:
    Members)
    requires
        !object.contains_key(key),
        value != Some(Json::Null),
    ensures
        next == with_member(object, key, value),
        member(next, key) == value,
        next.contains_key(key) == (value is Some),
        forall|other: Seq<char>|
            other != key ==> #[trigger] member(next, other) == member(object, other),
        forall|other: Seq<char>|
            other != key ==> #[trigger] next.contains_key(other) == object.contains_key(other),
{
    reveal(with_member);
    reveal(member);
    with_member(object, key, value)
}

/// Setting a member that is not `null` leaves an object without `null`
/// members as such.
pub proof fn lemma_with_member_no_null(
    object: Members,
    key: Seq<char>,
    value: Option<Json>,
) -> (next: Members)
    requires
        no_null_members(object),
        value != Some(Json::Null),
    ensures
        next == with_member(object, key, value),
        no_null_members(next),
{
    reveal(with_member);
    reveal(no_null_members);
    with_member(object, key, value)
}

/// In an object without `null` members, the keys are the members that carry a
/// value.
pub proof fn lemma_member_is_key(object: Members, key: Seq<char>)
    requires
        no_null_members(object),
    ensures
        object.contains_key(key) <==> member(object, key) is Some,
        object.contains_key(key) ==> member(object, key) == Some(object[key]),
{
    reveal(member);
    reveal(no_null_members);
}

/// Whether two strings hold the same text.
pub fn same_text(left: &str, right: &str) -> (same: bool)
    ensures
        same == (left@ == right@),
{
    left.to_owned() == right.to_owned()
}

/// A document that does not follow the schema it was read against.
#[derive(Debug, Clone, Copy, PartialEq, Eq, Structural)]
pub struct Mismatch;

/// Finds the member under `key` that carries a value.
pub fn find_member<'a>(object: &'a JsonObject, key: &str) -> (value: Option<&'a Value>)
    ensures
        match value {
            Some(v) => member(members_of(*object), key@) == Some(json_of(*v)),
            None => member(members_of(*object), key@) is None,
        },
{
    proof {
        reveal(member);
    }
    match get_member(object, key) {
        Some(v) => if is_null(v) {
            None
        } else {
            Some(v)
        },
        None => None,
    }
}

/// The document of an optional reference to a value.
pub open spec fn found(value: Option<&Value>) -> Option<Json> {
    match value {
        Some(v) => Some(json_of(*v)),
        None => None,
    }
}

} // verus!
