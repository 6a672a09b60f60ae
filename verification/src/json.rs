//! JSON values as the client reads and writes them.
//!
//! `serde_json::Value` is opaque to the verifier. Its content is named by
//! [`json_view`], a mathematical [`Json`] tree, and every accessor and
//! constructor the client uses is given a contract over that tree. None of
//! those contracts is proved here: each restates what `serde_json` does.

use vstd::prelude::*;

verus! {

/// The mathematical content of a JSON document.
///
/// A number that is stored as an integer is an `Int`; any other number is a
/// `Float`, identified by the bit pattern of its double.
pub enum Json {
    Null,
    Bool(bool),
    Int(int),
    Float(u64),
    Str(Seq<char>),
    Array(Seq<Json>),
    Object(Map<Seq<char>, Json>),
}

/// The member of `j` stored under `key`, if `j` is an object that has one.
pub open spec fn json_member(j: Json, key: Seq<char>) -> Option<Json> {
    match j {
        Json::Object(members) => if members.contains_key(key) {
            Some(members[key])
        } else {
            None
        },
        _ => None,
    }
}

/// The members of an object that has none.
pub open spec fn no_members() -> Map<Seq<char>, Json> {
    Map::empty()
}

/// The contents of a slice of values, element by element.
pub open spec fn json_views(values: Seq<serde_json::Value>) -> Seq<Json> {
    Seq::new(values.len(), |i: int| json_view(values[i]))
}

/// `serde_json::Value`: any JSON document.
#[verifier::external_type_specification]
#[verifier::external_body]
pub struct ExValue(serde_json::Value);

/// `serde_json::Map`: the members of a JSON object.
#[verifier::external_type_specification]
#[verifier::external_body]
#[verifier::reject_recursive_types(K)]
#[verifier::reject_recursive_types(V)]
pub struct ExMap<K, V>(serde_json::Map<K, V>);

/// `serde_json::Error`, carried through as it comes.
#[verifier::external_type_specification]
#[verifier::external_body]
pub struct ExJsonError(serde_json::Error);

/// The content of a `serde_json::Value`.
pub uninterp spec fn json_view(value: serde_json::Value) -> Json;

/// The members held by a `serde_json::Map`, by key.
pub uninterp spec fn members_view(members: serde_json::Map<String, serde_json::Value>) -> Map<Seq<char>, Json>;

/// The document that `serde_json::from_slice` reads from `text`, or `None`
/// where it rejects the text.
pub uninterp spec fn json_parse(text: Seq<u8>) -> Option<Json>;

/// The compact text that `serde_json::to_vec` writes for a document.
pub uninterp spec fn json_text(j: Json) -> Seq<u8>;

/// `serde_json::Value::as_bool`: the boolean held by a `Bool`, nothing for
/// any other kind of value.
pub assume_specification[ serde_json::Value::as_bool ](value: &serde_json::Value) -> (b: Option<bool>)
    ensures
        b == match json_view(*value) {
            Json::Bool(x) => Some(x),
            _ => None,
        },
;

/// `serde_json::Value::as_i64`: the integer held by a number that is stored
/// as an integer and fits in 64 signed bits, nothing for any other value.
pub assume_specification[ serde_json::Value::as_i64 ](value: &serde_json::Value) -> (n: Option<i64>)
    ensures
        match json_view(*value) {
            Json::Int(x) if i64::MIN <= x <= i64::MAX => n == Some(x as i64),
            _ => n is None,
        },
;

/// `serde_json::Value::as_str`: the text held by a `String`, nothing for any
/// other kind of value.
pub assume_specification<'a>[ serde_json::Value::as_str ](value: &'a serde_json::Value) -> (s: Option<&'a str>)
    ensures
        match json_view(*value) {
            Json::Str(x) => s is Some && s->0@ == x,
            _ => s is None,
        },
;

/// `serde_json::Value::as_array`: the elements held by an `Array`, in order,
/// nothing for any other kind of value.
pub assume_specification<'a>[ serde_json::Value::as_array ](value: &'a serde_json::Value) -> (a: Option<&'a Vec<serde_json::Value>>)
    ensures
        match json_view(*value) {
            Json::Array(items) => a is Some && json_views(a->0@) == items,
            _ => a is None,
        },
;

/// `serde_json::Value::is_null`: whether the value is `Null`.
pub assume_specification[ serde_json::Value::is_null ](value: &serde_json::Value) -> (b: bool)
    ensures
        b == (json_view(*value) is Null),
;

/// `serde_json::Value::get` with a string index: the member of an object
/// under `key`, nothing where the value is no object or has no such member.
#[verifier::external_body]
pub(crate) fn member<'a>(value: &'a serde_json::Value, key: &str) -> (m: Option<&'a serde_json::Value>)
    ensures
        match json_member(json_view(*value), key@) {
            Some(x) => m is Some && json_view(*m->0) == x,
            None => m is None,
        },
{
    value.get(key)
}

/// `serde_json::from_slice` into a `Value`: the document read from `text`,
/// or the error with which the text is rejected.
#[verifier::external_body]
pub(crate) fn parse(text: &[u8]) -> (r: Result<serde_json::Value, serde_json::Error>)
    ensures
        match r {
            Ok(value) => json_parse(text@) == Some(json_view(value)),
            Err(_) => json_parse(text@) is None,
        },
{
    serde_json::from_slice::<serde_json::Value>(text)
}

/// `serde_json::to_vec` of a `Value`: the compact text of the document.
/// Writing a `Value` into a vector of bytes never fails: its keys are
/// strings, its numbers are finite, and the vector takes every byte.
#[verifier::external_body]
pub(crate) fn render(value: &serde_json::Value) -> (r: Result<Vec<u8>, serde_json::Error>)
    ensures
        r is Ok,
        r->Ok_0@ == json_text(json_view(*value)),
{
    serde_json::to_vec(value)
}

/// `serde_json::Value::from` of an `i64`: the number, stored as an integer.
#[verifier::external_body]
pub(crate) fn int_value(n: i64) -> (value: serde_json::Value)
    ensures
        json_view(value) == Json::Int(n as int),
{
    serde_json::Value::from(n)
}

/// `serde_json::Value::from` of a `&str`: a `String` holding a copy of the text.
#[verifier::external_body]
pub(crate) fn str_value(s: &str) -> (value: serde_json::Value)
    ensures
        json_view(value) == Json::Str(s@),
{
    serde_json::Value::from(s)
}

/// `serde_json::Value::from` of a `Map`: an `Object` holding its members.
#[verifier::external_body]
pub(crate) fn object_value(members: serde_json::Map<String, serde_json::Value>) -> (value: serde_json::Value)
    ensures
        json_view(value) == Json::Object(members_view(members)),
{
    serde_json::Value::from(members)
}

/// `serde_json::Map::new`: a map without members.
pub assume_specification[ serde_json::Map::<String, serde_json::Value>::new ]() -> (members: serde_json::Map<String, serde_json::Value>)
    ensures
        members_view(members) == no_members(),
;

/// `serde_json::Map::insert`: stores `v` under `k`, replacing the member
/// that was there, and hands back the member replaced, if there was one.
pub assume_specification[ serde_json::Map::<String, serde_json::Value>::insert ](
    members: &mut serde_json::Map<String, serde_json::Value>,
    k: String,
    v: serde_json::Value,
) -> (replaced: Option<serde_json::Value>)
    ensures
        members_view(*final(members)) == members_view(*old(members)).insert(k@, json_view(v)),
        match replaced {
            Some(x) => members_view(*old(members)).contains_key(k@)
                && json_view(x) == members_view(*old(members))[k@],
            None => !members_view(*old(members)).contains_key(k@),
        },
;

} // verus!
