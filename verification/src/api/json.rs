//! The boundary to `serde_json`: a mathematical model of JSON values and the
//! contracts under which the rest of the crate reads, builds, parses and
//! prints them.
//!
//! Nothing in this file is proved. Every item states what the named
//! `serde_json` function does; the verified modules rest on these statements.

use vstd::prelude::*;

verus! {

#[verifier::external_type_specification]
#[verifier::external_body]
pub struct ExValue(serde_json::Value);

#[verifier::external_type_specification]
#[verifier::external_body]
pub struct ExJsonError(serde_json::Error);

/// A JSON number as `serde_json` holds it: an unsigned integer, a negative
/// integer, or a double (named here by its bit pattern).
pub enum JsonNumber {
    Unsigned(u64),
    Negative(i64),
    Double(u64),
}

/// A JSON value as a mathematical tree.
pub enum Json {
    Null,
    Bool(bool),
    Number(JsonNumber),
    Text(Seq<char>),
    Array(Seq<Json>),
    Object(Map<Seq<char>, Json>),
}

/// The tree that a `serde_json::Value` holds.
pub uninterp spec fn json_of(v: serde_json::Value) -> Json;

/// What `serde_json::from_str` makes of a text: the parsed tree, or `None`
/// where it reports an error.
pub uninterp spec fn json_from_text(text: Seq<char>) -> Option<Json>;

/// What `serde_json::from_reader` makes of a byte string: the parsed tree, or
/// `None` where it reports an error.
pub uninterp spec fn json_from_bytes(bytes: Seq<u8>) -> Option<Json>;

/// The compact text that `serde_json` prints for a tree.
pub uninterp spec fn json_text(j: Json) -> Seq<char>;

impl Json {
    /// The member `key` of an object; `None` for a missing key and for
    /// anything that is not an object.
    pub open spec fn get(self, key: Seq<char>) -> Option<Json> {
        match self {
            Json::Object(members) => if members.contains_key(key) {
                Some(members[key])
            } else {
                None
            },
            _ => None,
        }
    }

    /// The member `key` where it is there and not `null`.
    pub open spec fn field(self, key: Seq<char>) -> Option<Json> {
        match self.get(key) {
            Some(Json::Null) => None,
            other => other,
        }
    }

    pub open spec fn as_text(self) -> Option<Seq<char>> {
        match self {
            Json::Text(s) => Some(s),
            _ => None,
        }
    }

    pub open spec fn as_u64(self) -> Option<u64> {
        match self {
            Json::Number(JsonNumber::Unsigned(n)) => Some(n),
            _ => None,
        }
    }

    pub open spec fn as_bool(self) -> Option<bool> {
        match self {
            Json::Bool(b) => Some(b),
            _ => None,
        }
    }

    pub open spec fn as_array(self) -> Option<Seq<Json>> {
        match self {
            Json::Array(items) => Some(items),
            _ => None,
        }
    }

    /// The object with exactly the given members. Meaningful where no key
    /// occurs twice.
    pub open spec fn object_of(entries: Seq<(Seq<char>, Json)>) -> Json {
        Json::Object(
            Map::new(
                |k: Seq<char>| exists|i: int| has_key_at(entries, k, i),
                |k: Seq<char>| entries[choose|i: int| has_key_at(entries, k, i)].1,
            ),
        )
    }
}

/// Whether entry `i` has the key `k`.
pub open spec fn has_key_at(entries: Seq<(Seq<char>, Json)>, k: Seq<char>, i: int) -> bool {
    0 <= i < entries.len() && entries[i].0 == k
}

/// Whether no two of the entries share a key.
pub open spec fn distinct_keys(entries: Seq<(Seq<char>, Json)>) -> bool {
    forall|i: int, j: int|
        0 <= i < j < entries.len() ==> #[trigger] entries[i].0 != #[trigger] entries[j].0
}

/// The entries of an executable list, as the model sees them.
pub open spec fn entries_of(entries: Seq<(String, serde_json::Value)>) -> Seq<(Seq<char>, Json)> {
    Seq::new(entries.len(), |i: int| (entries[i].0@, json_of(entries[i].1)))
}

/// `Value::is_null`: true exactly for `null`.
pub assume_specification[ serde_json::Value::is_null ](v: &serde_json::Value) -> (r: bool)
    ensures
        r == (json_of(*v) is Null),
;

/// `Value::is_object`: true exactly for an object.
pub assume_specification[ serde_json::Value::is_object ](v: &serde_json::Value) -> (r: bool)
    ensures
        r == (json_of(*v) is Object),
;

/// `Value::as_str`: the text of a string, `None` for every other value.
pub assume_specification[ serde_json::Value::as_str ](v: &serde_json::Value) -> (r: Option<&str>)
    ensures
        r is Some == json_of(*v).as_text() is Some,
        r is Some ==> r->0@ == json_of(*v).as_text()->0,
;

/// `Value::as_u64`: the value of an unsigned integer, `None` for a negative
/// integer, a double and every value that is not a number.
pub assume_specification[ serde_json::Value::as_u64 ](v: &serde_json::Value) -> (r: Option<u64>)
    ensures
        r == json_of(*v).as_u64(),
;

/// `Value::as_bool`: the value of a boolean, `None` for every other value.
pub assume_specification[ serde_json::Value::as_bool ](v: &serde_json::Value) -> (r: Option<bool>)
    ensures
        r == json_of(*v).as_bool(),
;

/// `Value::as_array`: the items of an array in their order, `None` for every
/// other value.
pub assume_specification[ serde_json::Value::as_array ](v: &serde_json::Value) -> (r: Option<
    &Vec<serde_json::Value>,
>)
    ensures
        r is Some == json_of(*v).as_array() is Some,
        r is Some ==> r->0@.len() == json_of(*v).as_array()->0.len(),
        r is Some ==> forall|i: int|
            0 <= i < r->0@.len() ==> json_of(#[trigger] r->0@[i]) == json_of(*v).as_array()->0[i],
;

/// The derived `Clone` of `Value`: the copy holds the same tree.
pub assume_specification[ <serde_json::Value as Clone>::clone ](v: &serde_json::Value) -> (r:
    serde_json::Value)
    ensures
        json_of(r) == json_of(*v),
;

/// `Value::get` with a string index: the member of an object under that key,
/// `None` where the key is missing or the value is no object.
#[verifier::external_body]
pub(crate) fn member<'a>(v: &'a serde_json::Value, key: &str) -> (r: Option<&'a serde_json::Value>)
    ensures
        r is Some == json_of(*v).get(key@) is Some,
        r is Some ==> json_of(*r->0) == json_of(*v).get(key@)->0,
{
    v.get(key)
}

/// `serde_json::from_str` for a `Value`: succeeds exactly where the text
/// parses, with the parsed tree.
#[verifier::external_body]
pub(crate) fn parse_text(text: &str) -> (r: Result<serde_json::Value, serde_json::Error>)
    ensures
        r is Ok == json_from_text(text@) is Some,
        r is Ok ==> json_of(r->Ok_0) == json_from_text(text@)->0,
{
    serde_json::from_str::<serde_json::Value>(text)
}

/// `serde_json::from_reader` for a `Value`, reading from a byte slice:
/// succeeds exactly where the bytes parse, with the parsed tree.
#[verifier::external_body]
pub(crate) fn parse_bytes(bytes: &[u8]) -> (r: Result<serde_json::Value, serde_json::Error>)
    ensures
        r is Ok == json_from_bytes(bytes@) is Some,
        r is Ok ==> json_of(r->Ok_0) == json_from_bytes(bytes@)->0,
{
    serde_json::from_reader::<&[u8], serde_json::Value>(bytes)
}

/// `Value`'s `Display` through `to_string`: the compact text of the tree.
#[verifier::external_body]
pub(crate) fn print(v: &serde_json::Value) -> (r: String)
    ensures
        r@ == json_text(json_of(*v)),
{
    v.to_string()
}

/// The constant `Value::Null`.
#[verifier::external_body]
pub(crate) fn null_value() -> (r: serde_json::Value)
    ensures
        json_of(r) == Json::Null,
{
    serde_json::Value::Null
}

/// `Value::from` for a `bool`: the boolean itself.
#[verifier::external_body]
pub(crate) fn bool_value(b: bool) -> (r: serde_json::Value)
    ensures
        json_of(r) == Json::Bool(b),
{
    serde_json::Value::from(b)
}

/// `Value::from` for a `u64`: the unsigned integer itself.
#[verifier::external_body]
pub(crate) fn number_value(n: u64) -> (r: serde_json::Value)
    ensures
        json_of(r) == Json::Number(JsonNumber::Unsigned(n)),
{
    serde_json::Value::from(n)
}

/// `Value::from` for a `&str`: a string with the same text.
#[verifier::external_body]
pub(crate) fn text_value(s: &str) -> (r: serde_json::Value)
    ensures
        json_of(r) == Json::Text(s@),
{
    serde_json::Value::from(s)
}

/// `Value`'s `FromIterator` over key-value pairs: the object with these
/// members. Stated for keys that are all different.
#[verifier::external_body]
pub(crate) fn object_value(entries: Vec<(String, serde_json::Value)>) -> (r: serde_json::Value)
    requires
        distinct_keys(entries_of(entries@)),
    ensures
        json_of(r) == Json::object_of(entries_of(entries@)),
{
    entries.into_iter().collect()
}

} // verus!
