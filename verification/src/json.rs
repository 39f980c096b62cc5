//! A mathematical model of JSON documents, and the trusted boundary to the
//! `serde_json` crate, which parses wire text into `serde_json::Value` trees.
//!
//! The model assigns every `serde_json::Value` a [`Json`] tree, and every
//! wire text the `Json` tree it parses to (or none). All verified reasoning
//! about frames happens on `Json`; the functions below that carry the
//! `#[verifier::external_body]` attribute are the only places where the
//! library believes something about `serde_json` without proof.

use vstd::prelude::*;

verus! {

/// The mathematical content of one JSON document.
///
/// Objects are maps from key to value: the parser resolves duplicate keys
/// before the library ever sees them, and key order carries no meaning.
pub ghost enum Json {
    Null,
    Bool(bool),
    Num(NumRep),
    Str(Seq<char>),
    Arr(Seq<Json>),
    Obj(Map<Seq<char>, Json>),
}

/// The content of one JSON number, as `serde_json` stores it.
///
/// An integer literal that fits is kept exactly: `UInt` for `0` through
/// `u64::MAX`, `NInt` for negative integers down to `i64::MIN` (always a
/// negative value). Every other number (a fraction, an exponent, an
/// out-of-range integer) is held as a double; `Dbl` carries its shortest
/// decimal rendering, which identifies the double exactly.
pub ghost enum NumRep {
    UInt(u64),
    NInt(i64),
    Dbl(Seq<char>),
}

/// The `Json` tree that a wire text parses to, or `None` where the text is
/// not a JSON document that the parser accepts. Parsing is a pure function
/// of the text alone.
pub uninterp spec fn parsed(s: Seq<char>) -> Option<Json>;

/// The model of a `serde_json::Value` tree.
pub uninterp spec fn json_model(v: serde_json::Value) -> Json;

/// The model of a `serde_json::Number`.
pub uninterp spec fn num_model(n: serde_json::Number) -> NumRep;

#[verifier::external_type_specification]
#[verifier::external_body]
pub struct ExValue(serde_json::Value);

#[verifier::external_type_specification]
#[verifier::external_body]
pub struct ExNumber(serde_json::Number);

/// Relies on `serde_json::from_str::<Value>`: parses one JSON document,
/// deterministically in the input text.
#[verifier::external_body]
pub(crate) fn parse_json(s: &str) -> (r: Option<serde_json::Value>)
    ensures
        match r {
            Some(v) => parsed(s@) == Some(json_model(v)),
            None => parsed(s@) is None,
        },
{
    serde_json::from_str::<serde_json::Value>(s).ok()
}

/// Relies on `serde_json::Map::get`: looks a key up in an object's map.
#[verifier::external_body]
pub(crate) fn get_field<'a>(v: &'a serde_json::Value, key: &str) -> (r: Option<
    &'a serde_json::Value,
>)
    ensures
        match r {
            Some(f) => (json_model(*v) matches Json::Obj(m) && m.contains_key(key@)
                && json_model(*f) == m[key@]),
            None => match json_model(*v) {
                Json::Obj(m) => !m.contains_key(key@),
                _ => true,
            },
        },
{
    match v {
        serde_json::Value::Object(m) => m.get(key),
        _ => None,
    }
}

/// Relies on `serde_json::Value::as_str`: the content of a string value.
#[verifier::external_body]
pub(crate) fn get_str<'a>(v: &'a serde_json::Value) -> (r: Option<&'a str>)
    ensures
        match r {
            Some(t) => json_model(*v) == Json::Str(t@),
            None => !(json_model(*v) is Str),
        },
{
    v.as_str()
}

/// Relies on `serde_json::Value::as_u64`: the value of a number stored as a
/// nonnegative integer; `None` for every other value.
#[verifier::external_body]
pub(crate) fn get_u64(v: &serde_json::Value) -> (r: Option<u64>)
    ensures
        match json_model(*v) {
            Json::Num(rep) => r == (match rep {
                NumRep::UInt(n) => Some(n),
                _ => None::<u64>,
            }),
            _ => r is None,
        },
{
    v.as_u64()
}

/// Relies on `serde_json::Value::as_i64`: the value of a number stored as an
/// integer that fits in `i64`; `None` for every other value.
#[verifier::external_body]
pub(crate) fn get_i64(v: &serde_json::Value) -> (r: Option<i64>)
    ensures
        match json_model(*v) {
            Json::Num(rep) => r == (match rep {
                NumRep::UInt(n) => if n <= i64::MAX as u64 {
                    Some(n as i64)
                } else {
                    None::<i64>
                },
                NumRep::NInt(n) => Some(n),
                NumRep::Dbl(_) => None::<i64>,
            }),
            _ => r is None,
        },
{
    v.as_i64()
}

/// Relies on `serde_json::Value::as_bool`: the content of a boolean value.
#[verifier::external_body]
pub(crate) fn get_bool(v: &serde_json::Value) -> (r: Option<bool>)
    ensures
        match json_model(*v) {
            Json::Bool(b) => r == Some(b),
            _ => r is None,
        },
{
    v.as_bool()
}

/// Relies on `serde_json::Value::is_null`.
#[verifier::external_body]
pub(crate) fn is_null(v: &serde_json::Value) -> (r: bool)
    ensures
        r == (json_model(*v) is Null),
{
    v.is_null()
}

/// Relies on `serde_json::Value::Array`'s representation: the elements of an
/// array value, in order.
#[verifier::external_body]
pub(crate) fn get_array<'a>(v: &'a serde_json::Value) -> (r: Option<&'a Vec<serde_json::Value>>)
    ensures
        match r {
            Some(a) => (json_model(*v) matches Json::Arr(s) && a@.len() == s.len() && forall|
                i: int,
            |
                0 <= i < s.len() ==> json_model(#[trigger] a@[i]) == s[i]),
            None => !(json_model(*v) is Arr),
        },
{
    match v {
        serde_json::Value::Array(a) => Some(a),
        _ => None,
    }
}

/// Relies on `serde_json::Value::Number`'s representation and
/// `serde_json::Number::clone`: the number held by a number value.
#[verifier::external_body]
pub(crate) fn get_number(v: &serde_json::Value) -> (r: Option<serde_json::Number>)
    ensures
        match r {
            Some(n) => json_model(*v) == Json::Num(num_model(n)),
            None => !(json_model(*v) is Num),
        },
{
    match v {
        serde_json::Value::Number(n) => Some(n.clone()),
        _ => None,
    }
}

/// Relies on `serde_json::Value::clone`: a clone is the same tree.
pub assume_specification[ <serde_json::Value as Clone>::clone ](v: &serde_json::Value) -> (r:
    serde_json::Value)
    ensures
        json_model(r) == json_model(*v),
;

/// Relies on `serde_json::Number::clone`: a clone is the same number.
pub assume_specification[ <serde_json::Number as Clone>::clone ](n: &serde_json::Number) -> (r:
    serde_json::Number)
    ensures
        num_model(r) == num_model(*n),
;

/// Relies on `str`'s `PartialEq`: equality of two string slices is equality
/// of their characters.
#[verifier::external_body]
pub(crate) fn str_eq(a: &str, b: &str) -> (r: bool)
    ensures
        r == (a@ == b@),
{
    a == b
}

} // verus!
