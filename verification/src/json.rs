//! A plain-value JSON tree, the library's own picture of what the artifact
//! parser returns, and the trusted parsing call that produces it.
//!
//! Object entries keep the order in which the parser hands them out; the
//! parser's maps iterate their keys in sorted order, so a decoded object's
//! entries are sorted by key.

use vstd::prelude::*;

verus! {

broadcast use vstd::std_specs::vec::group_vec_axioms;

/// A parsed JSON value, holding only plain values.
///
/// Numbers outside the unsigned 64-bit range (negative or fractional) appear
/// as `NumOther`: the artifact schema has no use for them, and decoding any
/// field from one fails.
#[derive(Debug, PartialEq)]
pub enum Json {
    Null,
    Bool(bool),
    UInt(u64),
    NumOther,
    Str(String),
    Arr(Vec<Json>),
    Obj(Vec<(String, Json)>),
}

/// The mathematical shape of a [`Json`] value.
#[verifier::ext_equal]
pub enum JsonV {
    Null,
    Bool(bool),
    UInt(u64),
    NumOther,
    Str(Seq<char>),
    Arr(Seq<JsonV>),
    Obj(Seq<(Seq<char>, JsonV)>),
}

/// The shape of a [`Json`] value, structurally: strings become their
/// character sequences, arrays and objects their element sequences.
pub open spec fn json_view(j: Json) -> JsonV
    decreases j,
{
    match j {
        Json::Null => JsonV::Null,
        Json::Bool(b) => JsonV::Bool(b),
        Json::UInt(n) => JsonV::UInt(n),
        Json::NumOther => JsonV::NumOther,
        Json::Str(s) => JsonV::Str(s@),
        Json::Arr(items) => JsonV::Arr(
            Seq::new(
                items@.len(),
                |i: int|
                    if 0 <= i < items@.len() {
                        json_view(items@[i])
                    } else {
                        JsonV::Null
                    },
            ),
        ),
        Json::Obj(entries) => JsonV::Obj(
            Seq::new(
                entries@.len(),
                |i: int|
                    if 0 <= i < entries@.len() {
                        (entries@[i].0@, json_view(entries@[i].1))
                    } else {
                        (Seq::empty(), JsonV::Null)
                    },
            ),
        ),
    }
}

impl DeepView for Json {
    type V = JsonV;

    open spec fn deep_view(&self) -> JsonV {
        json_view(*self)
    }
}

/// What the JSON parser returns on a given text: `None` where the text is not
/// a single well-formed JSON value, the parsed tree otherwise.
pub uninterp spec fn json_parse(s: Seq<char>) -> Option<JsonV>;

/// Declares the parser's value type; the library only converts out of it.
#[verifier::external_type_specification]
#[verifier::external_body]
pub struct ExValue(serde_json::Value);

/// Relies on `serde_json::Value`'s variants: the conversion moves each one to
/// the matching [`Json`] variant, numbers outside `u64` to `NumOther`.
#[verifier::external_body]
fn json_of_value(v: serde_json::Value) -> Json {
    match v {
        serde_json::Value::Null => Json::Null,
        serde_json::Value::Bool(b) => Json::Bool(b),
        serde_json::Value::Number(n) => match n.as_u64() {
            Some(u) => Json::UInt(u),
            None => Json::NumOther,
        },
        serde_json::Value::String(s) => Json::Str(s),
        serde_json::Value::Array(a) => Json::Arr(a.into_iter().map(json_of_value).collect()),
        serde_json::Value::Object(m) => Json::Obj(
            m.into_iter().map(|(k, v)| (k, json_of_value(v))).collect(),
        ),
    }
}

/// Relies on `serde_json::from_str::<serde_json::Value>`: parsing succeeds or
/// fails on the text alone, and the parsed tree is a function of the text.
#[verifier::external_body]
pub(crate) fn parse_json(s: &str) -> (r: Option<Json>)
    ensures
        r is Some <==> json_parse(s@) is Some,
        r matches Some(j) ==> json_parse(s@) == Some(j.deep_view()),
{
    serde_json::from_str::<serde_json::Value>(s).ok().map(json_of_value)
}

} // verus!
