//! JSON values as the library builds and reads them: the tree, its
//! mathematical model, and its pretty-printed text.
use vstd::prelude::*;

verus! {

/// A JSON value of `serde_json`, the form the text is printed from.
#[verifier::external_type_specification]
#[verifier::external_body]
pub struct ExJsonValue(serde_json::Value);

/// A JSON value.  Numbers are integers (the data carries no fractions);
/// objects keep their members in the order given.
#[derive(Debug)]
pub enum Json {
    Null,
    Bool(bool),
    /// A negative or any signed integer.
    Int(i64),
    /// A non-negative integer beyond the signed range, or any unsigned one.
    UInt(u64),
    Str(String),
    Array(Vec<Json>),
    Object(Vec<(String, Json)>),
}

/// The model of a JSON value.
pub enum JsonV {
    Null,
    Bool(bool),
    Int(int),
    Str(Seq<char>),
    Array(Seq<JsonV>),
    Object(Seq<(Seq<char>, JsonV)>),
}

/// The model of a value.
pub open spec fn json_view(j: Json) -> JsonV
    decreases j,
{
    match j {
        Json::Null => JsonV::Null,
        Json::Bool(b) => JsonV::Bool(b),
        Json::Int(n) => JsonV::Int(n as int),
        Json::UInt(n) => JsonV::Int(n as int),
        Json::Str(s) => JsonV::Str(s@),
        Json::Array(v) => JsonV::Array(items_view(v@)),
        Json::Object(m) => JsonV::Object(members_view(m@)),
    }
}

/// The models of array items.
pub open spec fn items_view(s: Seq<Json>) -> Seq<JsonV>
    decreases s,
{
    if s.len() == 0 {
        Seq::empty()
    } else {
        items_view(s.drop_last()).push(json_view(s.last()))
    }
}

/// The models of object members.
pub open spec fn members_view(s: Seq<(String, Json)>) -> Seq<(Seq<char>, JsonV)>
    decreases s,
{
    if s.len() == 0 {
        Seq::empty()
    } else {
        members_view(s.drop_last()).push((s.last().0@, json_view(s.last().1)))
    }
}

impl View for Json {
    type V = JsonV;

    open spec fn view(&self) -> JsonV {
        json_view(*self)
    }
}

/// The text `serde_json::to_string_pretty` writes for a value with this
/// model (two-space indent; object members as `serde_json::Map` orders
/// them).
pub uninterp spec fn pretty_json_text(v: JsonV) -> Seq<char>;

/// The `serde_json::Value` of a library value, one node for one node: a
/// signed or unsigned integer becomes a JSON number of that value, a
/// string a JSON string, an array or object the array or map of the
/// converted children.
#[verifier::external_body]
pub(crate) fn serde_value(j: &Json) -> serde_json::Value {
    match j {
        Json::Null => serde_json::Value::Null,
        Json::Bool(b) => serde_json::Value::Bool(*b),
        Json::Int(n) => serde_json::Value::from(*n),
        Json::UInt(n) => serde_json::Value::from(*n),
        Json::Str(s) => serde_json::Value::String(s.clone()),
        Json::Array(v) => serde_json::Value::Array(v.iter().map(serde_value).collect()),
        Json::Object(m) => serde_json::Value::Object(
            m.iter().map(|(k, v)| (k.clone(), serde_value(v))).collect(),
        ),
    }
}

/// `serde_json::to_string_pretty` of the value.  Serialising a
/// `serde_json::Value` into memory cannot fail (its map keys are strings);
/// the error arm is never taken.  The text is a function of the value's
/// model alone.
#[verifier::external_body]
pub(crate) fn pretty_json(j: &Json) -> (s: String)
    ensures
        s@ == pretty_json_text(j@),
{
    serde_json::to_string_pretty(&serde_value(j)).unwrap_or_default()
}

} // verus!
