//! JSON values, carried as their text.
//!
//! Reading a member and writing an object are left to `serde_json`; what it
//! returns is named here, and the rest of the crate reasons over the names.

use vstd::prelude::*;
use crate::text::opt_view;

verus! {

/// A JSON value that is a leaf.
#[derive(Debug)]
pub enum JsonScalar {
    Null,
    Flag(bool),
    Int(i64),
    Text(String),
}

pub enum JsonScalarView {
    Null,
    Flag(bool),
    Int(i64),
    Text(Seq<char>),
}

impl View for JsonScalar {
    type V = JsonScalarView;

    open spec fn view(&self) -> JsonScalarView {
        match self {
            JsonScalar::Null => JsonScalarView::Null,
            JsonScalar::Flag(b) => JsonScalarView::Flag(*b),
            JsonScalar::Int(n) => JsonScalarView::Int(*n),
            JsonScalar::Text(s) => JsonScalarView::Text(s@),
        }
    }
}

/// The views of a list of named scalars.
pub open spec fn field_views(fields: Seq<(String, JsonScalar)>) -> Seq<(Seq<char>, JsonScalarView)> {
    fields.map_values(|f: (String, JsonScalar)| (f.0@, f.1@))
}

/// The text of the member `key` of the JSON object that `text` holds, as
/// `serde_json` writes it; nothing where `text` is not JSON, holds no object
/// or the object has no such member.
pub uninterp spec fn json_member(text: Seq<char>, key: Seq<char>) -> Option<Seq<char>>;

/// The string that the member `key` of the JSON object in `text` holds;
/// nothing where there is no such member or it is no string.
pub uninterp spec fn json_member_str(text: Seq<char>, key: Seq<char>) -> Option<Seq<char>>;

/// The number that the member `key` of the JSON object in `text` holds;
/// nothing where there is no such member or it is no integer from 0 to
/// 2^64 - 1.
pub uninterp spec fn json_member_u64(text: Seq<char>, key: Seq<char>) -> Option<u64>;

/// The text of the JSON object with the members `fields`, as `serde_json`
/// writes it.
pub uninterp spec fn json_object_text(fields: Seq<(Seq<char>, JsonScalarView)>) -> Seq<char>;

/// Parses `text` with `serde_json::from_str`, takes the member `key` with
/// `Value::get` and writes it back as text. The result depends on the two
/// texts alone.
#[verifier::external_body]
pub(crate) fn member(text: &str, key: &str) -> (r: Option<String>)
    ensures
        opt_view(r) == json_member(text@, key@),
{
    let value: serde_json::Value = serde_json::from_str(text).ok()?;
    value.get(key).map(|m| m.to_string())
}

/// Parses `text` with `serde_json::from_str`, takes the member `key` with
/// `Value::get` and reads it with `Value::as_str`. The result depends on the
/// two texts alone.
#[verifier::external_body]
pub(crate) fn member_str(text: &str, key: &str) -> (r: Option<String>)
    ensures
        opt_view(r) == json_member_str(text@, key@),
{
    let value: serde_json::Value = serde_json::from_str(text).ok()?;
    value.get(key).and_then(|m| m.as_str()).map(|s| s.to_string())
}

/// Parses `text` with `serde_json::from_str`, takes the member `key` with
/// `Value::get` and reads it with `Value::as_u64`. The result depends on the
/// two texts alone.
#[verifier::external_body]
pub(crate) fn member_u64(text: &str, key: &str) -> (r: Option<u64>)
    ensures
        r == json_member_u64(text@, key@),
{
    let value: serde_json::Value = serde_json::from_str(text).ok()?;
    value.get(key).and_then(|m| m.as_u64())
}

/// Fills a `serde_json::Map` with `fields`, one after the other, and writes
/// the object as text with `Value::to_string`. Of two fields with one name
/// the later stays, and the members are written in the order in which the
/// map keeps them, not in that of `fields`. The result depends on the fields
/// alone.
#[verifier::external_body]
pub(crate) fn object_text(fields: &Vec<(String, JsonScalar)>) -> (r: String)
    ensures
        r@ == json_object_text(field_views(fields@)),
{
    let mut map = serde_json::Map::new();
    for (key, value) in fields.iter() {
        let v = match value {
            JsonScalar::Null => serde_json::Value::Null,
            JsonScalar::Flag(b) => serde_json::Value::Bool(*b),
            JsonScalar::Int(n) => serde_json::Value::from(*n),
            JsonScalar::Text(s) => serde_json::Value::String(s.clone()),
        };
        map.insert(key.clone(), v);
    }
    serde_json::Value::Object(map).to_string()
}

} // verus!
