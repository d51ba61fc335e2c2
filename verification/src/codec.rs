//! The trusted boundary between [`crate::json::Json`] and JSON text.
//!
//! Parsing and rendering of JSON text are the serialization library's work,
//! not this crate's: `serde_json` does both, behind the two wrappers below.
//! Their results are named by the uninterpreted functions [`parsed_json`] and
//! [`json_text`]; everything downstream of them is verified against those
//! names.

use vstd::prelude::*;
use serde_json::Value as SerdeValue;
use crate::json::{Json, JsonV};

verus! {

#[verifier::external_type_specification]
#[verifier::external_body]
pub struct ExValue(serde_json::Value);

/// The document that `serde_json` reads out of a text, if any.  Texts that
/// `serde_json` rejects, and texts holding a number that is not an unsigned
/// 64-bit integer, have no document.
pub uninterp spec fn parsed_json(s: Seq<char>) -> Option<JsonV>;

/// The text that `serde_json` writes for a document.  Object fields are
/// emitted in `serde_json`'s map order, so the text depends on the document
/// alone.
pub uninterp spec fn json_text(j: JsonV) -> Seq<char>;

/// Relies on serde_json::value::Value: each variant is carried over
/// one-for-one; a number that is not an unsigned 64-bit integer has no
/// counterpart in [`Json`] and yields `None`.
#[verifier::external_body]
fn from_value(v: SerdeValue) -> Option<Json> {
    match v {
        SerdeValue::Null => Some(Json::Null),
        SerdeValue::Bool(b) => Some(Json::Bool(b)),
        SerdeValue::Number(n) => Some(Json::UInt(n.as_u64()?)),
        SerdeValue::String(s) => Some(Json::Str(s)),
        SerdeValue::Array(a) => {
            Some(Json::Arr(a.into_iter().map(from_value).collect::<Option<Vec<Json>>>()?))
        },
        SerdeValue::Object(m) => {
            let conv = |(k, x): (String, SerdeValue)| Some((k, from_value(x)?));
            Some(Json::Obj(m.into_iter().map(conv).collect::<Option<Vec<(String, Json)>>>()?))
        },
    }
}

/// Relies on serde_json::value::Value: each variant is carried over
/// one-for-one.
#[verifier::external_body]
fn to_value(j: &Json) -> SerdeValue {
    match j {
        Json::Null => SerdeValue::Null,
        Json::Bool(b) => SerdeValue::Bool(*b),
        Json::UInt(n) => SerdeValue::Number(serde_json::Number::from(*n)),
        Json::Str(s) => SerdeValue::String(s.clone()),
        Json::Arr(a) => SerdeValue::Array(a.iter().map(to_value).collect()),
        Json::Obj(o) => SerdeValue::Object(
            o.iter().map(|(k, x)| (k.clone(), to_value(x))).collect(),
        ),
    }
}

/// Relies on serde_json::from_str: what a JSON text parses to depends on the
/// text alone.
#[verifier::external_body]
pub(crate) fn parse_json(s: &str) -> (r: Option<Json>)
    ensures
        match r {
            Some(j) => parsed_json(s@) == Some(j@),
            None => parsed_json(s@) is None,
        },
{
    match serde_json::from_str::<serde_json::Value>(s) {
        Ok(v) => from_value(v),
        Err(_) => None,
    }
}

/// Relies on serde_json::to_string: what a document renders to depends on the
/// document alone.
#[verifier::external_body]
pub(crate) fn render_json(j: &Json) -> (r: String)
    ensures
        r@ == json_text(j@),
{
    match serde_json::to_string(&to_value(j)) {
        Ok(s) => s,
        Err(_) => String::new(),
    }
}

} // verus!
