//! The trusted parsing boundary.
//!
//! Generic JSON parsing is done by serde_json; everything after it is
//! verified against the `JsonSpec` model.  What a given text parses to is
//! named by the uninterpreted function `json_of`, which is sound because the
//! parse is a function of the text alone: serde_json's document model is
//! deterministic (its object map is a `BTreeMap`, its number texts come from
//! fixed formatting routines).

use vstd::prelude::*;
use crate::json::{Json, JsonSpec};

verus! {

/// Declares serde_json::Value so that the conversion below may mention it;
/// the type stays opaque.
#[verifier::external_type_specification]
#[verifier::external_body]
pub struct ExValue(serde_json::Value);

/// The JSON tree, in this crate's model, that a text parses to: `None` for a
/// text that is not one well-formed JSON document.
pub uninterp spec fn json_of(t: Seq<char>) -> Option<JsonSpec>;

/// Relies on serde_json::Value having exactly six variants; each is moved,
/// one for one, into this crate's model, a number as the decimal text that
/// serde_json prints for it.
#[verifier::external_body]
fn value_to_tree(v: serde_json::Value) -> Json {
    match v {
        serde_json::Value::Null => Json::Null,
        serde_json::Value::Bool(b) => Json::Bool(b),
        serde_json::Value::Number(n) => Json::Num(n.to_string()),
        serde_json::Value::String(s) => Json::Str(s),
        serde_json::Value::Array(a) => Json::Arr(a.into_iter().map(value_to_tree).collect()),
        serde_json::Value::Object(o) => {
            Json::Obj(o.into_iter().map(|p| (p.0, value_to_tree(p.1))).collect())
        },
    }
}

/// Relies on serde_json::from_str: parses the text as one JSON document, or
/// fails on malformed text; the outcome depends on the text alone.
#[verifier::external_body]
pub(crate) fn parse_json(text: &str) -> (r: Option<Json>)
    ensures
        match r {
            Some(j) => json_of(text@) == Some(j@),
            None => json_of(text@) is None,
        },
{
    match serde_json::from_str::<serde_json::Value>(text) {
        Ok(v) => Some(value_to_tree(v)),
        Err(_) => None,
    }
}

} // verus!
