//! Trusted extraction of fields from the JSON replies of the two daemons,
//! through serde_json. Full JSON parsing takes pages to state, so each
//! extraction's result is given a name: a function of the reply text alone.

use vstd::prelude::*;

verus! {

/// The view of an optional `String`.
pub open spec fn opt_view(o: Option<String>) -> Option<Seq<char>> {
    match o {
        Some(s) => Some(s@),
        None => None,
    }
}

/// The views of an optional list of `String`s.
pub open spec fn opt_names_view(o: Option<Vec<String>>) -> Option<Seq<Seq<char>>> {
    match o {
        Some(v) => Some(v@.map_values(|s: String| s@)),
        None => None,
    }
}

/// The string value of the top-level `response` field, when `body` parses as
/// a JSON object carrying one.
pub uninterp spec fn generate_reply_text(body: Seq<char>) -> Option<Seq<char>>;

/// Relies on serde_json: parses `body` and hands out the string value of its
/// top-level `response` field. The result depends on `body` alone.
#[verifier::external_body]
pub(crate) fn extract_generate_text(body: &String) -> (r: Option<String>)
    ensures
        opt_view(r) == generate_reply_text(body@),
{
    let v: serde_json::Value = serde_json::from_str(body).ok()?;
    Some(v.get("response")?.as_str()?.to_string())
}

/// The string value at `choices[0].message.content`, when `body` parses as a
/// JSON object carrying one.
pub uninterp spec fn chat_reply_text(body: Seq<char>) -> Option<Seq<char>>;

/// Relies on serde_json: parses `body` and hands out the string value at
/// `choices[0].message.content`. The result depends on `body` alone.
#[verifier::external_body]
pub(crate) fn extract_chat_text(body: &String) -> (r: Option<String>)
    ensures
        opt_view(r) == chat_reply_text(body@),
{
    let v: serde_json::Value = serde_json::from_str(body).ok()?;
    Some(v.pointer("/choices/0/message/content")?.as_str()?.to_string())
}

/// The `name` field of each element of the top-level `models` array, when
/// `body` parses as a JSON object carrying such an array.
pub uninterp spec fn model_list_names(body: Seq<char>) -> Option<Seq<Seq<char>>>;

/// Relies on serde_json: parses `body` and hands out the `name` string of
/// each element of its `models` array; `None` when the body does not parse
/// as such an object or some element lacks a `name` string. The result
/// depends on `body` alone.
#[verifier::external_body]
pub(crate) fn extract_model_names(body: &String) -> (r: Option<Vec<String>>)
    ensures
        opt_names_view(r) == model_list_names(body@),
{
    let v: serde_json::Value = serde_json::from_str(body).ok()?;
    let arr = v.get("models")?.as_array()?;
    let mut names: Vec<String> = Vec::new();
    for item in arr {
        names.push(item.get("name")?.as_str()?.to_string());
    }
    Some(names)
}

} // verus!
