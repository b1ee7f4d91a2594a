//! Trusted boundary to the JSON reader.
//!
//! The downloader's progress lines and the enrichment call's response
//! body arrive as JSON text.  Decoding is the JSON crate's job, and
//! each extraction the core needs is a function of the text alone, so
//! its result is given a name; everything done with a named result —
//! the percentage grammar, the skip-or-apply merge — is verified.

use crate::model::view_opt;
use vstd::prelude::*;

verus! {

/// Whether `s` parses as one JSON document; parsing is a function of
/// the text alone.
pub uninterp spec fn json_document(s: Seq<char>) -> bool;

/// The text of the `_percent_str` field of `line`, when `line` is a
/// JSON object carrying that field as a string; a function of the
/// line alone.
pub uninterp spec fn percent_text(line: Seq<char>) -> Option<Seq<char>>;

/// Relies on serde_json::from_str, Value::get and Value::as_str:
/// decoding fails exactly on text that is no JSON document, `get`
/// yields the field of an object or nothing, and `as_str` the text of
/// a JSON string or nothing.
#[verifier::external_body]
pub(crate) fn percent_field(line: &str) -> (r: Option<String>)
    ensures
        view_opt(r) == percent_text(line@),
        r is Some ==> json_document(line@),
        !json_document(line@) ==> r is None,
{
    serde_json::from_str::<serde_json::Value>(line).ok().and_then(
        |v| v.get("_percent_str").and_then(|p| p.as_str().map(|s| s.to_owned())),
    )
}

/// How many elements the `items` array of the JSON document `body`
/// holds (zero when there is no document, no `items`, or no array); a
/// function of the text alone.
pub uninterp spec fn duration_items_len_of(body: Seq<char>) -> int;

/// The id and duration texts of element `i` of the `items` array of
/// `body`: its `id` and its `contentDetails.duration`, when both are
/// present as strings, and nothing otherwise; a function of the text
/// alone.
pub uninterp spec fn duration_entry_of(body: Seq<char>, i: int) -> Option<(Seq<char>, Seq<char>)>;

/// Relies on serde_json::from_str, Value::get and Value::as_array:
/// the length of the `items` array of the response body.
#[verifier::external_body]
pub(crate) fn duration_items_len(body: &str) -> (n: usize)
    ensures
        n == duration_items_len_of(body@),
{
    serde_json::from_str::<serde_json::Value>(body)
        .ok()
        .and_then(|v| v.get("items").and_then(|a| a.as_array()).map(|a| a.len()))
        .unwrap_or(0)
}

/// Relies on serde_json::from_str, Value::get, Value::as_array,
/// slice::get and Value::as_str: one element's id and duration texts,
/// when the element carries both as strings.
#[verifier::external_body]
pub(crate) fn duration_entry(body: &str, i: usize) -> (r: Option<(String, String)>)
    ensures
        ({
            match r {
                Some(p) => duration_entry_of(body@, i as int) == Some((p.0@, p.1@)),
                None => duration_entry_of(body@, i as int) is None,
            }
        }),
{
    let v: serde_json::Value = serde_json::from_str(body).ok()?;
    let item = v.get("items")?.as_array()?.get(i)?;
    let id = item.get("id")?.as_str()?;
    let duration = item.get("contentDetails")?.get("duration")?.as_str()?;
    Some((id.to_owned(), duration.to_owned()))
}

} // verus!
