//! Parsing of inbound text frames.
//!
//! An inbound frame is relayed only if it parses as a JSON document; its
//! `"event"` field, when present and a string, selects leader commands.
//! Parsing is delegated to serde_json; what the library assumes of it is
//! stated here and nowhere else.

use vstd::prelude::*;

verus! {

/// Whether the text parses as a JSON document (`serde_json::from_str`
/// succeeds on it). A function of the text alone.
pub uninterp spec fn json_valid(text: Seq<char>) -> bool;

/// The string held by the `"event"` field of the JSON document the text
/// parses to, or `None` when the field is absent or not a string. Only
/// meaningful when `json_valid(text)` holds. A function of the text alone.
pub uninterp spec fn json_event(text: Seq<char>) -> Option<Seq<char>>;

/// What one inbound text frame parses to, as far as the relay cares.
pub(crate) enum ParsedFrame {
    /// The text is not a JSON document; the frame is dropped silently.
    NotRecord,
    /// The text is a JSON document; `event` is its `"event"` field when
    /// that field is present and holds a string.
    Record { event: Option<String> },
}

/// Relies on `serde_json::from_str::<serde_json::Value>`,
/// `serde_json::Value::get` and `serde_json::Value::as_str`: whether the
/// text parses as JSON, and what its `"event"` field holds, are functions
/// of the text alone.
#[verifier::external_body]
pub(crate) fn parse_frame(text: &str) -> (r: ParsedFrame)
    ensures
        (r is Record) <==> json_valid(text@),
        match r {
            ParsedFrame::Record { event } => match event {
                Some(e) => json_event(text@) == Some(e@),
                None => json_event(text@) is None,
            },
            ParsedFrame::NotRecord => true,
        },
{
    match serde_json::from_str::<serde_json::Value>(text) {
        Err(_) => ParsedFrame::NotRecord,
        Ok(v) => ParsedFrame::Record {
            event: match v.get("event") {
                Some(field) => match field.as_str() {
                    Some(s) => Some(s.to_string()),
                    None => None,
                },
                None => None,
            },
        },
    }
}

} // verus!
