//! The calls into `serde_json`. What these functions promise is taken on
//! trust from that crate.

use vstd::prelude::*;
use crate::db::types::opt_text;
use crate::text::text_views;

verus! {

/// The list of texts that a JSON document is read as by
/// `serde_json::from_str::<Vec<String>>`, or `None` where the document is
/// no JSON array of strings.
pub uninterp spec fn json_string_list(text: Seq<char>) -> Option<Seq<Seq<char>>>;

/// The JSON document that `serde_json::to_string_pretty` writes for a
/// list of texts, or `None` where it fails.
pub uninterp spec fn json_pretty_list(items: Seq<Seq<char>>) -> Option<Seq<char>>;

/// The views of a list of texts that may be absent.
pub open spec fn opt_text_list(o: Option<Vec<String>>) -> Option<Seq<Seq<char>>> {
    match o {
        Some(list) => Some(text_views(list@)),
        None => None,
    }
}

/// `serde_json::from_str::<Vec<String>>`: reads `text` as a JSON array of
/// strings. The result is a function of `text` alone; its error is
/// dropped.
#[verifier::external_body]
pub(crate) fn parse_string_list(text: &str) -> (r: Option<Vec<String>>)
    ensures
        opt_text_list(r) == json_string_list(text@),
{
    serde_json::from_str::<Vec<String>>(text).ok()
}

/// `serde_json::to_string_pretty`: writes `items` as an indented JSON
/// array of strings. The result is a function of `items` alone; its error
/// is dropped.
#[verifier::external_body]
pub(crate) fn render_string_list(items: &Vec<String>) -> (r: Option<String>)
    ensures
        opt_text(r) == json_pretty_list(text_views(items@)),
{
    serde_json::to_string_pretty(items).ok()
}

} // verus!
