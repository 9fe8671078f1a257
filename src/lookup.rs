//! The decisions of the catalog lookup: reading the hit count of a search
//! response, and choosing what follows an attempt.

use vstd::prelude::*;
use crate::digits::{count_of, parse_count};

verus! {

/// The number of the last attempt (counted from 0) after which the lookup gives up.
pub const LAST_ATTEMPT: usize = 10;

/// How long to wait, in milliseconds, before the next attempt.
pub const RETRY_DELAY_MS: u64 = 1000;

/// What the lookup does after an attempt.
#[derive(PartialEq, Eq, Structural, Debug, Clone, Copy)]
pub enum LookupStep {
    /// The catalog knows the identifier: report it and stop.
    Found,
    /// Nothing found: wait `RETRY_DELAY_MS` and try a fresh identifier.
    Retry,
    /// Nothing found and no attempt left: report failure and stop.
    GiveUp,
}

/// The step after attempt `attempt` (counted from 0) got `total_results` catalog hits.
pub fn next_lookup_step(attempt: usize, total_results: u64) -> (r: LookupStep)
    ensures
        total_results > 0 ==> r is Found,
        total_results == 0 && attempt >= LAST_ATTEMPT ==> r is GiveUp,
        total_results == 0 && attempt < LAST_ATTEMPT ==> r is Retry,
{
    if total_results > 0 {
        LookupStep::Found
    } else if attempt >= LAST_ATTEMPT {
        LookupStep::GiveUp
    } else {
        LookupStep::Retry
    }
}

/// The text of the `totalResults` element inside `channel` of a search response.
pub uninterp spec fn total_results_text_of(xml: Seq<char>) -> Option<Seq<char>>;

/// The view of an optional string.
pub open spec fn text_view(t: Option<String>) -> Option<Seq<char>> {
    match t {
        Some(s) => Some(s@),
        None => None,
    }
}

/// Relies on xmltree's `Element::parse`, `Element::get_child` and `XMLNode::as_text`:
/// the first child of `channel/totalResults` as text, where the document parses
/// and holds it. The result depends on the text of the document alone.
#[verifier::external_body]
fn total_results_text(xml: &str) -> (r: Option<String>)
    ensures
        text_view(r) == total_results_text_of(xml@),
{
    let root = xmltree::Element::parse(xml.as_bytes()).ok()?;
    let total = root.get_child("channel")?.get_child("totalResults")?;
    Some(total.children.first()?.as_text()?.to_string())
}

/// The hit count of a search response, where it has one written in decimal.
pub fn total_results(xml: &str) -> (r: Option<u64>)
    ensures
        r == match total_results_text_of(xml@) {
            Some(t) => count_of(t),
            None => None,
        },
{
    match total_results_text(xml) {
        Some(t) => parse_count(&t),
        None => None,
    }
}

} // verus!
