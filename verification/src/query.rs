//! The question that each campaign puts to the record source.

use crate::window::{Campaign, TimeWindow};
use vstd::prelude::*;
use vstd::string::StringExecFns;

verus! {

/// How `chrono` writes the UTC date and time that lies `secs` seconds
/// and `nanos` nanoseconds after the start of 1970, or `None` where it
/// has no date for them.
pub uninterp spec fn utc_text(secs: i64, nanos: u32) -> Option<Seq<char>>;

/// `chrono::DateTime::from_timestamp`, then `to_string` on the date it
/// gives: the text depends on the two numbers alone, and there is none
/// where `from_timestamp` gives no date.
#[verifier::external_body]
fn render_utc(secs: i64, nanos: u32) -> (text: Option<String>)
    ensures
        match text {
            Some(written) => utc_text(secs, nanos) == Some(written@),
            None => utc_text(secs, nanos) is None,
        },
{
    match chrono::DateTime::from_timestamp(secs, nanos) {
        Some(date) => Some(date.to_string()),
        None => None,
    }
}

/// A question to the record source.
#[derive(Clone, Debug, PartialEq, Eq)]
pub enum RecordQuery {
    /// The records whose `column` lies in `window`.
    Within { column: String, window: TimeWindow },
    /// The records that a statement in the store's query language
    /// selects.
    Statement { text: String },
}

/// A [`RecordQuery`] as mathematical values.
pub enum QueryView {
    Within { column: Seq<char>, window: TimeWindow },
    Statement { text: Seq<char> },
}

impl View for RecordQuery {
    type V = QueryView;

    open spec fn view(&self) -> QueryView {
        match self {
            RecordQuery::Within { column, window } => QueryView::Within {
                column: column@,
                window: *window,
            },
            RecordQuery::Statement { text } => QueryView::Statement { text: text@ },
        }
    }
}

/// The statement that selects those who were active, by a visit or by
/// watching, between the two written dates.
pub open spec fn recall_statement(lower: Seq<char>, upper: Seq<char>) -> Seq<char> {
    "SELECT email, name FROM user_stats WHERE last_visited_at BETWEEN '"@ + lower + "' AND '"@ + upper
        + "' OR last_watched_at BETWEEN '"@ + lower + "' AND '"@ + upper + "'"@
}

/// The statement that selects those who left something unfinished and
/// watched between the two written dates.
pub open spec fn remind_statement(lower: Seq<char>, upper: Seq<char>) -> Seq<char> {
    "SELECT email, name FROM user_stats WHERE CARDINALITY(started_but_not_finished) > 0 AND last_watched_at BETWEEN '"@
        + lower + "' AND '"@ + upper + "'"@
}

/// The question that `campaign` asks about `window`, given how the
/// window's two bounds are written. A welcome asks by creation time and
/// needs no written dates; the other two ask by a statement, which
/// exists only where both bounds can be written.
pub open spec fn query_of(
    campaign: Campaign,
    window: TimeWindow,
    lower: Option<Seq<char>>,
    upper: Option<Seq<char>>,
) -> Option<QueryView> {
    match campaign {
        Campaign::Welcome => Some(QueryView::Within { column: "created_at"@, window }),
        Campaign::Recall => if lower is Some && upper is Some {
            Some(QueryView::Statement { text: recall_statement(lower->Some_0, upper->Some_0) })
        } else {
            None
        },
        Campaign::Remind => if lower is Some && upper is Some {
            Some(QueryView::Statement { text: remind_statement(lower->Some_0, upper->Some_0) })
        } else {
            None
        },
    }
}

/// The view of an optional query.
pub open spec fn query_view(query: Option<RecordQuery>) -> Option<QueryView> {
    match query {
        Some(q) => Some(q@),
        None => None,
    }
}

/// Writes the recall statement for two written dates.
pub fn write_recall_statement(lower: &str, upper: &str) -> (text: String)
    ensures
        text@ == recall_statement(lower@, upper@),
{
    let mut text = String::from_str("SELECT email, name FROM user_stats WHERE last_visited_at BETWEEN '");
    text.append(lower);
    text.append("' AND '");
    text.append(upper);
    text.append("' OR last_watched_at BETWEEN '");
    text.append(lower);
    text.append("' AND '");
    text.append(upper);
    text.append("'");
    text
}

/// Writes the remind statement for two written dates.
pub fn write_remind_statement(lower: &str, upper: &str) -> (text: String)
    ensures
        text@ == remind_statement(lower@, upper@),
{
    let mut text = String::from_str(
        "SELECT email, name FROM user_stats WHERE CARDINALITY(started_but_not_finished) > 0 AND last_watched_at BETWEEN '",
    );
    text.append(lower);
    text.append("' AND '");
    text.append(upper);
    text.append("'");
    text
}

/// Puts the campaign's question, given the window's bounds as written
/// dates where they can be written.
pub fn phrase(campaign: Campaign, window: TimeWindow, lower: Option<String>, upper: Option<String>) -> (query:
    Option<RecordQuery>)
    ensures
        query_view(query) == query_of(
            campaign,
            window,
            match lower {
                Some(s) => Some(s@),
                None => None,
            },
            match upper {
                Some(s) => Some(s@),
                None => None,
            },
        ),
{
    match campaign {
        Campaign::Welcome => Some(RecordQuery::Within { column: String::from_str("created_at"), window }),
        Campaign::Recall => match (lower, upper) {
            (Some(from), Some(to)) => Some(
                RecordQuery::Statement { text: write_recall_statement(from.as_str(), to.as_str()) },
            ),
            _ => None,
        },
        Campaign::Remind => match (lower, upper) {
            (Some(from), Some(to)) => Some(
                RecordQuery::Statement { text: write_remind_statement(from.as_str(), to.as_str()) },
            ),
            _ => None,
        },
    }
}

/// Puts the campaign's question about `window`, with the window's
/// bounds written as `chrono` writes UTC dates.
pub fn record_query(campaign: Campaign, window: TimeWindow) -> (query: Option<RecordQuery>)
    ensures
        query_view(query) == query_of(
            campaign,
            window,
            utc_text(window.lower.secs, window.lower.nanos),
            utc_text(window.upper.secs, window.upper.nanos),
        ),
{
    match campaign {
        Campaign::Welcome => phrase(campaign, window, None, None),
        _ => {
            let lower = render_utc(window.lower.secs, window.lower.nanos);
            let upper = render_utc(window.upper.secs, window.upper.nanos);
            phrase(campaign, window, lower, upper)
        },
    }
}

} // verus!
