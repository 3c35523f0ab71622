//! The dispatcher of the one tool, `get_stock_price`.
//!
//! A call goes through two steps with one fetch between them: the request's
//! URL is built, the URL is fetched once, and what the fetch gave is shaped
//! into the tool's result. The result is a success whatever the fetch gave:
//! a failure is told in the result's text, never as an error of the call, so
//! a caller reads the text to learn how the fetch went.
//!
//! The fetch itself is not done here. [`handle`] takes it as a function;
//! a caller that has to wait for its fetch calls
//! [`StockParams::request_url`], fetches, and hands the outcome to
//! [`respond`].

use crate::query::StockParams;
use vstd::prelude::*;
use vstd::string::*;

verus! {

/// What one fetch of a URL gave.
#[derive(Debug, PartialEq, Eq)]
pub enum FetchOutcome {
    /// A response came, and this is its body as text.
    Body(String),
    /// A response came, but its body could not be read as text.
    Unreadable,
    /// No response came; the text says why.
    Failed(String),
}

/// An outcome as a value of mathematics: what [`FetchOutcome`] stands for.
pub enum FetchOutcomeView {
    Body(Seq<char>),
    Unreadable,
    Failed(Seq<char>),
}

impl View for FetchOutcome {
    type V = FetchOutcomeView;

    open spec fn view(&self) -> FetchOutcomeView {
        match self {
            FetchOutcome::Body(body) => FetchOutcomeView::Body(body@),
            FetchOutcome::Unreadable => FetchOutcomeView::Unreadable,
            FetchOutcome::Failed(reason) => FetchOutcomeView::Failed(reason@),
        }
    }
}

/// The result of a tool call: one block of text, and whether the call failed.
#[derive(Debug, PartialEq, Eq)]
pub struct ToolResult {
    /// Whether the call itself failed.
    pub is_error: bool,
    /// The text handed back to the caller.
    pub text: String,
}

/// A result as a value of mathematics: what [`ToolResult`] stands for.
pub struct ToolResultView {
    pub is_error: bool,
    pub text: Seq<char>,
}

impl View for ToolResult {
    type V = ToolResultView;

    open spec fn view(&self) -> ToolResultView {
        ToolResultView { is_error: self.is_error, text: self.text@ }
    }
}

/// The text that answers a call whose fetch gave `outcome`: the body as it
/// came, a fixed sentence for a body that could not be read, or the reason
/// of a failure behind `Error: `.
pub open spec fn result_text(outcome: FetchOutcomeView) -> Seq<char> {
    match outcome {
        FetchOutcomeView::Body(body) => body,
        FetchOutcomeView::Unreadable => "Failed to read response"@,
        FetchOutcomeView::Failed(reason) => "Error: "@ + reason,
    }
}

/// The result that answers a call whose fetch gave `outcome`: a success that
/// carries [`result_text`].
pub open spec fn result_of(outcome: FetchOutcomeView) -> ToolResultView {
    ToolResultView { is_error: false, text: result_text(outcome) }
}

/// Shapes the outcome of the fetch into the tool's result, which is a success
/// in every case.
pub fn respond(outcome: FetchOutcome) -> (result: ToolResult)
    ensures
        result@ == result_of(outcome@),
        !result.is_error,
        outcome matches FetchOutcome::Body(body) ==> result.text@ == body@,
        outcome is Unreadable ==> result.text@ == "Failed to read response"@,
        outcome matches FetchOutcome::Failed(reason) ==> result.text@ == "Error: "@ + reason@,
{
    let text = match outcome {
        FetchOutcome::Body(body) => body,
        FetchOutcome::Unreadable => String::from_str("Failed to read response"),
        FetchOutcome::Failed(reason) => {
            let mut text = String::from_str("Error: ");
            text.append(reason.as_str());
            text
        },
    };
    ToolResult { is_error: false, text }
}

/// Answers one call: builds the URL of `query`, calls `fetch` on it once, and
/// shapes what `fetch` gave into the result.
///
/// Whatever `fetch` gives, the result is the one that [`result_of`] names for
/// an outcome that `fetch` may give on the URL of `query`.
pub fn handle<F: FnOnce(String) -> FetchOutcome>(query: &StockParams, fetch: F) -> (result:
    ToolResult)
    requires
        forall|url: String| url@ == query@.url() ==> call_requires(fetch, (url,)),
    ensures
        !result.is_error,
        exists|url: String, outcome: FetchOutcome|
            url@ == query@.url() && #[trigger] call_ensures(fetch, (url,), outcome) && result@
                == result_of(outcome@),
{
    let url = query.request_url();
    let ghost asked = url;
    let outcome = fetch(url);
    let ghost given = outcome;
    let result = respond(outcome);
    assert(call_ensures(fetch, (asked,), given));
    result
}

/// Whatever the fetch gave, the call is a success, and its text tells the
/// three outcomes apart by what it holds: a body that was read comes back
/// letter for letter, a body that could not be read gives one fixed
/// sentence, and a failure gives `Error: ` with the reason behind it.
pub proof fn result_of_each_outcome(outcome: FetchOutcomeView)
    ensures
        !result_of(outcome).is_error,
        outcome matches FetchOutcomeView::Body(body) ==> result_of(outcome).text == body,
        outcome is Unreadable ==> result_of(outcome).text == "Failed to read response"@,
        outcome matches FetchOutcomeView::Failed(reason) ==> {
            &&& "Error: "@.is_prefix_of(result_of(outcome).text)
            &&& result_of(outcome).text.skip("Error: "@.len() as int) == reason
        },
{
    if let FetchOutcomeView::Failed(reason) = outcome {
        assert(result_of(outcome).text.skip("Error: "@.len() as int) =~= reason);
    }
}

} // verus!
