//! Trace entries: what is written down of one tool call. A call that returned
//! is summarised by the beginning of its output; a call that failed, or whose
//! tool is not registered, by a failure summary that carries the code.

use vstd::prelude::*;
use vstd::string::*;
use crate::errors::{CoreError, ErrorCode, ErrorView};
use crate::model::{ToolTrace, TraceView};
use crate::syntax::{RequestView, ToolRequest};

verus! {

/// The greatest number of characters of an output or a message that a summary
/// keeps.
pub const SUMMARY_LIMIT: usize = 200;

/// The summary of a text: the text itself, cut after `SUMMARY_LIMIT`
/// characters.
pub open spec fn summary_of(text: Seq<char>) -> Seq<char> {
    if text.len() <= SUMMARY_LIMIT {
        text
    } else {
        text.take(SUMMARY_LIMIT as int)
    }
}

/// The summary of a failure: `error[CODE]: ` and the summary of the message.
pub open spec fn failure_summary(code: ErrorCode, message: Seq<char>) -> Seq<char> {
    "error["@ + code.label() + "]: "@ + summary_of(message)
}

/// The message written down for a request whose tool is not registered.
pub open spec fn missing_tool_message() -> Seq<char> {
    "tool is not registered"@
}

/// How one tool call ended.
#[derive(Debug)]
pub enum ToolOutcome {
    /// No tool of the requested name is registered.
    Missing,
    /// The tool was invoked and failed.
    Failed(CoreError),
    /// The tool was invoked and returned its output.
    Returned(String),
}

/// What a `ToolOutcome` holds, as plain values.
pub ghost enum OutcomeView {
    Missing,
    Failed(ErrorView),
    Returned(Seq<char>),
}

impl View for ToolOutcome {
    type V = OutcomeView;

    open spec fn view(&self) -> OutcomeView {
        match self {
            ToolOutcome::Missing => OutcomeView::Missing,
            ToolOutcome::Failed(e) => OutcomeView::Failed(e@),
            ToolOutcome::Returned(s) => OutcomeView::Returned(s@),
        }
    }
}

impl OutcomeView {
    /// The code under which the call failed, if it did: a failed lookup counts
    /// as `Internal`.
    pub open spec fn failure_code(self) -> Option<ErrorCode> {
        match self {
            OutcomeView::Missing => Some(ErrorCode::Internal),
            OutcomeView::Failed(e) => Some(e.code),
            OutcomeView::Returned(_) => None,
        }
    }

    /// The summary written into the trace.
    pub open spec fn summary(self) -> Seq<char> {
        match self {
            OutcomeView::Missing => failure_summary(ErrorCode::Internal, missing_tool_message()),
            OutcomeView::Failed(e) => failure_summary(e.code, e.message),
            OutcomeView::Returned(output) => summary_of(output),
        }
    }
}

/// The trace entry of a request that ended with the given outcome.
pub open spec fn entry_for(request: RequestView, outcome: OutcomeView) -> TraceView {
    TraceView {
        tool_name: request.tool_name,
        input: request.input,
        output_summary: outcome.summary(),
    }
}

/// Summarises a text: the text itself, cut after `SUMMARY_LIMIT` characters.
pub fn summarize(text: &str) -> (r: String)
    ensures
        r@ == summary_of(text@),
{
    if text.unicode_len() <= SUMMARY_LIMIT {
        text.to_owned()
    } else {
        text.substring_char(0, SUMMARY_LIMIT).to_owned()
    }
}

/// Summarises a failure: `error[CODE]: ` and the summary of the message.
pub fn summarize_failure(code: ErrorCode, message: &str) -> (r: String)
    ensures
        r@ == failure_summary(code, message@),
{
    let mut r = String::from_str("error[");
    r.append(code.name());
    r.append("]: ");
    let cut = summarize(message);
    r.append(cut.as_str());
    r
}

/// Summarises the outcome of a call as it is written into the trace.
pub fn summarize_outcome(outcome: &ToolOutcome) -> (r: String)
    ensures
        r@ == outcome@.summary(),
{
    match outcome {
        ToolOutcome::Missing => summarize_failure(ErrorCode::Internal, "tool is not registered"),
        ToolOutcome::Failed(e) => summarize_failure(e.code, e.message.as_str()),
        ToolOutcome::Returned(output) => summarize(output.as_str()),
    }
}

/// Builds the trace entry of a request that ended with the given outcome.
pub fn trace_entry(request: &ToolRequest, outcome: &ToolOutcome) -> (entry: ToolTrace)
    ensures
        entry@ == entry_for(request@, outcome@),
{
    ToolTrace {
        tool_name: request.tool_name.clone(),
        input: request.input.clone(),
        output_summary: summarize_outcome(outcome),
    }
}

} // verus!
