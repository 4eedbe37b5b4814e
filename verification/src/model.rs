//! The values a run works on: the query, the streamed chunks, and the answer
//! with its sources and its trace of tool calls.

use vstd::prelude::*;

verus! {

/// The identifier type of the `uuid` crate, `uuid::Uuid`. It is carried
/// through unread: nothing is claimed of what a value holds.
#[verifier::external_type_specification]
#[verifier::external_body]
pub struct ExUuid(uuid::Uuid);

/// One user turn: the text, and the conversation it belongs to, if any.
#[derive(Debug, Clone)]
pub struct UserQuery {
    pub conversation_id: Option<uuid::Uuid>,
    pub text: String,
}

/// One increment of streamed model output.
#[derive(Debug, Clone, PartialEq, Eq)]
pub struct AnswerChunk {
    pub text: String,
}

/// A cited reference.
#[derive(Debug, Clone, PartialEq, Eq)]
pub struct Source {
    pub url: String,
    pub title: String,
}

/// The record of one tool call.
#[derive(Debug, Clone, PartialEq, Eq)]
pub struct ToolTrace {
    pub tool_name: String,
    pub input: String,
    pub output_summary: String,
}

/// The resolved response to one query.
#[derive(Debug, Clone, PartialEq, Eq)]
pub struct FinalAnswer {
    pub text: String,
    pub sources: Vec<Source>,
    pub tool_trace: Vec<ToolTrace>,
}

/// What a `Source` holds, as plain sequences of characters.
pub ghost struct SourceView {
    pub url: Seq<char>,
    pub title: Seq<char>,
}

/// What a `ToolTrace` holds, as plain sequences of characters.
pub ghost struct TraceView {
    pub tool_name: Seq<char>,
    pub input: Seq<char>,
    pub output_summary: Seq<char>,
}

/// What a `FinalAnswer` holds.
pub ghost struct AnswerView {
    pub text: Seq<char>,
    pub sources: Seq<SourceView>,
    pub tool_trace: Seq<TraceView>,
}

impl View for Source {
    type V = SourceView;

    open spec fn view(&self) -> SourceView {
        SourceView { url: self.url@, title: self.title@ }
    }
}

impl View for ToolTrace {
    type V = TraceView;

    open spec fn view(&self) -> TraceView {
        TraceView {
            tool_name: self.tool_name@,
            input: self.input@,
            output_summary: self.output_summary@,
        }
    }
}

/// The views of a sequence of sources, in order.
pub open spec fn source_views(s: Seq<Source>) -> Seq<SourceView> {
    Seq::new(s.len(), |i: int| s[i]@)
}

/// The views of a sequence of trace entries, in order.
pub open spec fn trace_views(s: Seq<ToolTrace>) -> Seq<TraceView> {
    Seq::new(s.len(), |i: int| s[i]@)
}

/// No two sources of the sequence have the same URL.
pub open spec fn distinct_urls(s: Seq<SourceView>) -> bool {
    forall|i: int, j: int| 0 <= i < j < s.len() ==> s[i].url != s[j].url
}

/// Whether some source of the sequence has the given URL.
pub open spec fn cites(s: Seq<SourceView>, url: Seq<char>) -> bool {
    exists|i: int| 0 <= i < s.len() && s[i].url == url
}

impl View for FinalAnswer {
    type V = AnswerView;

    open spec fn view(&self) -> AnswerView {
        AnswerView {
            text: self.text@,
            sources: source_views(self.sources@),
            tool_trace: trace_views(self.tool_trace@),
        }
    }
}

impl FinalAnswer {
    /// The invariant of an answer: its sources are deduplicated by URL.
    pub open spec fn wf(&self) -> bool {
        distinct_urls(source_views(self.sources@))
    }
}

impl UserQuery {
    /// A query that belongs to no conversation.
    pub fn new(text: &str) -> (q: Self)
        ensures
            q.text@ == text@,
            q.conversation_id is None,
    {
        UserQuery { conversation_id: None, text: text.to_owned() }
    }

    /// The same turn of the same conversation, with another text.
    pub fn with_text(&self, text: String) -> (q: Self)
        ensures
            q.text == text,
            q.conversation_id == self.conversation_id,
    {
        UserQuery { conversation_id: self.conversation_id, text }
    }
}

} // verus!
