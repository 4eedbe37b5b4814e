//! The decisions of a run, as a state machine. The engine holds the state of
//! one run; it says which action comes next, and takes the event with which
//! that action ended. It calls nothing itself: whoever drives it performs the
//! action and hands back the event.
//!
//! A run is a bounded sequence of reasoning steps. In a step the backend is
//! asked for a completion, its chunks are read, and the tool requests found in
//! the output of the step are dispatched in the order written; what the tools
//! answered is told to the backend in the next step. The run ends when a step
//! asks for no tool, when the step bound is reached, or when the backend
//! cannot begin another completion. It fails only where the backend cannot
//! begin before any chunk was read: a tool that fails or is missing is
//! written into the trace, and the run goes on.

use vstd::prelude::*;
use vstd::string::*;
use crate::errors::{CoreError, ErrorCode, ErrorView};
use crate::model::{
    distinct_urls, source_views, trace_views, AnswerChunk, AnswerView, FinalAnswer, Source,
    SourceView, ToolTrace, TraceView,
};
use crate::sources::{add_source, extract_source, lemma_with_source, source_named, with_source};
use crate::syntax::{
    parse_requests, request_views, requests_in, RequestSyntax, RequestView, SyntaxView,
    ToolRequest,
};
use crate::trace::{entry_for, trace_entry, OutcomeView, ToolOutcome};

verus! {

/// The bounds of a run.
#[derive(Debug, Clone, Copy, PartialEq, Eq)]
pub struct Limits {
    /// The greatest number of completions asked of the backend.
    pub max_steps: usize,
    /// The greatest number of tool requests dispatched in one step; requests
    /// written after them are passed over.
    pub max_requests: usize,
    /// The greatest number of chunks read from one completion; what a longer
    /// completion holds after them is not read.
    pub max_chunks: usize,
}

impl Limits {
    /// Limits are usable when they allow one completion and one chunk.
    pub open spec fn wf(self) -> bool {
        self.max_steps >= 1 && self.max_chunks >= 1
    }

    /// Whether the limits are usable.
    pub fn is_valid(&self) -> (r: bool)
        ensures
            r == self.wf(),
    {
        self.max_steps >= 1 && self.max_chunks >= 1
    }

    /// Four steps, eight requests in a step, a hundred thousand chunks in a
    /// completion.
    pub open spec fn standard_limits() -> Limits {
        Limits { max_steps: 4, max_requests: 8, max_chunks: 100_000 }
    }

    /// Four steps, eight requests in a step, a hundred thousand chunks in a
    /// completion.
    pub fn standard() -> (l: Self)
        ensures
            l == Limits::standard_limits(),
            l.wf(),
    {
        Limits { max_steps: 4, max_requests: 8, max_chunks: 100_000 }
    }
}

/// Where a run stands.
#[derive(Debug, Clone, Copy, PartialEq, Eq, Structural)]
pub enum Phase {
    /// A completion is to be asked of the backend.
    Starting,
    /// The chunks of the current completion are being read.
    Streaming,
    /// The tool requests of the current step are being dispatched.
    Dispatching,
    /// The run is over.
    Finished,
}

/// What the driver of a run reports back.
#[derive(Debug)]
pub enum Event {
    /// The backend began a completion.
    Started,
    /// The backend could not begin a completion.
    StartFailed(CoreError),
    /// The stream yielded a chunk.
    Chunk(AnswerChunk),
    /// The stream is exhausted.
    StreamEnded,
    /// The request was dispatched and ended thus.
    Dispatched(ToolOutcome),
}

/// What an `Event` holds, as plain values.
pub ghost enum EventView {
    Started,
    StartFailed(ErrorView),
    Chunk(Seq<char>),
    StreamEnded,
    Dispatched(OutcomeView),
}

impl View for Event {
    type V = EventView;

    open spec fn view(&self) -> EventView {
        match self {
            Event::Started => EventView::Started,
            Event::StartFailed(e) => EventView::StartFailed(e@),
            Event::Chunk(c) => EventView::Chunk(c.text@),
            Event::StreamEnded => EventView::StreamEnded,
            Event::Dispatched(o) => EventView::Dispatched(o@),
        }
    }
}

/// What the driver of a run is to do next.
#[derive(Debug)]
pub enum Action {
    /// Ask the backend for a completion of this text.
    Complete(String),
    /// Ask the stream for its next chunk.
    NextChunk,
    /// Look the tool up and invoke it with the input.
    Dispatch(ToolRequest),
    /// Nothing: the run is over.
    Finish,
}

/// What an `Action` holds, as plain values.
pub ghost enum ActionView {
    Complete(Seq<char>),
    NextChunk,
    Dispatch(RequestView),
    Finish,
}

impl View for Action {
    type V = ActionView;

    open spec fn view(&self) -> ActionView {
        match self {
            Action::Complete(s) => ActionView::Complete(s@),
            Action::NextChunk => ActionView::NextChunk,
            Action::Dispatch(r) => ActionView::Dispatch(r@),
            Action::Finish => ActionView::Finish,
        }
    }
}

/// The text of a follow-up completion: the query, the answer so far, and what
/// the tools of the last step answered.
pub open spec fn follow_up(query: Seq<char>, text: Seq<char>, feedback: Seq<char>) -> Seq<char> {
    query + "\n\n"@ + text + "\n\n"@ + feedback
}

/// The line by which one tool call is reported to the backend.
pub open spec fn feedback_line(entry: TraceView) -> Seq<char> {
    entry.tool_name + ": "@ + entry.output_summary + "\n"@
}

/// The message of the failure with which a run ends when it is handed an
/// event it did not ask for.
pub open spec fn unexpected_event_message() -> Seq<char> {
    "unexpected event"@
}

/// The message of the failure reported for a run that has not finished.
pub open spec fn unfinished_message() -> Seq<char> {
    "run has not finished"@
}

/// The failure with which a run cannot begin, if syntax or limits are not
/// usable: `ConfigInvalid`, for the syntax first.
pub open spec fn start_failure(syntax: SyntaxView, limits: Limits) -> Option<ErrorView> {
    if !syntax.wf() {
        Some(
            ErrorView {
                code: ErrorCode::ConfigInvalid,
                message: "request syntax has an empty delimiter"@,
            },
        )
    } else if !limits.wf() {
        Some(ErrorView { code: ErrorCode::ConfigInvalid, message: "limits allow no completion"@ })
    } else {
        None
    }
}

/// The sources after a call that ended with the given outcome: an output that
/// names a source adds it, unless its URL is cited already; anything else adds
/// nothing.
pub open spec fn sources_after(sources: Seq<SourceView>, outcome: OutcomeView) -> Seq<
    SourceView,
> {
    match outcome {
        OutcomeView::Returned(output) => match source_named(output) {
            Some(source) => with_source(sources, source),
            None => sources,
        },
        _ => sources,
    }
}

/// The state of a run, as plain values.
pub ghost struct EngineView {
    pub syntax: SyntaxView,
    pub limits: Limits,
    /// The text of the user's query.
    pub query: Seq<char>,
    pub phase: Phase,
    /// The number of the current step, from 0.
    pub step: nat,
    /// The number of chunks read in the current step.
    pub chunks_in_step: nat,
    /// Whether any chunk was read in the run.
    pub streamed: bool,
    /// The texts of all chunks read in the run, joined.
    pub text: Seq<char>,
    /// The texts of the chunks read in the current step, joined.
    pub step_text: Seq<char>,
    /// The tool requests of the current step.
    pub pending: Seq<RequestView>,
    /// How many of them have been dispatched.
    pub cursor: nat,
    /// What the tools of the current step answered, as told to the backend.
    pub feedback: Seq<char>,
    pub sources: Seq<SourceView>,
    pub tool_trace: Seq<TraceView>,
    /// The failure with which the run ended, if it failed.
    pub failure: Option<ErrorView>,
}

impl EngineView {
    /// The state in which a run begins.
    pub open spec fn initial(syntax: SyntaxView, limits: Limits, query: Seq<char>) -> EngineView {
        EngineView {
            syntax,
            limits,
            query,
            phase: Phase::Starting,
            step: 0,
            chunks_in_step: 0,
            streamed: false,
            text: Seq::empty(),
            step_text: Seq::empty(),
            pending: Seq::empty(),
            cursor: 0,
            feedback: Seq::empty(),
            sources: Seq::empty(),
            tool_trace: Seq::empty(),
            failure: None,
        }
    }

    /// Whether a run begins in this state: it is the initial state of usable
    /// settings.
    pub open spec fn is_initial(self) -> bool {
        &&& self.syntax.wf()
        &&& self.limits.wf()
        &&& self == EngineView::initial(self.syntax, self.limits, self.query)
    }

    /// The invariant of a run.
    pub open spec fn wf(self) -> bool {
        &&& self.limits.wf()
        &&& self.syntax.wf()
        &&& self.phase != Phase::Finished ==> self.step < self.limits.max_steps
        &&& self.phase == Phase::Streaming ==> self.chunks_in_step < self.limits.max_chunks
        &&& self.phase == Phase::Dispatching ==> self.cursor < self.pending.len()
        &&& distinct_urls(self.sources)
    }

    /// Whether the run asked for an event of this kind.
    pub open spec fn accepts(self, event: EventView) -> bool {
        match self.phase {
            Phase::Starting => event is Started || event is StartFailed,
            Phase::Streaming => event is Chunk || event is StreamEnded,
            Phase::Dispatching => event is Dispatched,
            Phase::Finished => false,
        }
    }

    /// The run, ended with an answer.
    pub open spec fn finished(self) -> EngineView {
        EngineView { phase: Phase::Finished, ..self }
    }

    /// The run, ended with a failure.
    pub open spec fn failed(self, error: ErrorView) -> EngineView {
        EngineView { phase: Phase::Finished, failure: Some(error), ..self }
    }

    /// The run after the output of the current step was inspected: it ends
    /// when the output holds no tool request, and goes on to dispatch them
    /// otherwise.
    pub open spec fn inspected(self) -> EngineView {
        let requests = requests_in(self.syntax, self.step_text, self.limits.max_requests as nat);
        if requests.len() == 0 {
            self.finished()
        } else {
            EngineView { phase: Phase::Dispatching, pending: requests, cursor: 0, ..self }
        }
    }

    /// The run after a chunk was read: the chunk is appended to the text, and
    /// the output is inspected at once when the chunk was the last that the
    /// limits allow.
    pub open spec fn absorbed(self, chunk: Seq<char>) -> EngineView {
        let next = EngineView {
            text: self.text + chunk,
            step_text: self.step_text + chunk,
            streamed: true,
            chunks_in_step: self.chunks_in_step + 1,
            ..self
        };
        if next.chunks_in_step >= self.limits.max_chunks {
            next.inspected()
        } else {
            next
        }
    }

    /// The run after the current request ended with the given outcome: one
    /// entry is appended to the trace whatever the outcome, a source is added
    /// when the output names a new one, and the run goes on with the next
    /// request, with the next step, or ends at the step bound.
    pub open spec fn recorded(self, outcome: OutcomeView) -> EngineView {
        let entry = entry_for(self.pending[self.cursor as int], outcome);
        let next = EngineView {
            tool_trace: self.tool_trace.push(entry),
            sources: sources_after(self.sources, outcome),
            feedback: self.feedback + feedback_line(entry),
            cursor: self.cursor + 1,
            ..self
        };
        if next.cursor < next.pending.len() {
            next
        } else if self.step + 1 < self.limits.max_steps {
            EngineView { phase: Phase::Starting, step: self.step + 1, ..next }
        } else {
            next.finished()
        }
    }

    /// The state after an event. A finished run stays as it is; an event that
    /// the run did not ask for ends it with an `Internal` failure. A
    /// completion that began opens a step with empty output. A completion that
    /// could not begin ends the run: with the failure that the backend
    /// reported where no chunk was read in the run, with the answer as it
    /// stands otherwise.
    pub open spec fn step(self, event: EventView) -> EngineView {
        if self.phase == Phase::Finished {
            self
        } else if !self.accepts(event) {
            self.failed(
                ErrorView { code: ErrorCode::Internal, message: unexpected_event_message() },
            )
        } else {
            match event {
                EventView::Started => EngineView {
                    phase: Phase::Streaming,
                    chunks_in_step: 0,
                    step_text: Seq::empty(),
                    feedback: Seq::empty(),
                    ..self
                },
                EventView::StartFailed(error) => {
                    if self.streamed {
                        self.finished()
                    } else {
                        self.failed(error)
                    }
                },
                EventView::Chunk(chunk) => self.absorbed(chunk),
                EventView::StreamEnded => self.inspected(),
                EventView::Dispatched(outcome) => self.recorded(outcome),
            }
        }
    }

    /// The text handed to the backend for the current step: the query itself
    /// in the first step, a follow-up text in the later ones.
    pub open spec fn prompt(self) -> Seq<char> {
        if self.step == 0 {
            self.query
        } else {
            follow_up(self.query, self.text, self.feedback)
        }
    }

    /// What the driver is to do next.
    pub open spec fn action(self) -> ActionView {
        match self.phase {
            Phase::Starting => ActionView::Complete(self.prompt()),
            Phase::Streaming => ActionView::NextChunk,
            Phase::Dispatching => ActionView::Dispatch(self.pending[self.cursor as int]),
            Phase::Finished => ActionView::Finish,
        }
    }

    /// The answer of the run as it stands.
    pub open spec fn answer(self) -> AnswerView {
        AnswerView { text: self.text, sources: self.sources, tool_trace: self.tool_trace }
    }

    /// The result of a finished run: the failure if it failed, the answer
    /// otherwise. A run that is not finished has none.
    pub open spec fn outcome(self) -> Option<Result<AnswerView, ErrorView>> {
        if self.phase != Phase::Finished {
            None
        } else {
            match self.failure {
                Some(error) => Some(Err(error)),
                None => Some(Ok(self.answer())),
            }
        }
    }

    /// The steps that the run may still begin.
    pub open spec fn steps_left(self) -> nat {
        if self.phase == Phase::Finished {
            0
        } else {
            (self.limits.max_steps - self.step) as nat
        }
    }

    /// The rank of the phase inside a step: it falls as the step proceeds.
    pub open spec fn phase_rank(self) -> nat {
        match self.phase {
            Phase::Starting => 3,
            Phase::Streaming => 2,
            Phase::Dispatching => 1,
            Phase::Finished => 0,
        }
    }

    /// The events that the current phase may still take.
    pub open spec fn phase_budget(self) -> nat {
        match self.phase {
            Phase::Streaming => (self.limits.max_chunks - self.chunks_in_step) as nat,
            Phase::Dispatching => (self.pending.len() - self.cursor) as nat,
            _ => 0,
        }
    }
}

/// The state machine of one run.
pub struct Engine {
    syntax: RequestSyntax,
    limits: Limits,
    query: String,
    phase: Phase,
    step: usize,
    chunks_in_step: usize,
    streamed: bool,
    text: String,
    step_text: String,
    pending: Vec<ToolRequest>,
    cursor: usize,
    feedback: String,
    sources: Vec<Source>,
    trace: Vec<ToolTrace>,
    failure: Option<CoreError>,
}

impl View for Engine {
    type V = EngineView;

    closed spec fn view(&self) -> EngineView {
        EngineView {
            syntax: self.syntax@,
            limits: self.limits,
            query: self.query@,
            phase: self.phase,
            step: self.step as nat,
            chunks_in_step: self.chunks_in_step as nat,
            streamed: self.streamed,
            text: self.text@,
            step_text: self.step_text@,
            pending: request_views(self.pending@),
            cursor: self.cursor as nat,
            feedback: self.feedback@,
            sources: source_views(self.sources@),
            tool_trace: trace_views(self.trace@),
            failure: match self.failure {
                Some(e) => Some(e@),
                None => None,
            },
        }
    }
}

impl Engine {
    /// The invariant of the engine: that of the run it holds.
    pub open spec fn wf(&self) -> bool {
        self@.wf()
    }

    /// Begins a run. The syntax must have no empty delimiter and the limits
    /// must be usable: otherwise the configuration is invalid, and the failure
    /// says which of the two is at fault, the syntax first.
    pub fn start(syntax: RequestSyntax, limits: Limits, query: &str) -> (r: Result<
        Engine,
        CoreError,
    >)
        ensures
            match r {
                Ok(engine) => {
                    &&& start_failure(syntax@, limits) is None
                    &&& engine.wf()
                    &&& engine@ == EngineView::initial(syntax@, limits, query@)
                },
                Err(error) => start_failure(syntax@, limits) == Some(error@),
            },
    {
        if !syntax.is_valid() {
            return Err(
                CoreError::new(ErrorCode::ConfigInvalid, "request syntax has an empty delimiter"),
            );
        }
        if !limits.is_valid() {
            return Err(CoreError::new(ErrorCode::ConfigInvalid, "limits allow no completion"));
        }
        let engine = Engine {
            syntax,
            limits,
            query: query.to_owned(),
            phase: Phase::Starting,
            step: 0,
            chunks_in_step: 0,
            streamed: false,
            text: String::new(),
            step_text: String::new(),
            pending: Vec::new(),
            cursor: 0,
            feedback: String::new(),
            sources: Vec::new(),
            trace: Vec::new(),
            failure: None,
        };
        assert(engine@.pending =~= Seq::<RequestView>::empty());
        assert(engine@.sources =~= Seq::<SourceView>::empty());
        assert(engine@.tool_trace =~= Seq::<TraceView>::empty());
        Ok(engine)
    }

    /// Where the run stands.
    pub fn phase(&self) -> (p: Phase)
        ensures
            p == self@.phase,
    {
        self.phase
    }

    /// Whether the run is over.
    pub fn is_finished(&self) -> (r: bool)
        ensures
            r == (self@.phase == Phase::Finished),
    {
        self.phase == Phase::Finished
    }

    /// What the driver is to do next.
    pub fn action(&self) -> (a: Action)
        requires
            self.wf(),
        ensures
            a@ == self@.action(),
    {
        match self.phase {
            Phase::Starting => {
                if self.step == 0 {
                    Action::Complete(self.query.clone())
                } else {
                    let mut prompt = self.query.clone();
                    prompt.append("\n\n");
                    prompt.append(self.text.as_str());
                    prompt.append("\n\n");
                    prompt.append(self.feedback.as_str());
                    Action::Complete(prompt)
                }
            },
            Phase::Streaming => Action::NextChunk,
            Phase::Dispatching => {
                let request = &self.pending[self.cursor];
                Action::Dispatch(
                    ToolRequest {
                        tool_name: request.tool_name.clone(),
                        input: request.input.clone(),
                    },
                )
            },
            Phase::Finished => Action::Finish,
        }
    }

    /// Ends the run with an `Internal` failure: the event was not asked for.
    fn reject(&mut self)
        requires
            old(self).wf(),
            old(self)@.phase != Phase::Finished,
        ensures
            final(self).wf(),
            final(self)@ == old(self)@.failed(
                ErrorView { code: ErrorCode::Internal, message: unexpected_event_message() },
            ),
    {
        self.failure = Some(CoreError::new(ErrorCode::Internal, "unexpected event"));
        self.phase = Phase::Finished;
        assert(self@ =~= old(self)@.failed(
            ErrorView { code: ErrorCode::Internal, message: unexpected_event_message() },
        ));
    }

    /// Inspects the output of the current step for tool requests.
    fn inspect(&mut self)
        requires
            old(self)@.limits.wf(),
            old(self)@.syntax.wf(),
            distinct_urls(old(self)@.sources),
            old(self)@.step < old(self)@.limits.max_steps,
        ensures
            final(self).wf(),
            final(self)@ == old(self)@.inspected(),
    {
        let requests = parse_requests(
            &self.syntax,
            self.step_text.as_str(),
            self.limits.max_requests,
        );
        if requests.len() == 0 {
            self.phase = Phase::Finished;
        } else {
            self.pending = requests;
            self.cursor = 0;
            self.phase = Phase::Dispatching;
        }
    }

    /// Records the outcome of the current request.
    fn record(&mut self, outcome: ToolOutcome)
        requires
            old(self).wf(),
            old(self)@.phase == Phase::Dispatching,
        ensures
            final(self).wf(),
            final(self)@ == old(self)@.recorded(outcome@),
    {
        let at = self.cursor;
        let count = self.pending.len();
        let entry = trace_entry(&self.pending[at], &outcome);
        self.feedback.append(entry.tool_name.as_str());
        self.feedback.append(": ");
        self.feedback.append(entry.output_summary.as_str());
        self.feedback.append("\n");
        assert(self.feedback@ =~= old(self)@.feedback + feedback_line(entry@));
        let ghost before = trace_views(self.trace@);
        self.trace.push(entry);
        assert(trace_views(self.trace@) =~= before.push(entry@));
        match outcome {
            ToolOutcome::Returned(output) => {
                match extract_source(output.as_str()) {
                    Some(source) => {
                        add_source(&mut self.sources, source);
                    },
                    None => {},
                }
            },
            _ => {},
        }
        proof {
            lemma_sources_after(old(self)@.sources, outcome@);
        }
        self.cursor = at + 1;
        if at + 1 < count {
        } else if self.step + 1 < self.limits.max_steps {
            self.step = self.step + 1;
            self.phase = Phase::Starting;
        } else {
            self.phase = Phase::Finished;
        }
    }

    /// Takes the event with which the last action ended.
    pub fn advance(&mut self, event: Event)
        requires
            old(self).wf(),
        ensures
            final(self).wf(),
            final(self)@ == old(self)@.step(event@),
    {
        match self.phase {
            Phase::Finished => {},
            Phase::Starting => match event {
                Event::Started => {
                    self.phase = Phase::Streaming;
                    self.chunks_in_step = 0;
                    self.step_text = String::new();
                    self.feedback = String::new();
                },
                Event::StartFailed(error) => {
                    if !self.streamed {
                        self.failure = Some(error);
                    }
                    self.phase = Phase::Finished;
                },
                _ => {
                    self.reject();
                },
            },
            Phase::Streaming => match event {
                Event::Chunk(chunk) => {
                    self.text.append(chunk.text.as_str());
                    self.step_text.append(chunk.text.as_str());
                    self.streamed = true;
                    self.chunks_in_step = self.chunks_in_step + 1;
                    if self.chunks_in_step >= self.limits.max_chunks {
                        self.inspect();
                    } else {
                    }
                },
                Event::StreamEnded => {
                    self.inspect();
                },
                _ => {
                    self.reject();
                },
            },
            Phase::Dispatching => match event {
                Event::Dispatched(outcome) => {
                    self.record(outcome);
                },
                _ => {
                    self.reject();
                },
            },
        }
    }

    /// Ends the run and hands out its result: the failure if the run failed,
    /// the answer otherwise. A run that has not finished gives an `Internal`
    /// failure.
    pub fn into_result(self) -> (r: Result<FinalAnswer, CoreError>)
        requires
            self.wf(),
        ensures
            match self@.outcome() {
                Some(Ok(answer)) => r matches Ok(a) && a@ == answer && a.wf(),
                Some(Err(error)) => r matches Err(e) && e@ == error,
                None => r matches Err(e) && e@ == (ErrorView {
                    code: ErrorCode::Internal,
                    message: unfinished_message(),
                }),
            },
    {
        if self.phase != Phase::Finished {
            return Err(CoreError::new(ErrorCode::Internal, "run has not finished"));
        }
        match self.failure {
            Some(error) => Err(error),
            None => Ok(
                FinalAnswer { text: self.text, sources: self.sources, tool_trace: self.trace },
            ),
        }
    }
}

/// A call adds at most one source and keeps the URLs distinct.
pub proof fn lemma_sources_after(sources: Seq<SourceView>, outcome: OutcomeView)
    requires
        distinct_urls(sources),
    ensures
        distinct_urls(sources_after(sources, outcome)),
        sources.len() <= sources_after(sources, outcome).len() <= sources.len() + 1,
        forall|i: int| 0 <= i < sources.len() ==> sources_after(sources, outcome)[i] == sources[i],
{
    match outcome {
        OutcomeView::Returned(output) => match source_named(output) {
            Some(source) => {
                lemma_with_source(sources, source);
            },
            None => {},
        },
        _ => {},
    }
}

} // verus!
