//! Running a query: the configuration, and the driver that performs what the
//! engine asks for. The driver calls the backend, reads the stream, forwards
//! each chunk to the sink as it is read, and dispatches tool requests to the
//! registry. Nothing is assumed of what a capability returns: the contracts
//! hold whatever came back.

use vstd::prelude::*;
use crate::capability::{ChunkSink, ChunkStream, Forwarder, ModelBackend, Silent, Tool};
use crate::engine::{
    start_failure, Action, Engine, EngineView, Event, EventView, Limits, Phase,
};
use crate::errors::{CoreError, ErrorCode, ErrorView};
use crate::laws::{lemma_failure_is_failed_start, lemma_progress, lemma_run_reflects};
use crate::model::{distinct_urls, AnswerView, FinalAnswer, UserQuery};
use crate::syntax::{RequestSyntax, SyntaxView};
use crate::trace::ToolOutcome;
use crate::transcript::{
    admits, chunk_texts, dispatch_count, is_run, joined, registered, replay,
};

verus! {

/// What a run is configured with: the active backend, the registry of tools,
/// the syntax of tool requests and the bounds of the run. A run reads the
/// configuration and never changes it.
pub struct AppConfig {
    /// The active backend, if one is configured.
    pub backend: Option<Box<dyn ModelBackend>>,
    /// The registered tools. Each is found by its name.
    pub tools: Vec<Box<dyn Tool>>,
    /// How tool requests are written in model output.
    pub syntax: RequestSyntax,
    /// The bounds of a run.
    pub limits: Limits,
}

impl AppConfig {
    /// Whether syntax and limits are usable.
    pub open spec fn settings_valid(&self) -> bool {
        self.syntax@.wf() && self.limits.wf()
    }

    /// The state in which a run of the query begins.
    pub open spec fn initial_state(&self, query: Seq<char>) -> EngineView {
        EngineView::initial(self.syntax@, self.limits, query)
    }

    /// A configuration without backend and without tools, with the bracketed
    /// request syntax and the standard limits.
    pub fn new() -> (c: Self)
        ensures
            c.backend is None,
            c.tools@.len() == 0,
            c.syntax@ == SyntaxView::bracketed(),
            c.limits == Limits::standard_limits(),
            c.settings_valid(),
    {
        AppConfig {
            backend: None,
            tools: Vec::new(),
            syntax: RequestSyntax::bracketed(),
            limits: Limits::standard(),
        }
    }

    /// The configuration with the given backend as the active one.
    pub fn with_backend(self, backend: Box<dyn ModelBackend>) -> (c: Self)
        ensures
            c.backend == Some(backend),
            c.tools == self.tools,
            c.syntax == self.syntax,
            c.limits == self.limits,
    {
        let active = Some(backend);
        AppConfig { backend: active, tools: self.tools, syntax: self.syntax, limits: self.limits }
    }

    /// The configuration with one more tool registered.
    pub fn with_tool(self, tool: Box<dyn Tool>) -> (c: Self)
        ensures
            c.backend == self.backend,
            c.tools@ == self.tools@.push(tool),
            c.syntax == self.syntax,
            c.limits == self.limits,
    {
        let mut tools = self.tools;
        tools.push(tool);
        AppConfig { backend: self.backend, tools, syntax: self.syntax, limits: self.limits }
    }

    /// The configuration with another request syntax.
    pub fn with_syntax(self, syntax: RequestSyntax) -> (c: Self)
        ensures
            c.backend == self.backend,
            c.tools == self.tools,
            c.syntax == syntax,
            c.limits == self.limits,
    {
        AppConfig { backend: self.backend, tools: self.tools, syntax, limits: self.limits }
    }

    /// The configuration with other limits.
    pub fn with_limits(self, limits: Limits) -> (c: Self)
        ensures
            c.backend == self.backend,
            c.tools == self.tools,
            c.syntax == self.syntax,
            c.limits == limits,
    {
        AppConfig { backend: self.backend, tools: self.tools, syntax: self.syntax, limits }
    }
}

/// The views of a sequence of strings, in order.
pub open spec fn string_views(s: Seq<String>) -> Seq<Seq<char>> {
    Seq::new(s.len(), |i: int| s[i]@)
}

/// Finds the first name of the list that equals `wanted`.
pub fn lookup(names: &Vec<String>, wanted: &String) -> (r: Option<usize>)
    ensures
        match r {
            Some(at) => {
                &&& at < names.len()
                &&& names[at as int]@ == wanted@
                &&& forall|j: int| 0 <= j < at ==> names[j]@ != wanted@
            },
            None => !registered(string_views(names@), wanted@),
        },
{
    let mut i: usize = 0;
    while i < names.len()
        invariant
            i <= names.len(),
            forall|j: int| 0 <= j < i ==> names[j]@ != wanted@,
        decreases names.len() - i,
    {
        if names[i] == *wanted {
            return Some(i);
        }
        i += 1;
    }
    assert forall|j: int| 0 <= j < string_views(names@).len() implies string_views(names@)[j]
        != wanted@ by {
    }
    None
}

/// Whether two names of the list are equal.
pub fn has_duplicates(names: &Vec<String>) -> (r: bool)
    ensures
        r == !string_views(names@).no_duplicates(),
{
    let ghost views = string_views(names@);
    let mut i: usize = 0;
    while i < names.len()
        invariant
            i <= names.len(),
            views == string_views(names@),
            forall|a: int, b: int| 0 <= a < i && 0 <= b < names.len() && a != b ==> views[a]
                != views[b],
        decreases names.len() - i,
    {
        let mut j: usize = 0;
        while j < names.len()
            invariant
                i < names.len(),
                j <= names.len(),
                views == string_views(names@),
                forall|b: int| 0 <= b < j && b != i ==> views[i as int] != views[b],
            decreases names.len() - j,
        {
            if j != i && names[i] == names[j] {
                assert(views[i as int] == views[j as int]);
                return true;
            }
            j += 1;
        }
        i += 1;
    }
    false
}

/// The failure of a run whose configuration has no active backend.
pub open spec fn missing_backend() -> ErrorView {
    ErrorView { code: ErrorCode::ConfigMissing, message: "no active backend"@ }
}

/// The failure of a run in whose registry two tools have the same name.
pub open spec fn ambiguous_registry() -> ErrorView {
    ErrorView { code: ErrorCode::ConfigInvalid, message: "two tools share a name"@ }
}

/// The result of a run, as plain values.
pub open spec fn result_view(r: Result<FinalAnswer, CoreError>) -> Result<AnswerView, ErrorView> {
    match r {
        Ok(answer) => Ok(answer@),
        Err(error) => Err(error@),
    }
}

/// Whether registry names and events account for a result. Where the names
/// are distinct, the events tell a run of the engine from its initial state,
/// and the run ended with the result. Where two tools answered with the same
/// name, there are no events and the result is the failure of an ambiguous
/// registry.
pub open spec fn accounts_for(
    config: &AppConfig,
    query: Seq<char>,
    names: Seq<Seq<char>>,
    events: Seq<EventView>,
    r: Result<FinalAnswer, CoreError>,
) -> bool {
    &&& names.len() == config.tools@.len()
    &&& if names.no_duplicates() {
        &&& is_run(names, config.initial_state(query), events)
        &&& replay(config.initial_state(query), events).outcome() == Some(result_view(r))
    } else {
        &&& events.len() == 0
        &&& r matches Err(error)
        &&& error@ == ambiguous_registry()
    }
}

/// What an account tells of the result of a run whose settings are usable. An
/// answer has the chunks of the events as its text, joined, one trace entry
/// for each dispatch among them, and sources of distinct URLs. A failure is
/// that of an ambiguous registry, or the one with which the backend could not
/// begin its first completion, which then is the only event.
pub proof fn lemma_account(
    config: &AppConfig,
    query: Seq<char>,
    names: Seq<Seq<char>>,
    events: Seq<EventView>,
    r: Result<FinalAnswer, CoreError>,
)
    requires
        config.settings_valid(),
        accounts_for(config, query, names, events, r),
    ensures
        match r {
            Ok(answer) => {
                &&& names.no_duplicates()
                &&& answer@.text == joined(chunk_texts(events))
                &&& answer@.tool_trace.len() == dispatch_count(events)
                &&& distinct_urls(answer@.sources)
            },
            Err(error) => if names.no_duplicates() {
                events == seq![EventView::StartFailed(error@)]
            } else {
                events.len() == 0 && error@ == ambiguous_registry()
            },
        },
{
    let start = config.initial_state(query);
    if names.no_duplicates() {
        lemma_run_reflects(names, start, events);
        match r {
            Err(error) => {
                lemma_failure_is_failed_start(names, start, events, error@);
            },
            Ok(_) => {},
        }
    }
}

/// Asks each tool for its name.
fn tool_names(tools: &Vec<Box<dyn Tool>>) -> (names: Vec<String>)
    ensures
        names.len() == tools.len(),
{
    let mut names: Vec<String> = Vec::new();
    let mut i: usize = 0;
    while i < tools.len()
        invariant
            i <= tools.len(),
            names.len() == i,
        decreases tools.len() - i,
    {
        names.push(tools[i].name().to_owned());
        i += 1;
    }
    names
}

/// Runs a query and forwards each chunk to the sink at the moment it is read.
///
/// A configuration without active backend fails with `ConfigMissing`, one
/// with unusable syntax or limits with `ConfigInvalid`, before anything is
/// called. Otherwise the tools are asked for their names, and the result is
/// that of the engine, driven by what backend, stream and tools returned: some
/// registry names and some events account for it, and the sink was handed the
/// chunks among those events, in order and nothing else. Whatever was
/// returned: the sources of an answer have distinct URLs, the text of an
/// answer is what was forwarded to the sink, joined, and a failed run forwards
/// nothing.
pub fn run_query_streaming<S: ChunkSink>(
    config: &AppConfig,
    query: UserQuery,
    sink: &mut Forwarder<S>,
) -> (r: Result<FinalAnswer, CoreError>)
    ensures
        old(sink).forwarded().is_prefix_of(final(sink).forwarded()),
        config.backend is None ==> (r matches Err(e) && e@ == missing_backend()),
        config.backend is Some && !config.settings_valid() ==> (r matches Err(e) && Some(e@)
            == start_failure(config.syntax@, config.limits)),
        config.backend is Some && config.settings_valid() ==> exists|
            names: Seq<Seq<char>>,
            events: Seq<EventView>,
        |
            {
                &&& accounts_for(config, query.text@, names, events, r)
                &&& final(sink).forwarded().skip(old(sink).forwarded().len() as int)
                    == chunk_texts(events)
            },
        r matches Ok(answer) ==> (answer.wf() && answer.text@ == joined(
            final(sink).forwarded().skip(old(sink).forwarded().len() as int),
        )),
        r is Err ==> final(sink).forwarded() == old(sink).forwarded(),
{
    let ghost sent_before = sink.forwarded();
    let backend = match &config.backend {
        Some(backend) => backend,
        None => {
            return Err(CoreError::new(ErrorCode::ConfigMissing, "no active backend"));
        },
    };
    let mut engine = match Engine::start(
        config.syntax.duplicate(),
        config.limits,
        query.text.as_str(),
    ) {
        Ok(engine) => engine,
        Err(error) => {
            return Err(error);
        },
    };
    let names = tool_names(&config.tools);
    let ghost registry = string_views(names@);
    let ghost start = config.initial_state(query.text@);
    let ghost mut events: Seq<EventView> = Seq::empty();
    if has_duplicates(&names) {
        let r = Err(CoreError::new(ErrorCode::ConfigInvalid, "two tools share a name"));
        assert(accounts_for(config, query.text@, registry, events, r));
        return r;
    }
    let mut stream: Option<Box<dyn ChunkStream>> = None;
    loop
        invariant
            engine.wf(),
            config.settings_valid(),
            start == config.initial_state(query.text@),
            registry == string_views(names@),
            registry.len() == config.tools@.len(),
            registry.no_duplicates(),
            is_run(registry, start, events),
            engine@ == replay(start, events),
            sent_before.is_prefix_of(sink.forwarded()),
            sink.forwarded().skip(sent_before.len() as int) == chunk_texts(events),
        ensures
            engine.wf(),
            engine@.phase == Phase::Finished,
            is_run(registry, start, events),
            engine@ == replay(start, events),
            sent_before.is_prefix_of(sink.forwarded()),
            sink.forwarded().skip(sent_before.len() as int) == chunk_texts(events),
        decreases engine@.steps_left(), engine@.phase_rank(), engine@.phase_budget(),
    {
        let event = match engine.action() {
            Action::Finish => {
                break ;
            },
            Action::Complete(text) => {
                let step_query = query.with_text(text);
                match backend.complete(&step_query) {
                    Ok(opened) => {
                        stream = Some(opened);
                        Event::Started
                    },
                    Err(error) => Event::StartFailed(error),
                }
            },
            Action::NextChunk => {
                let next = match &mut stream {
                    Some(open) => open.next_chunk(),
                    None => None,
                };
                match next {
                    Some(chunk) => {
                        let ghost sent = sink.forwarded();
                        sink.forward(&chunk);
                        assert(sink.forwarded().skip(sent_before.len() as int) =~= sent.skip(
                            sent_before.len() as int,
                        ).push(chunk.text@));
                        Event::Chunk(chunk)
                    },
                    None => Event::StreamEnded,
                }
            },
            Action::Dispatch(request) => {
                match lookup(&names, &request.tool_name) {
                    None => Event::Dispatched(ToolOutcome::Missing),
                    Some(at) => {
                        assert(registry[at as int] == request.tool_name@);
                        match config.tools[at].invoke(request.input.as_str()) {
                            Ok(output) => Event::Dispatched(ToolOutcome::Returned(output)),
                            Err(error) => Event::Dispatched(ToolOutcome::Failed(error)),
                        }
                    },
                }
            },
        };
        proof {
            lemma_progress(engine@, event@);
            let ghost longer = events.push(event@);
            assert(longer.drop_last() =~= events);
            events = longer;
        }
        engine.advance(event);
    }
    proof {
        lemma_run_reflects(registry, start, events);
    }
    let r = engine.into_result();
    assert(accounts_for(config, query.text@, registry, events, r));
    r
}

/// Runs a query for a caller who asked for no streaming.
///
/// A configuration without active backend fails with `ConfigMissing`, one
/// with unusable syntax or limits with `ConfigInvalid`, before anything is
/// called. Otherwise the tools are asked for their names, and the result is
/// that of the engine, driven by what backend, stream and tools returned: some
/// registry names and some events account for it. Whatever was returned, the
/// sources of an answer have distinct URLs.
pub fn run_query(config: &AppConfig, query: UserQuery) -> (r: Result<FinalAnswer, CoreError>)
    ensures
        config.backend is None ==> (r matches Err(e) && e@ == missing_backend()),
        config.backend is Some && !config.settings_valid() ==> (r matches Err(e) && Some(e@)
            == start_failure(config.syntax@, config.limits)),
        config.backend is Some && config.settings_valid() ==> exists|
            names: Seq<Seq<char>>,
            events: Seq<EventView>,
        |
            accounts_for(config, query.text@, names, events, r),
        r matches Ok(answer) ==> answer.wf(),
{
    let mut sink = Forwarder::new(Silent);
    run_query_streaming(config, query, &mut sink)
}

} // verus!
