//! What holds of every run, proved from the state machine. A run is told by
//! the events that its driver reported; the laws speak of the state that
//! replaying them gives, whatever backend, stream and tools returned.

use vstd::prelude::*;
use crate::engine::{lemma_sources_after, EngineView, EventView, Phase};
use crate::errors::{ErrorCode, ErrorView};
use crate::model::{cites, distinct_urls, AnswerView};
use crate::sources::{lemma_with_source, source_named};
use crate::syntax::{lemma_requests_bounded, lemma_requests_need_text, requests_in};
use crate::trace::{entry_for, failure_summary, missing_tool_message, OutcomeView};
use crate::transcript::{
    admits, chunk_texts, dispatch_count, is_run, joined, registered, replay,
};

verus! {

/// Every event that a run asked for keeps its invariant and brings it nearer
/// to its end: the steps left, then the rank of the phase, then the budget of
/// the phase fall in this order of weight. So every driver that reports only
/// events asked for comes to an end.
pub proof fn lemma_progress(state: EngineView, event: EventView)
    requires
        state.wf(),
        state.accepts(event),
    ensures
        state.step(event).wf(),
        state.step(event).steps_left() < state.steps_left() || (state.step(event).steps_left()
            == state.steps_left() && (state.step(event).phase_rank() < state.phase_rank() || (
        state.step(event).phase_rank() == state.phase_rank() && state.step(event).phase_budget()
            < state.phase_budget()))),
{
    match event {
        EventView::Dispatched(outcome) => {
            lemma_sources_after(state.sources, outcome);
        },
        _ => {},
    }
}

/// What the state of a run holds of the events that led to it: the text is the
/// chunks joined, the trace has an entry for each dispatch, a failure is the
/// failed start that came last and before any chunk, and tools are dispatched
/// only after output was read.
pub open spec fn reflects(state: EngineView, events: Seq<EventView>) -> bool {
    &&& state.wf()
    &&& state.text == joined(chunk_texts(events))
    &&& state.streamed == (chunk_texts(events).len() > 0)
    &&& state.tool_trace.len() == dispatch_count(events)
    &&& state.failure is Some ==> {
        &&& state.phase == Phase::Finished
        &&& !state.streamed
        &&& events.len() > 0
        &&& events.last() == EventView::StartFailed(state.failure->0)
    }
    &&& state.step_text.len() > 0 ==> state.streamed
    &&& state.phase == Phase::Dispatching ==> state.streamed
    &&& state.step > 0 ==> state.streamed
}

/// One more event of a run keeps what the state reflects of the events, and
/// leaves syntax, limits and query as they were.
pub proof fn lemma_reflects_step(
    names: Seq<Seq<char>>,
    state: EngineView,
    events: Seq<EventView>,
    event: EventView,
)
    requires
        reflects(state, events),
        admits(names, state, event),
    ensures
        reflects(state.step(event), events.push(event)),
        state.step(event).syntax == state.syntax,
        state.step(event).limits == state.limits,
        state.step(event).query == state.query,
{
    let all = events.push(event);
    assert(all.drop_last() =~= events);
    lemma_progress(state, event);
    match event {
        EventView::Chunk(text) => {
            assert(joined(chunk_texts(all)) == joined(chunk_texts(events)) + text) by {
                assert(chunk_texts(all).drop_last() =~= chunk_texts(events));
            }
        },
        EventView::StreamEnded => {
            if requests_in(state.syntax, state.step_text, state.limits.max_requests as nat).len()
                > 0 {
                lemma_requests_need_text(
                    state.syntax,
                    state.step_text,
                    state.limits.max_requests as nat,
                );
            }
        },
        _ => {},
    }
}

/// The state in which a run stands reflects its events, and the run leaves
/// syntax, limits and query as they were.
pub proof fn lemma_run_reflects(
    names: Seq<Seq<char>>,
    start: EngineView,
    events: Seq<EventView>,
)
    requires
        start.is_initial(),
        is_run(names, start, events),
    ensures
        reflects(replay(start, events), events),
        replay(start, events).syntax == start.syntax,
        replay(start, events).limits == start.limits,
        replay(start, events).query == start.query,
    decreases events.len(),
{
    if events.len() == 0 {
    } else {
        let before = events.drop_last();
        lemma_run_reflects(names, start, before);
        lemma_reflects_step(names, replay(start, before), before, events.last());
        assert(before.push(events.last()) =~= events);
    }
}

/// The events before index `upto` of a run tell a run too.
pub proof fn lemma_run_prefix(
    names: Seq<Seq<char>>,
    start: EngineView,
    events: Seq<EventView>,
    upto: int,
)
    requires
        is_run(names, start, events),
        0 <= upto <= events.len(),
    ensures
        is_run(names, start, events.take(upto)),
    decreases events.len(),
{
    if upto == events.len() {
        assert(events.take(upto) =~= events);
    } else {
        lemma_run_prefix(names, start, events.drop_last(), upto);
        assert(events.drop_last().take(upto) =~= events.take(upto));
    }
}

/// A run only adds to what it has: the chunks read, the trace written and the
/// sources cited before index `upto` stay, in their places, to the end of the
/// run. So the trace keeps the order of the calls and the sources the order
/// in which they were first seen.
pub proof fn lemma_run_extends(
    names: Seq<Seq<char>>,
    start: EngineView,
    events: Seq<EventView>,
    upto: int,
)
    requires
        start.wf(),
        is_run(names, start, events),
        0 <= upto <= events.len(),
    ensures
        replay(start, events).wf(),
        chunk_texts(events.take(upto)).is_prefix_of(chunk_texts(events)),
        replay(start, events.take(upto)).tool_trace.is_prefix_of(
            replay(start, events).tool_trace,
        ),
        replay(start, events.take(upto)).sources.is_prefix_of(replay(start, events).sources),
    decreases events.len(),
{
    if upto == events.len() {
        assert(events.take(upto) =~= events);
        if events.len() > 0 {
            lemma_run_extends(names, start, events.drop_last(), 0);
            lemma_progress(replay(start, events.drop_last()), events.last());
        }
    } else {
        let before = events.drop_last();
        lemma_run_extends(names, start, before, upto);
        assert(before.take(upto) =~= events.take(upto));
        lemma_progress(replay(start, before), events.last());
        match events.last() {
            EventView::Dispatched(outcome) => {
                lemma_sources_after(replay(start, before).sources, outcome);
            },
            _ => {},
        }
    }
}

/// The sources of a run have distinct URLs, whatever the tools returned and
/// however often they named the same source.
pub proof fn lemma_sources_stay_distinct(
    names: Seq<Seq<char>>,
    start: EngineView,
    events: Seq<EventView>,
)
    requires
        start.is_initial(),
        is_run(names, start, events),
    ensures
        distinct_urls(replay(start, events).sources),
{
    lemma_run_reflects(names, start, events);
}

/// A source that a tool output named is cited at the end of the run.
pub proof fn lemma_named_source_is_cited(
    names: Seq<Seq<char>>,
    start: EngineView,
    events: Seq<EventView>,
    at: int,
    output: Seq<char>,
)
    requires
        start.is_initial(),
        is_run(names, start, events),
        0 <= at < events.len(),
        events[at] == EventView::Dispatched(OutcomeView::Returned(output)),
        source_named(output) is Some,
    ensures
        cites(replay(start, events).sources, source_named(output)->0.url),
{
    let head = events.take(at);
    let upto = events.take(at + 1);
    lemma_run_prefix(names, start, events, at);
    lemma_run_prefix(names, start, events, at + 1);
    assert(upto.drop_last() =~= head);
    lemma_run_reflects(names, start, head);
    lemma_run_extends(names, start, events, at + 1);
    let after = replay(start, upto);
    let source = source_named(output)->0;
    lemma_with_source(replay(start, head).sources, source);
    let i = choose|i: int| 0 <= i < after.sources.len() && after.sources[i].url == source.url;
    assert(replay(start, events).sources[i].url == source.url);
}

/// The trace of a run has one entry for each request that was dispatched,
/// failed lookups among them.
pub proof fn lemma_trace_counts_dispatches(
    names: Seq<Seq<char>>,
    start: EngineView,
    events: Seq<EventView>,
)
    requires
        start.is_initial(),
        is_run(names, start, events),
    ensures
        replay(start, events).tool_trace.len() == dispatch_count(events),
{
    lemma_run_reflects(names, start, events);
}

/// The text of a run is the texts of its chunks, joined in the order in which
/// the backend produced them.
pub proof fn lemma_text_joins_chunks(
    names: Seq<Seq<char>>,
    start: EngineView,
    events: Seq<EventView>,
)
    requires
        start.is_initial(),
        is_run(names, start, events),
    ensures
        replay(start, events).text == joined(chunk_texts(events)),
{
    lemma_run_reflects(names, start, events);
}

/// A run fails only where the backend could not begin its first completion:
/// the failed start is the only event of the run, and the failure is the one
/// the backend reported, code and message. So a failed run holds no chunk and
/// no tool call.
pub proof fn lemma_failure_is_failed_start(
    names: Seq<Seq<char>>,
    start: EngineView,
    events: Seq<EventView>,
    error: ErrorView,
)
    requires
        start.is_initial(),
        is_run(names, start, events),
        replay(start, events).outcome() == Some(Err::<AnswerView, ErrorView>(error)),
    ensures
        events == seq![EventView::StartFailed(error)],
        chunk_texts(events).len() == 0,
        dispatch_count(events) == 0,
{
    lemma_run_reflects(names, start, events);
    assert(events.drop_last().len() == 0);
    assert(events =~= seq![EventView::StartFailed(error)]);
}

/// A run whose backend began its first completion does not fail, whatever
/// came after: once there is a completion, there is an answer.
pub proof fn lemma_begun_run_does_not_fail(
    names: Seq<Seq<char>>,
    start: EngineView,
    events: Seq<EventView>,
)
    requires
        start.is_initial(),
        is_run(names, start, events),
        events.len() > 0,
        events[0] == EventView::Started,
    ensures
        replay(start, events).failure is None,
{
    let end = replay(start, events);
    lemma_run_reflects(names, start, events);
    if end.failure is Some {
        lemma_failure_is_failed_start(names, start, events, end.failure->0);
    }
}

/// Where the backend cannot begin and no chunk was read before, the run ends
/// with the failure that the backend reported.
pub proof fn lemma_failed_start_fails_run(
    names: Seq<Seq<char>>,
    start: EngineView,
    events: Seq<EventView>,
    error: ErrorView,
)
    requires
        start.is_initial(),
        is_run(names, start, events),
        events.len() > 0,
        events.last() == EventView::StartFailed(error),
        chunk_texts(events).len() == 0,
    ensures
        replay(start, events).outcome() == Some(Err::<AnswerView, ErrorView>(error)),
{
    lemma_run_reflects(names, start, events.drop_last());
}

/// Each dispatch of a run is written into the trace, at the index that counts
/// the dispatches before it, with the request that was handed out and the
/// summary of its outcome; and a run in which a request was dispatched does
/// not fail.
pub proof fn lemma_dispatch_is_recorded(
    names: Seq<Seq<char>>,
    start: EngineView,
    events: Seq<EventView>,
    at: int,
    outcome: OutcomeView,
)
    requires
        start.is_initial(),
        is_run(names, start, events),
        0 <= at < events.len(),
        events[at] == EventView::Dispatched(outcome),
    ensures
        ({
            let before = replay(start, events.take(at));
            let end = replay(start, events);
            let index = dispatch_count(events.take(at)) as int;
            &&& before.phase == Phase::Dispatching
            &&& before.cursor < before.pending.len()
            &&& index < end.tool_trace.len()
            &&& end.tool_trace[index] == entry_for(before.pending[before.cursor as int], outcome)
            &&& end.failure is None
        }),
{
    let head = events.take(at);
    let upto = events.take(at + 1);
    lemma_run_prefix(names, start, events, at);
    lemma_run_prefix(names, start, events, at + 1);
    assert(upto.drop_last() =~= head);
    lemma_run_reflects(names, start, head);
    lemma_run_reflects(names, start, upto);
    lemma_run_reflects(names, start, events);
    lemma_run_extends(names, start, events, at);
    lemma_run_extends(names, start, events, at + 1);
    let written = replay(start, upto).tool_trace;
    let end = replay(start, events);
    let index = dispatch_count(head) as int;
    assert(end.tool_trace[index] == end.tool_trace.subrange(0, written.len() as int)[index]);
}

/// A request is dispatched as a failed lookup exactly when no tool of its name
/// is registered, and a failed lookup is written into the trace as an
/// `Internal` failure; the run goes on and does not fail.
pub proof fn lemma_missing_tool_is_recorded(
    names: Seq<Seq<char>>,
    start: EngineView,
    events: Seq<EventView>,
    at: int,
)
    requires
        start.is_initial(),
        is_run(names, start, events),
        0 <= at < events.len(),
        events[at] is Dispatched,
    ensures
        ({
            let before = replay(start, events.take(at));
            let end = replay(start, events);
            let index = dispatch_count(events.take(at)) as int;
            let request = before.pending[before.cursor as int];
            &&& index < end.tool_trace.len()
            &&& !registered(names, request.tool_name) <==> events[at] == EventView::Dispatched(
                OutcomeView::Missing,
            )
            &&& !registered(names, request.tool_name) ==> {
                &&& end.tool_trace[index].tool_name == request.tool_name
                &&& end.tool_trace[index].input == request.input
                &&& end.tool_trace[index].output_summary == failure_summary(
                    ErrorCode::Internal,
                    missing_tool_message(),
                )
                &&& end.failure is None
            }
        }),
{
    lemma_dispatch_is_recorded(names, start, events, at, events[at]->Dispatched_0);
    lemma_run_prefix(names, start, events, at + 1);
    assert(events.take(at + 1).drop_last() =~= events.take(at));
}

/// What bounds the trace of a state: each finished step wrote at most as many
/// entries as the limits allow requests in a step.
pub open spec fn within_bounds(state: EngineView) -> bool {
    let per_step = state.limits.max_requests as int;
    match state.phase {
        Phase::Dispatching => {
            &&& state.pending.len() <= per_step
            &&& state.tool_trace.len() <= state.step * per_step + state.cursor
        },
        Phase::Finished => state.tool_trace.len() <= state.limits.max_steps * per_step,
        _ => state.tool_trace.len() <= state.step * per_step,
    }
}

/// One more event of a run keeps the trace within its bounds.
proof fn lemma_bounds_step(state: EngineView, event: EventView)
    requires
        state.wf(),
        state.accepts(event),
        within_bounds(state),
    ensures
        within_bounds(state.step(event)),
{
    let per_step = state.limits.max_requests as int;
    let steps = state.limits.max_steps as int;
    let step = state.step as int;
    assert(step * per_step <= steps * per_step) by (nonlinear_arith)
        requires
            0 <= step <= steps,
            0 <= per_step,
    ;
    assert((step + 1) * per_step == step * per_step + per_step) by (nonlinear_arith);
    assert((step + 1) * per_step <= steps * per_step) by (nonlinear_arith)
        requires
            0 <= step < steps,
            0 <= per_step,
    ;
    lemma_requests_bounded(state.syntax, state.step_text, 0, state.limits.max_requests as nat);
    match event {
        EventView::Chunk(text) => {
            lemma_requests_bounded(
                state.syntax,
                state.step_text + text,
                0,
                state.limits.max_requests as nat,
            );
        },
        _ => {},
    }
}

/// A run dispatches no more requests than its limits allow: the number of
/// steps times the number of requests in a step.
pub proof fn lemma_dispatches_are_bounded(
    names: Seq<Seq<char>>,
    start: EngineView,
    events: Seq<EventView>,
)
    requires
        start.is_initial(),
        is_run(names, start, events),
    ensures
        within_bounds(replay(start, events)),
        dispatch_count(events) <= start.limits.max_steps * start.limits.max_requests,
    decreases events.len(),
{
    let per_step = start.limits.max_requests as int;
    let steps = start.limits.max_steps as int;
    lemma_run_reflects(names, start, events);
    if events.len() > 0 {
        let before = events.drop_last();
        lemma_dispatches_are_bounded(names, start, before);
        lemma_run_reflects(names, start, before);
        lemma_bounds_step(replay(start, before), events.last());
    }
    let end = replay(start, events);
    let step = end.step as int;
    if end.phase != Phase::Finished {
        assert(step * per_step + per_step <= steps * per_step) by (nonlinear_arith)
            requires
                0 <= step < steps,
                0 <= per_step,
        ;
    }
}

} // verus!
