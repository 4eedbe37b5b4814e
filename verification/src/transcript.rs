//! Runs as sequences of events. A run is told by the events that its driver
//! reported, in order: replaying them from the initial state gives the state
//! in which the run ended.

use vstd::prelude::*;
use crate::engine::{EngineView, EventView};

verus! {

/// The state reached from `start` by the events, in order.
pub open spec fn replay(start: EngineView, events: Seq<EventView>) -> EngineView
    decreases events.len(),
{
    if events.len() == 0 {
        start
    } else {
        replay(start, events.drop_last()).step(events.last())
    }
}

/// Whether a tool of the given name is registered.
pub open spec fn registered(names: Seq<Seq<char>>, name: Seq<char>) -> bool {
    names.contains(name)
}

/// Whether the event may be reported in the state: the state asked for an
/// event of its kind, and a dispatch reports a missing tool exactly when no
/// tool of the requested name is registered.
pub open spec fn admits(names: Seq<Seq<char>>, state: EngineView, event: EventView) -> bool {
    &&& state.accepts(event)
    &&& event matches EventView::Dispatched(outcome) ==> (outcome is Missing <==> !registered(
        names,
        state.pending[state.cursor as int].tool_name,
    ))
}

/// Whether the events tell a run from `start` with the given registry: each
/// was admitted by the state in which it arrived.
pub open spec fn is_run(names: Seq<Seq<char>>, start: EngineView, events: Seq<EventView>) -> bool
    decreases events.len(),
{
    events.len() == 0 || (is_run(names, start, events.drop_last()) && admits(
        names,
        replay(start, events.drop_last()),
        events.last(),
    ))
}

/// The texts of the chunks among the events, in order.
pub open spec fn chunk_texts(events: Seq<EventView>) -> Seq<Seq<char>>
    decreases events.len(),
{
    if events.len() == 0 {
        Seq::empty()
    } else {
        match events.last() {
            EventView::Chunk(text) => chunk_texts(events.drop_last()).push(text),
            _ => chunk_texts(events.drop_last()),
        }
    }
}

/// The number of dispatches among the events: each tool request handed out,
/// whether its tool was found or not.
pub open spec fn dispatch_count(events: Seq<EventView>) -> nat
    decreases events.len(),
{
    if events.len() == 0 {
        0
    } else if events.last() is Dispatched {
        dispatch_count(events.drop_last()) + 1
    } else {
        dispatch_count(events.drop_last())
    }
}

/// The texts, joined in order.
pub open spec fn joined(texts: Seq<Seq<char>>) -> Seq<char>
    decreases texts.len(),
{
    if texts.len() == 0 {
        Seq::empty()
    } else {
        joined(texts.drop_last()) + texts.last()
    }
}

} // verus!
