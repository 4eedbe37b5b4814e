use northline_core::engine::{Action, Engine, Event, Limits, Phase};
use northline_core::errors::{CoreError, ErrorCode};
use northline_core::model::{AnswerChunk, FinalAnswer, Source, ToolTrace};
use northline_core::syntax::{RequestSyntax, ToolRequest};
use northline_core::trace::ToolOutcome;

fn limits(steps: usize, requests: usize, chunks: usize) -> Limits {
    Limits { max_steps: steps, max_requests: requests, max_chunks: chunks }
}

fn engine(query: &str, l: Limits) -> Engine {
    Engine::start(RequestSyntax::bracketed(), l, query).unwrap()
}

fn chunk(text: &str) -> Event {
    Event::Chunk(AnswerChunk { text: text.to_string() })
}

fn completes(action: Action) -> String {
    match action {
        Action::Complete(text) => text,
        other => panic!("expected a completion, got {:?}", other),
    }
}

fn dispatches(action: Action) -> ToolRequest {
    match action {
        Action::Dispatch(request) => request,
        other => panic!("expected a dispatch, got {:?}", other),
    }
}

#[test]
fn standard_limits() {
    let l = Limits::standard();
    assert_eq!(l, limits(4, 8, 100_000));
    assert!(l.is_valid());
}

#[test]
fn limits_need_a_step_and_a_chunk() {
    assert!(limits(1, 0, 1).is_valid());
    assert!(!limits(0, 8, 8).is_valid());
    assert!(!limits(8, 8, 0).is_valid());
}

#[test]
fn start_refuses_unusable_settings() {
    let e = Engine::start(RequestSyntax::new("", "|", "]]"), Limits::standard(), "q").err().unwrap();
    assert_eq!(e.code, ErrorCode::ConfigInvalid);
    assert_eq!(e.message, "request syntax has an empty delimiter");
    let e = Engine::start(RequestSyntax::bracketed(), limits(0, 1, 1), "q").err().unwrap();
    assert_eq!(e.code, ErrorCode::ConfigInvalid);
    assert_eq!(e.message, "limits allow no completion");
    let e = Engine::start(RequestSyntax::new("", "", ""), limits(0, 0, 0), "q").err().unwrap();
    assert_eq!(e.message, "request syntax has an empty delimiter");
}

#[test]
fn first_action_completes_the_query() {
    let e = engine("what is up?", Limits::standard());
    assert_eq!(e.phase(), Phase::Starting);
    assert!(!e.is_finished());
    assert_eq!(completes(e.action()), "what is up?");
}

#[test]
fn plain_run_joins_the_chunks() {
    let mut e = engine("q", Limits::standard());
    e.advance(Event::Started);
    assert_eq!(e.phase(), Phase::Streaming);
    assert!(matches!(e.action(), Action::NextChunk));
    e.advance(chunk("The capital is "));
    e.advance(chunk("Paris."));
    assert!(matches!(e.action(), Action::NextChunk));
    e.advance(Event::StreamEnded);
    assert!(e.is_finished());
    assert!(matches!(e.action(), Action::Finish));
    assert_eq!(
        e.into_result().unwrap(),
        FinalAnswer { text: "The capital is Paris.".into(), sources: vec![], tool_trace: vec![] }
    );
}

#[test]
fn failed_start_fails_the_run_with_the_same_error() {
    let mut e = engine("q", Limits::standard());
    e.advance(Event::StartFailed(CoreError::new(ErrorCode::LocalModelLoadFailed, "no weights")));
    assert!(e.is_finished());
    let err = e.into_result().unwrap_err();
    assert_eq!(err.code, ErrorCode::LocalModelLoadFailed);
    assert_eq!(err.message, "no weights");
}

#[test]
fn empty_stream_gives_the_empty_answer() {
    let mut e = engine("q", Limits::standard());
    e.advance(Event::Started);
    e.advance(Event::StreamEnded);
    assert_eq!(
        e.into_result().unwrap(),
        FinalAnswer { text: "".into(), sources: vec![], tool_trace: vec![] }
    );
}

#[test]
fn requests_are_dispatched_in_order_and_fed_back() {
    let mut e = engine("q", Limits::standard());
    e.advance(Event::Started);
    e.advance(chunk("see [[tool:search|a]] and "));
    e.advance(chunk("[[tool:calc|1+1]]"));
    e.advance(Event::StreamEnded);
    assert_eq!(e.phase(), Phase::Dispatching);
    assert_eq!(dispatches(e.action()), ToolRequest { tool_name: "search".into(), input: "a".into() });
    e.advance(Event::Dispatched(ToolOutcome::Returned(
        "{\"url\":\"http://x\",\"title\":\"X\"}".into(),
    )));
    assert_eq!(dispatches(e.action()), ToolRequest { tool_name: "calc".into(), input: "1+1".into() });
    e.advance(Event::Dispatched(ToolOutcome::Failed(CoreError::new(ErrorCode::Timeout, "slow"))));
    assert_eq!(e.phase(), Phase::Starting);
    assert_eq!(
        completes(e.action()),
        "q\n\nsee [[tool:search|a]] and [[tool:calc|1+1]]\n\n\
         search: {\"url\":\"http://x\",\"title\":\"X\"}\ncalc: error[Timeout]: slow\n"
    );
    e.advance(Event::Started);
    e.advance(chunk(" Two."));
    e.advance(Event::StreamEnded);
    assert!(e.is_finished());
    let answer = e.into_result().unwrap();
    assert_eq!(answer.text, "see [[tool:search|a]] and [[tool:calc|1+1]] Two.");
    assert_eq!(answer.sources, vec![Source { url: "http://x".into(), title: "X".into() }]);
    assert_eq!(
        answer.tool_trace,
        vec![
            ToolTrace {
                tool_name: "search".into(),
                input: "a".into(),
                output_summary: "{\"url\":\"http://x\",\"title\":\"X\"}".into(),
            },
            ToolTrace {
                tool_name: "calc".into(),
                input: "1+1".into(),
                output_summary: "error[Timeout]: slow".into(),
            },
        ]
    );
}

#[test]
fn feedback_holds_the_last_step_only() {
    let mut e = engine("q", Limits::standard());
    e.advance(Event::Started);
    e.advance(chunk("[[tool:a|1]]"));
    e.advance(Event::StreamEnded);
    e.advance(Event::Dispatched(ToolOutcome::Returned("one".into())));
    assert_eq!(completes(e.action()), "q\n\n[[tool:a|1]]\n\na: one\n");
    e.advance(Event::Started);
    e.advance(chunk("[[tool:b|2]]"));
    e.advance(Event::StreamEnded);
    e.advance(Event::Dispatched(ToolOutcome::Missing));
    assert_eq!(
        completes(e.action()),
        "q\n\n[[tool:a|1]][[tool:b|2]]\n\nb: error[Internal]: tool is not registered\n"
    );
}

#[test]
fn step_bound_ends_the_run_with_what_it_has() {
    let mut e = engine("q", limits(2, 8, 100));
    e.advance(Event::Started);
    e.advance(chunk("[[tool:a|1]]"));
    e.advance(Event::StreamEnded);
    e.advance(Event::Dispatched(ToolOutcome::Returned("one".into())));
    assert_eq!(e.phase(), Phase::Starting);
    e.advance(Event::Started);
    e.advance(chunk("[[tool:a|2]]"));
    e.advance(Event::StreamEnded);
    assert_eq!(e.phase(), Phase::Dispatching);
    e.advance(Event::Dispatched(ToolOutcome::Returned("two".into())));
    assert!(e.is_finished());
    let answer = e.into_result().unwrap();
    assert_eq!(answer.text, "[[tool:a|1]][[tool:a|2]]");
    assert_eq!(answer.tool_trace.len(), 2);
}

#[test]
fn single_step_run_dispatches_and_ends() {
    let mut e = engine("q", limits(1, 8, 100));
    e.advance(Event::Started);
    e.advance(chunk("[[tool:a|1]]"));
    e.advance(Event::StreamEnded);
    e.advance(Event::Dispatched(ToolOutcome::Missing));
    assert!(e.is_finished());
    assert_eq!(e.into_result().unwrap().tool_trace.len(), 1);
}

#[test]
fn later_failed_start_keeps_the_answer() {
    let mut e = engine("q", Limits::standard());
    e.advance(Event::Started);
    e.advance(chunk("first [[tool:a|1]]"));
    e.advance(Event::StreamEnded);
    e.advance(Event::Dispatched(ToolOutcome::Returned("one".into())));
    e.advance(Event::StartFailed(CoreError::new(ErrorCode::ProviderUnavailable, "gone")));
    assert!(e.is_finished());
    let answer = e.into_result().unwrap();
    assert_eq!(answer.text, "first [[tool:a|1]]");
    assert_eq!(answer.tool_trace.len(), 1);
}

#[test]
fn chunk_budget_cuts_the_completion() {
    let mut e = engine("q", limits(4, 8, 2));
    e.advance(Event::Started);
    e.advance(chunk("a"));
    assert_eq!(e.phase(), Phase::Streaming);
    e.advance(chunk("b"));
    assert!(e.is_finished());
    assert_eq!(e.into_result().unwrap().text, "ab");
}

#[test]
fn chunk_budget_then_requests() {
    let mut e = engine("q", limits(4, 8, 1));
    e.advance(Event::Started);
    e.advance(chunk("[[tool:a|1]]"));
    assert_eq!(e.phase(), Phase::Dispatching);
    assert_eq!(dispatches(e.action()), ToolRequest { tool_name: "a".into(), input: "1".into() });
}

#[test]
fn request_limit_bounds_a_step() {
    let mut e = engine("q", limits(4, 1, 100));
    e.advance(Event::Started);
    e.advance(chunk("[[tool:a|1]][[tool:b|2]]"));
    e.advance(Event::StreamEnded);
    e.advance(Event::Dispatched(ToolOutcome::Missing));
    assert_eq!(e.phase(), Phase::Starting);
}

#[test]
fn no_requests_allowed_means_one_step() {
    let mut e = engine("q", limits(4, 0, 100));
    e.advance(Event::Started);
    e.advance(chunk("[[tool:a|1]]"));
    e.advance(Event::StreamEnded);
    assert!(e.is_finished());
    assert!(e.into_result().unwrap().tool_trace.is_empty());
}

#[test]
fn request_split_over_chunks_is_found() {
    let mut e = engine("q", Limits::standard());
    e.advance(Event::Started);
    e.advance(chunk("[[to"));
    e.advance(chunk("ol:search|pa"));
    e.advance(chunk("ris]"));
    e.advance(chunk("]"));
    e.advance(Event::StreamEnded);
    assert_eq!(
        dispatches(e.action()),
        ToolRequest { tool_name: "search".into(), input: "paris".into() }
    );
}

#[test]
fn unexpected_event_ends_the_run_with_internal() {
    let mut e = engine("q", Limits::standard());
    e.advance(chunk("too early"));
    assert!(e.is_finished());
    let err = e.into_result().unwrap_err();
    assert_eq!(err.code, ErrorCode::Internal);
    assert_eq!(err.message, "unexpected event");

    let mut e = engine("q", Limits::standard());
    e.advance(Event::Started);
    e.advance(Event::Dispatched(ToolOutcome::Missing));
    assert_eq!(e.into_result().unwrap_err().code, ErrorCode::Internal);

    let mut e = engine("q", Limits::standard());
    e.advance(Event::Started);
    e.advance(chunk("[[tool:a|1]]"));
    e.advance(Event::StreamEnded);
    e.advance(Event::Started);
    assert_eq!(e.into_result().unwrap_err().code, ErrorCode::Internal);
}

#[test]
fn finished_run_takes_no_more_events() {
    let mut e = engine("q", Limits::standard());
    e.advance(Event::Started);
    e.advance(chunk("done"));
    e.advance(Event::StreamEnded);
    e.advance(chunk(" more"));
    e.advance(Event::StartFailed(CoreError::new(ErrorCode::Timeout, "late")));
    e.advance(Event::Dispatched(ToolOutcome::Missing));
    assert_eq!(
        e.into_result().unwrap(),
        FinalAnswer { text: "done".into(), sources: vec![], tool_trace: vec![] }
    );
}

#[test]
fn unfinished_run_has_no_result() {
    let e = engine("q", Limits::standard());
    let err = e.into_result().unwrap_err();
    assert_eq!(err.code, ErrorCode::Internal);
    assert_eq!(err.message, "run has not finished");
}

#[test]
fn repeated_sources_are_kept_once_in_first_seen_order() {
    let mut e = engine("q", Limits::standard());
    e.advance(Event::Started);
    e.advance(chunk("[[tool:s|1]][[tool:s|2]][[tool:s|3]][[tool:s|4]]"));
    e.advance(Event::StreamEnded);
    e.advance(Event::Dispatched(ToolOutcome::Returned("{\"url\":\"http://b\",\"title\":\"B\"}".into())));
    e.advance(Event::Dispatched(ToolOutcome::Returned("{\"url\":\"http://a\",\"title\":\"A\"}".into())));
    e.advance(Event::Dispatched(ToolOutcome::Returned("{\"url\":\"http://b\",\"title\":\"other\"}".into())));
    e.advance(Event::Dispatched(ToolOutcome::Returned("not a record".into())));
    e.advance(Event::StartFailed(CoreError::new(ErrorCode::ProviderError, "stop")));
    let answer = e.into_result().unwrap();
    assert_eq!(
        answer.sources,
        vec![
            Source { url: "http://b".into(), title: "B".into() },
            Source { url: "http://a".into(), title: "A".into() },
        ]
    );
    assert_eq!(answer.tool_trace.len(), 4);
}
