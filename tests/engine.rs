use gradbench::engine::{step, Action, Direction, Event, Line, Phase};
use gradbench::json::Json;
use gradbench::log::{log_entry, trim};
use gradbench::outcome::BadOutcome;
use gradbench::protocol::{read_message_header, read_response_header, MessageHeader, MessageKind, ResponseHeader};

fn obj(members: Vec<(&str, Json)>) -> Json {
    Json::Object(members.into_iter().map(|(k, v)| (k.to_string(), v)).collect())
}

fn s(text: &str) -> Json {
    Json::Str(text.to_string())
}

fn line(text: &str, json: Option<Json>) -> Line {
    Line { text: text.to_string(), json }
}

fn message(id: u64, kind: &str) -> Line {
    let text = format!("{{\"id\":{id},\"kind\":\"{kind}\"}}");
    line(&text, Some(obj(vec![("id", Json::UInt(id)), ("kind", s(kind))])))
}

fn response(id: u64, success: bool) -> Line {
    let text = format!("{{\"id\":{id},\"success\":{success}}}");
    line(&text, Some(obj(vec![("id", Json::UInt(id)), ("success", Json::Bool(success))])))
}

fn stopped(a: &Action) -> (Result<(), BadOutcome>, bool, bool) {
    match a {
        Action::Stop { outcome, kill_eval, kill_tool } => (*outcome, *kill_eval, *kill_tool),
        other => panic!("expected the run to stop, got {other:?}"),
    }
}

fn awaiting(id: u64, kind: MessageKind) -> Phase {
    Phase::AwaitingToolResponse { id, kind }
}

#[test]
fn well_behaved_run_succeeds_with_interleaved_log() {
    let mut phase = Phase::AwaitingEvalMessage;
    let mut log = Vec::new();
    let kinds = ["start", "define", "evaluate", "evaluate"];
    for (id, kind) in kinds.iter().enumerate() {
        let (p, a) = step(phase, Event::EvalLine(message(id as u64, kind)));
        match a {
            Action::Forward { direction, line } => log.push((direction, line)),
            other => panic!("unexpected {other:?}"),
        }
        let (p, a) = step(p, Event::ToolLine(response(id as u64, true)));
        match a {
            Action::Forward { direction, line } => log.push((direction, line)),
            other => panic!("unexpected {other:?}"),
        }
        phase = p;
    }
    let (p, a) = step(phase, Event::EvalEnd);
    assert!(matches!(p, Phase::Terminated(Ok(()))));
    assert_eq!(stopped(&a), (Ok(()), false, false));
    assert_eq!(log.len(), 8);
    for (i, (direction, text)) in log.iter().enumerate() {
        if i % 2 == 0 {
            assert_eq!(*direction, Direction::EvalToTool);
            assert_eq!(*text, message((i / 2) as u64, kinds[i / 2]).text);
        } else {
            assert_eq!(*direction, Direction::ToolToEval);
            assert_eq!(*text, response((i / 2) as u64, true).text);
        }
    }
}

#[test]
fn mismatched_id_is_invalid() {
    for success in [true, false] {
        let (p, a) = step(awaiting(3, MessageKind::Evaluate), Event::ToolLine(response(4, success)));
        assert!(matches!(p, Phase::Terminated(Err(BadOutcome::Invalid))));
        assert_eq!(stopped(&a).0, Err(BadOutcome::Invalid));
    }
    let (p, _) = step(Phase::AwaitingEvalMessage, Event::EvalLine(message(3, "evaluate")));
    let (p, a) = step(p, Event::ToolLine(response(4, true)));
    assert!(matches!(p, Phase::Terminated(Err(BadOutcome::Invalid))));
    assert_eq!(stopped(&a), (Err(BadOutcome::Invalid), true, true));
}

#[test]
fn silent_tool_times_out_and_is_killed() {
    let (p, _) = step(Phase::AwaitingEvalMessage, Event::EvalLine(message(0, "start")));
    let (p, a) = step(p, Event::TimerExpired);
    assert!(matches!(p, Phase::Terminated(Err(BadOutcome::Timeout))));
    assert_eq!(stopped(&a), (Err(BadOutcome::Timeout), false, true));
}

#[test]
fn refusal_of_define_is_undefined_and_of_evaluate_is_failure() {
    let (p, a) = step(awaiting(0, MessageKind::Define), Event::ToolLine(response(0, false)));
    assert!(matches!(p, Phase::Terminated(Err(BadOutcome::Undefined))));
    assert_eq!(stopped(&a).0, Err(BadOutcome::Undefined));
    let (p, a) = step(awaiting(0, MessageKind::Evaluate), Event::ToolLine(response(0, false)));
    assert!(matches!(p, Phase::Terminated(Err(BadOutcome::Failure))));
    assert_eq!(stopped(&a).0, Err(BadOutcome::Failure));
}

#[test]
fn cancellation_before_timer_is_interrupt() {
    let (p, a) = step(awaiting(1, MessageKind::Evaluate), Event::Cancelled);
    assert_eq!(stopped(&a), (Err(BadOutcome::Interrupt), true, true));
    let (p, a) = step(p, Event::TimerExpired);
    assert!(matches!(p, Phase::Terminated(Err(BadOutcome::Interrupt))));
    assert!(matches!(a, Action::Idle));
}

#[test]
fn end_of_stream() {
    let (p, a) = step(Phase::AwaitingEvalMessage, Event::EvalEnd);
    assert!(matches!(p, Phase::Terminated(Ok(()))));
    assert_eq!(stopped(&a), (Ok(()), false, false));
    let (p, a) = step(awaiting(2, MessageKind::Evaluate), Event::ToolEnd);
    assert!(matches!(p, Phase::Terminated(Err(BadOutcome::Error))));
    assert_eq!(stopped(&a).0, Err(BadOutcome::Error));
}

#[test]
fn malformed_lines_are_invalid() {
    let (p, _) = step(Phase::AwaitingEvalMessage, Event::EvalLine(line("not json", None)));
    assert!(matches!(p, Phase::Terminated(Err(BadOutcome::Invalid))));
    let no_kind = line("{\"id\":1}", Some(obj(vec![("id", Json::UInt(1))])));
    let (p, _) = step(Phase::AwaitingEvalMessage, Event::EvalLine(no_kind));
    assert!(matches!(p, Phase::Terminated(Err(BadOutcome::Invalid))));
    let negative = line(
        "{\"id\":-1,\"kind\":\"start\"}",
        Some(obj(vec![("id", Json::NegInt(-1)), ("kind", s("start"))])),
    );
    let (p, _) = step(Phase::AwaitingEvalMessage, Event::EvalLine(negative));
    assert!(matches!(p, Phase::Terminated(Err(BadOutcome::Invalid))));
    let no_success = line("{\"id\":1}", Some(obj(vec![("id", Json::UInt(1))])));
    let (p, _) = step(awaiting(1, MessageKind::Start), Event::ToolLine(no_success));
    assert!(matches!(p, Phase::Terminated(Err(BadOutcome::Invalid))));
    let (p, _) = step(awaiting(1, MessageKind::Start), Event::EvalLine(message(2, "start")));
    assert!(matches!(p, Phase::Terminated(Err(BadOutcome::Invalid))));
    let (p, _) = step(Phase::AwaitingEvalMessage, Event::Fault);
    assert!(matches!(p, Phase::Terminated(Err(BadOutcome::Error))));
}

#[test]
fn headers_are_read() {
    let m = obj(vec![("kind", s("define")), ("id", Json::UInt(7)), ("module", s("m"))]);
    assert_eq!(read_message_header(&m), Some(MessageHeader { id: 7, kind: MessageKind::Define }));
    let other = obj(vec![("id", Json::UInt(7)), ("kind", Json::Null)]);
    assert_eq!(read_message_header(&other), Some(MessageHeader { id: 7, kind: MessageKind::Other }));
    let r = obj(vec![("id", Json::UInt(7)), ("success", Json::Bool(true)), ("output", Json::Null)]);
    assert_eq!(read_response_header(&r), Some(ResponseHeader { id: 7, success: true }));
    assert_eq!(read_response_header(&Json::Array(vec![])), None);
}

#[test]
fn log_entries() {
    assert_eq!(
        log_entry(1500, Direction::EvalToTool, "{\"id\":0,\"kind\":\"start\"}"),
        "{\"elapsed\":{\"nanoseconds\":1500},\"message\":{\"id\":0,\"kind\":\"start\"}}"
    );
    assert_eq!(
        log_entry(0, Direction::ToolToEval, "{\"id\":0,\"success\":true}"),
        "{\"elapsed\":{\"nanoseconds\":0},\"response\":{\"id\":0,\"success\":true}}"
    );
}

fn entry(tag: &str, body: Json) -> Json {
    obj(vec![("elapsed", obj(vec![("nanoseconds", Json::UInt(5))])), (tag, body)])
}

fn sample_log() -> Vec<Json> {
    vec![
        entry("message", obj(vec![("id", Json::UInt(0)), ("kind", s("define")), ("module", s("m"))])),
        entry("response", obj(vec![("id", Json::UInt(0)), ("success", Json::Bool(true)), ("output", s("kept"))])),
        entry(
            "message",
            obj(vec![("id", Json::UInt(1)), ("kind", s("evaluate")), ("input", Json::Array(vec![Json::UInt(1)]))]),
        ),
        entry(
            "response",
            obj(vec![("id", Json::UInt(1)), ("success", Json::Bool(true)), ("output", Json::Decimal("1.5".to_string()))]),
        ),
        entry("message", obj(vec![("id", Json::UInt(2)), ("kind", s("evaluate")), ("input", Json::Null)])),
    ]
}

#[test]
fn trim_removes_evaluate_payloads() {
    let trimmed = trim(sample_log());
    let expected = vec![
        entry("message", obj(vec![("id", Json::UInt(0)), ("kind", s("define")), ("module", s("m"))])),
        entry("response", obj(vec![("id", Json::UInt(0)), ("success", Json::Bool(true)), ("output", s("kept"))])),
        entry("message", obj(vec![("id", Json::UInt(1)), ("kind", s("evaluate"))])),
        entry("response", obj(vec![("id", Json::UInt(1)), ("success", Json::Bool(true))])),
        entry("message", obj(vec![("id", Json::UInt(2)), ("kind", s("evaluate"))])),
    ];
    assert_eq!(format!("{trimmed:?}"), format!("{expected:?}"));
}

#[test]
fn trim_twice_is_trim_once() {
    let once = trim(sample_log());
    let once_text = format!("{once:?}");
    let twice = trim(once);
    assert_eq!(format!("{twice:?}"), once_text);
    assert!(trim(vec![]).is_empty());
}
