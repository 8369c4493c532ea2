use vstd::prelude::*;

use crate::json::{json_view, Json, JsonValue};
use crate::outcome::BadOutcome;
use crate::protocol::{
    message_header, read_message_header, read_response_header, response_header, MessageKind,
};

verus! {

/// One line read from a process: its text, forwarded verbatim, and its JSON value, `None` when
/// the text is not JSON.
#[derive(Debug)]
pub struct Line {
    pub text: String,
    pub json: Option<Json>,
}

pub struct LineView {
    pub text: Seq<char>,
    pub json: Option<JsonValue>,
}

impl View for Line {
    type V = LineView;

    open spec fn view(&self) -> LineView {
        LineView {
            text: self.text@,
            json: match self.json {
                Some(j) => Some(json_view(j)),
                None => None,
            },
        }
    }
}

/// What woke the referee up.
#[derive(Debug)]
pub enum Event {
    /// The eval wrote a line.
    EvalLine(Line),
    /// The eval closed its output with no partial line pending.
    EvalEnd,
    /// The tool wrote a line.
    ToolLine(Line),
    /// The tool closed its output.
    ToolEnd,
    /// The timer of the current exchange ran out.
    TimerExpired,
    /// The operator asked to cancel.
    Cancelled,
    /// The harness itself failed: a read, a write, a flush, a log write or a spawn.
    Fault,
}

pub enum EventView {
    EvalLine(LineView),
    EvalEnd,
    ToolLine(LineView),
    ToolEnd,
    TimerExpired,
    Cancelled,
    Fault,
}

impl View for Event {
    type V = EventView;

    open spec fn view(&self) -> EventView {
        match self {
            Event::EvalLine(l) => EventView::EvalLine(l@),
            Event::EvalEnd => EventView::EvalEnd,
            Event::ToolLine(l) => EventView::ToolLine(l@),
            Event::ToolEnd => EventView::ToolEnd,
            Event::TimerExpired => EventView::TimerExpired,
            Event::Cancelled => EventView::Cancelled,
            Event::Fault => EventView::Fault,
        }
    }
}

/// Which way a forwarded line goes.
#[derive(Clone, Copy, Debug, PartialEq, Eq, Structural)]
pub enum Direction {
    /// A message, from the eval to the tool.
    EvalToTool,
    /// A response, from the tool to the eval.
    ToolToEval,
}

/// The state of a run.
#[derive(Clone, Copy, Debug)]
pub enum Phase {
    /// Waiting for the eval's next message; no exchange is pending.
    AwaitingEvalMessage,
    /// A message was forwarded to the tool and its response is awaited.
    AwaitingToolResponse { id: u64, kind: MessageKind },
    /// The run is over, with this outcome.
    Terminated(Result<(), BadOutcome>),
}

/// What the referee asks of its surroundings after an event.
#[derive(Debug)]
pub enum Action {
    /// Append the line to the log, then write it to its receiver and flush; for a message, start
    /// a fresh timer for the exchange.
    Forward { direction: Direction, line: String },
    /// Nothing to do but wait for the next event.
    Idle,
    /// End the run with `outcome`, forcibly ending the process subtrees that are marked.
    Stop { outcome: Result<(), BadOutcome>, kill_eval: bool, kill_tool: bool },
}

pub enum ActionView {
    Forward { direction: Direction, line: Seq<char> },
    Idle,
    Stop { outcome: Result<(), BadOutcome>, kill_eval: bool, kill_tool: bool },
}

impl View for Action {
    type V = ActionView;

    open spec fn view(&self) -> ActionView {
        match self {
            Action::Forward { direction, line } => ActionView::Forward {
                direction: *direction,
                line: line@,
            },
            Action::Idle => ActionView::Idle,
            Action::Stop { outcome, kill_eval, kill_tool } => ActionView::Stop {
                outcome: *outcome,
                kill_eval: *kill_eval,
                kill_tool: *kill_tool,
            },
        }
    }
}

/// Whether a run that ends with `o` forcibly ends the eval's process subtree: on an interrupt,
/// a protocol violation or a harness fault.
pub open spec fn kills_eval(o: Result<(), BadOutcome>) -> bool {
    o == Err::<(), BadOutcome>(BadOutcome::Interrupt) || o == Err::<(), BadOutcome>(
        BadOutcome::Invalid,
    ) || o == Err::<(), BadOutcome>(BadOutcome::Error)
}

/// Whether a run that ends with `o` forcibly ends the tool's process subtree: as for the eval,
/// and on a timeout.
pub open spec fn kills_tool(o: Result<(), BadOutcome>) -> bool {
    kills_eval(o) || o == Err::<(), BadOutcome>(BadOutcome::Timeout)
}

/// The end of a run with outcome `o`.
pub open spec fn stop(o: Result<(), BadOutcome>) -> (Phase, ActionView) {
    (Phase::Terminated(o), ActionView::Stop { outcome: o, kill_eval: kills_eval(o), kill_tool: kills_tool(o) })
}

/// The JSON value of a line, or `Null` where the line is not JSON (`Null` has no members, so
/// it is no well-formed message or response).
pub open spec fn line_value(l: LineView) -> JsonValue {
    match l.json {
        Some(v) => v,
        None => JsonValue::Null,
    }
}

/// The state that follows `p` on event `e`, and the action taken.
pub open spec fn step_spec(p: Phase, e: EventView) -> (Phase, ActionView) {
    match p {
        Phase::Terminated(o) => (p, ActionView::Idle),
        _ => match e {
            EventView::Cancelled => stop(Err(BadOutcome::Interrupt)),
            EventView::Fault => stop(Err(BadOutcome::Error)),
            _ => match p {
                Phase::AwaitingEvalMessage => match e {
                    EventView::EvalEnd => stop(Ok(())),
                    EventView::EvalLine(l) => match message_header(line_value(l)) {
                        Some(h) => (
                            Phase::AwaitingToolResponse { id: h.id, kind: h.kind },
                            ActionView::Forward { direction: Direction::EvalToTool, line: l.text },
                        ),
                        None => stop(Err(BadOutcome::Invalid)),
                    },
                    EventView::ToolLine(_) => stop(Err(BadOutcome::Invalid)),
                    _ => (p, ActionView::Idle),
                },
                Phase::AwaitingToolResponse { id, kind } => match e {
                    EventView::TimerExpired => stop(Err(BadOutcome::Timeout)),
                    EventView::ToolEnd => stop(Err(BadOutcome::Error)),
                    EventView::EvalEnd => stop(Err(BadOutcome::Error)),
                    EventView::EvalLine(_) => stop(Err(BadOutcome::Invalid)),
                    EventView::ToolLine(l) => match response_header(line_value(l)) {
                        Some(r) => if r.id != id {
                            stop(Err(BadOutcome::Invalid))
                        } else if !r.success {
                            if kind == MessageKind::Define {
                                stop(Err(BadOutcome::Undefined))
                            } else {
                                stop(Err(BadOutcome::Failure))
                            }
                        } else {
                            (
                                Phase::AwaitingEvalMessage,
                                ActionView::Forward {
                                    direction: Direction::ToolToEval,
                                    line: l.text,
                                },
                            )
                        },
                        None => stop(Err(BadOutcome::Invalid)),
                    },
                    _ => (p, ActionView::Idle),
                },
                Phase::Terminated(_) => (p, ActionView::Idle),
            },
        },
    }
}

fn stop_exec(o: Result<(), BadOutcome>) -> (r: (Phase, Action))
    ensures
        (r.0, r.1@) == stop(o),
{
    let kill_eval = match o {
        Err(BadOutcome::Interrupt) | Err(BadOutcome::Invalid) | Err(BadOutcome::Error) => true,
        _ => false,
    };
    let kill_tool = kill_eval || match o {
        Err(BadOutcome::Timeout) => true,
        _ => false,
    };
    (Phase::Terminated(o), Action::Stop { outcome: o, kill_eval, kill_tool })
}

fn parsed_message(l: &Line) -> (r: Option<crate::protocol::MessageHeader>)
    ensures
        r == message_header(line_value(l@)),
{
    match &l.json {
        Some(j) => read_message_header(j),
        None => {
            proof { reveal_strlit("id"); }
            None
        },
    }
}

fn parsed_response(l: &Line) -> (r: Option<crate::protocol::ResponseHeader>)
    ensures
        r == response_header(line_value(l@)),
{
    match &l.json {
        Some(j) => read_response_header(j),
        None => None,
    }
}

/// Advances a run by one event: the next state, and what to do.
pub fn step(p: Phase, e: Event) -> (r: (Phase, Action))
    ensures
        (r.0, r.1@) == step_spec(p, e@),
{
    if let Phase::Terminated(_) = p {
        return (p, Action::Idle);
    }
    match e {
        Event::Cancelled => stop_exec(Err(BadOutcome::Interrupt)),
        Event::Fault => stop_exec(Err(BadOutcome::Error)),
        Event::EvalEnd => match p {
            Phase::AwaitingEvalMessage => stop_exec(Ok(())),
            _ => stop_exec(Err(BadOutcome::Error)),
        },
        Event::EvalLine(l) => match p {
            Phase::AwaitingEvalMessage => match parsed_message(&l) {
                Some(h) => (
                    Phase::AwaitingToolResponse { id: h.id, kind: h.kind },
                    Action::Forward { direction: Direction::EvalToTool, line: l.text },
                ),
                None => stop_exec(Err(BadOutcome::Invalid)),
            },
            _ => stop_exec(Err(BadOutcome::Invalid)),
        },
        Event::ToolLine(l) => match p {
            Phase::AwaitingToolResponse { id, kind } => match parsed_response(&l) {
                Some(r) => if r.id != id {
                    stop_exec(Err(BadOutcome::Invalid))
                } else if !r.success {
                    if kind == MessageKind::Define {
                        stop_exec(Err(BadOutcome::Undefined))
                    } else {
                        stop_exec(Err(BadOutcome::Failure))
                    }
                } else {
                    (
                        Phase::AwaitingEvalMessage,
                        Action::Forward { direction: Direction::ToolToEval, line: l.text },
                    )
                },
                None => stop_exec(Err(BadOutcome::Invalid)),
            },
            _ => stop_exec(Err(BadOutcome::Invalid)),
        },
        Event::ToolEnd => match p {
            Phase::AwaitingToolResponse { .. } => stop_exec(Err(BadOutcome::Error)),
            _ => (p, Action::Idle),
        },
        Event::TimerExpired => match p {
            Phase::AwaitingToolResponse { .. } => stop_exec(Err(BadOutcome::Timeout)),
            _ => (p, Action::Idle),
        },
    }
}

} // verus!

verus! {

/// The state after the events `evs`, starting from `p`, and the action taken on each.
pub open spec fn run_spec(p: Phase, evs: Seq<EventView>) -> (Phase, Seq<ActionView>)
    decreases evs.len(),
{
    if evs.len() == 0 {
        (p, Seq::empty())
    } else {
        let (q, a) = step_spec(p, evs[0]);
        let (f, acts) = run_spec(q, evs.drop_first());
        (f, seq![a] + acts)
    }
}

/// The events of the exchanges `ms[i]`, `rs[i]`: each message, then the tool's line.
pub open spec fn exchange_events(ms: Seq<LineView>, rs: Seq<LineView>) -> Seq<EventView>
    decreases ms.len(),
{
    if ms.len() == 0 || rs.len() == 0 {
        Seq::empty()
    } else {
        seq![EventView::EvalLine(ms[0]), EventView::ToolLine(rs[0])] + exchange_events(
            ms.drop_first(),
            rs.drop_first(),
        )
    }
}

/// The log of the exchanges `ms[i]`, `rs[i]`: each message, then its response.
pub open spec fn exchange_log(ms: Seq<LineView>, rs: Seq<LineView>) -> Seq<ActionView>
    decreases ms.len(),
{
    if ms.len() == 0 || rs.len() == 0 {
        Seq::empty()
    } else {
        seq![
            ActionView::Forward { direction: Direction::EvalToTool, line: ms[0].text },
            ActionView::Forward { direction: Direction::ToolToEval, line: rs[0].text },
        ] + exchange_log(ms.drop_first(), rs.drop_first())
    }
}

/// Each message is well formed, and the tool answers each with its `id` and `success: true`.
pub open spec fn well_behaved(ms: Seq<LineView>, rs: Seq<LineView>) -> bool {
    &&& ms.len() == rs.len()
    &&& forall|i: int|
        0 <= i < ms.len() ==> {
            &&& #[trigger] message_header(line_value(ms[i])) is Some
            &&& response_header(line_value(rs[i])) == Some(
                crate::protocol::ResponseHeader {
                    id: message_header(line_value(ms[i]))->Some_0.id,
                    success: true,
                },
            )
        }
}

/// When every message is well formed and the tool echoes each `id` with `success: true`, a run
/// that the eval ends cleanly succeeds, and its log holds each message followed by its response,
/// one entry each.
pub proof fn lemma_well_behaved_run_succeeds(ms: Seq<LineView>, rs: Seq<LineView>)
    requires
        well_behaved(ms, rs),
    ensures
        run_spec(Phase::AwaitingEvalMessage, exchange_events(ms, rs).push(EventView::EvalEnd))
            == (
            Phase::Terminated(Ok(())),
            exchange_log(ms, rs).push(stop(Ok(())).1),
        ),
    decreases ms.len(),
{
    let evs = exchange_events(ms, rs).push(EventView::EvalEnd);
    if ms.len() == 0 {
        assert(evs =~= seq![EventView::EvalEnd]);
        assert(run_spec(Phase::Terminated(Ok(())), evs.drop_first()) == (
            Phase::Terminated(Ok(())),
            Seq::<ActionView>::empty(),
        ));
        assert(exchange_log(ms, rs).push(stop(Ok(())).1) =~= seq![stop(Ok(())).1]);
    } else {
        let ms2 = ms.drop_first();
        let rs2 = rs.drop_first();
        assert(well_behaved(ms2, rs2)) by {
            assert forall|i: int| 0 <= i < ms2.len() implies #[trigger] message_header(
                line_value(ms2[i]),
            ) is Some && response_header(line_value(rs2[i])) == Some(
                crate::protocol::ResponseHeader {
                    id: message_header(line_value(ms2[i]))->Some_0.id,
                    success: true,
                },
            ) by {
                assert(message_header(line_value(ms[i + 1])) is Some);
            }
        }
        lemma_well_behaved_run_succeeds(ms2, rs2);
        let rest = exchange_events(ms2, rs2).push(EventView::EvalEnd);
        assert(message_header(line_value(ms[0])) is Some);
        assert(evs[0] == EventView::EvalLine(ms[0]));
        assert(evs.drop_first()[0] == EventView::ToolLine(rs[0]));
        assert(evs.drop_first().drop_first() =~= rest);
        let h = message_header(line_value(ms[0]))->Some_0;
        let waiting = Phase::AwaitingToolResponse { id: h.id, kind: h.kind };
        assert(step_spec(Phase::AwaitingEvalMessage, evs[0]).0 == waiting);
        assert(step_spec(waiting, evs.drop_first()[0]).0 == Phase::AwaitingEvalMessage);
        let inner = run_spec(Phase::AwaitingEvalMessage, rest);
        let mid = run_spec(waiting, evs.drop_first());
        assert(mid.0 == inner.0);
        assert(mid.1 == seq![step_spec(waiting, evs.drop_first()[0]).1] + inner.1);
        let outer = run_spec(Phase::AwaitingEvalMessage, evs);
        assert(outer.0 == mid.0);
        assert(outer.1 == seq![step_spec(Phase::AwaitingEvalMessage, evs[0]).1] + mid.1);
        assert(exchange_log(ms, rs) == seq![
            ActionView::Forward { direction: Direction::EvalToTool, line: ms[0].text },
            ActionView::Forward { direction: Direction::ToolToEval, line: rs[0].text },
        ] + exchange_log(ms2, rs2));
        assert(outer.1 =~= exchange_log(ms, rs).push(stop(Ok(())).1));
    }
}

/// Once a run is over, no event changes its outcome and nothing more is done.
pub proof fn lemma_terminated_is_final(o: Result<(), BadOutcome>, evs: Seq<EventView>)
    ensures
        run_spec(Phase::Terminated(o), evs).0 == Phase::Terminated(o),
        forall|i: int| 0 <= i < evs.len() ==> #[trigger] run_spec(Phase::Terminated(o), evs).1[i]
            == ActionView::Idle,
        run_spec(Phase::Terminated(o), evs).1.len() == evs.len(),
    decreases evs.len(),
{
    if evs.len() > 0 {
        lemma_terminated_is_final(o, evs.drop_first());
        let acts = run_spec(Phase::Terminated(o), evs).1;
        assert forall|i: int| 0 <= i < evs.len() implies #[trigger] acts[i] == ActionView::Idle by {
            if i > 0 {
                assert(acts[i] == run_spec(Phase::Terminated(o), evs.drop_first()).1[i - 1]);
            }
        }
    }
}

/// A cancellation observed while a run is going on ends it as an interrupt, whatever comes
/// after it, a timer that expires included, and forcibly ends both processes.
pub proof fn lemma_cancellation_prevails(p: Phase, later: Seq<EventView>)
    requires
        !(p is Terminated),
    ensures
        run_spec(p, seq![EventView::Cancelled] + later).0 == Phase::Terminated(
            Err(BadOutcome::Interrupt),
        ),
        run_spec(p, seq![EventView::Cancelled] + later).1[0] == (ActionView::Stop {
            outcome: Err(BadOutcome::Interrupt),
            kill_eval: true,
            kill_tool: true,
        }),
{
    let evs = seq![EventView::Cancelled] + later;
    assert(evs.drop_first() =~= later);
    lemma_terminated_is_final(Err(BadOutcome::Interrupt), later);
}

/// A response whose `id` is not that of the message just sent makes the run invalid, whatever
/// its `success`.
pub proof fn lemma_mismatched_id_is_invalid(id: u64, kind: MessageKind, l: LineView)
    requires
        response_header(line_value(l)) matches Some(h) && h.id != id,
    ensures
        step_spec(Phase::AwaitingToolResponse { id, kind }, EventView::ToolLine(l)) == stop(
            Err(BadOutcome::Invalid),
        ),
{
}

/// A response that echoes the `id` with `success: false` ends the run as undefined when the
/// message was a `define`, and as a failure for any other kind.
pub proof fn lemma_refusal(id: u64, kind: MessageKind, l: LineView)
    requires
        response_header(line_value(l)) == Some(
            crate::protocol::ResponseHeader { id, success: false },
        ),
    ensures
        step_spec(Phase::AwaitingToolResponse { id, kind }, EventView::ToolLine(l)) == stop(
            if kind == MessageKind::Define {
                Err(BadOutcome::Undefined)
            } else {
                Err(BadOutcome::Failure)
            },
        ),
{
}

/// A timer that runs out while a response is awaited ends the run as a timeout and forcibly
/// ends the tool's process subtree.
pub proof fn lemma_expiry_is_timeout(id: u64, kind: MessageKind)
    ensures
        step_spec(Phase::AwaitingToolResponse { id, kind }, EventView::TimerExpired) == (
            Phase::Terminated(Err(BadOutcome::Timeout)),
            ActionView::Stop { outcome: Err(BadOutcome::Timeout), kill_eval: false, kill_tool: true },
        ),
{
}

/// The eval ending cleanly with no exchange pending is a success in which nothing reached the
/// tool; the tool ending while its response is awaited is a harness error, never a success.
pub proof fn lemma_end_of_stream(id: u64, kind: MessageKind)
    ensures
        run_spec(Phase::AwaitingEvalMessage, seq![EventView::EvalEnd]) == (
            Phase::Terminated(Ok(())),
            seq![ActionView::Stop { outcome: Ok(()), kill_eval: false, kill_tool: false }],
        ),
        step_spec(Phase::AwaitingToolResponse { id, kind }, EventView::ToolEnd).0
            == Phase::Terminated(Err(BadOutcome::Error)),
{
    let evs = seq![EventView::EvalEnd];
    assert(evs.drop_first() =~= Seq::<EventView>::empty());
    assert(run_spec(Phase::Terminated(Ok(())), evs.drop_first()) == (
        Phase::Terminated(Ok(())),
        Seq::<ActionView>::empty(),
    ));
    assert(run_spec(Phase::AwaitingEvalMessage, evs).1 =~= seq![
        ActionView::Stop { outcome: Ok(()), kill_eval: false, kill_tool: false },
    ]);
}

} // verus!
