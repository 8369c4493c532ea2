use vstd::prelude::*;

use crate::engine::Direction;
use crate::json::{field, json_view, lemma_object_view, member, members_view, Json, JsonValue};
use crate::text::{decimal, decimal_chars, push_chars, push_str, reversed, same_text, string_of};

verus! {

/// The tag under which a forwarded line stands in a log entry.
pub open spec fn direction_tag(d: Direction) -> Seq<char> {
    match d {
        Direction::EvalToTool => "message"@,
        Direction::ToolToEval => "response"@,
    }
}

/// One line of the log: the forwarded line, verbatim, under its tag, with the time elapsed
/// since the run started.
pub open spec fn log_entry_text(nanoseconds: u64, d: Direction, line: Seq<char>) -> Seq<char> {
    "{\"elapsed\":{\"nanoseconds\":"@ + decimal(nanoseconds as nat) + "},\""@ + direction_tag(d)
        + "\":"@ + line + "}"@
}

/// Writes the log line of a forwarded line, without its newline.
pub fn log_entry(nanoseconds: u64, d: Direction, line: &str) -> (r: String)
    ensures
        r@ == log_entry_text(nanoseconds, d, line@),
{
    let mut out: Vec<char> = Vec::new();
    push_str(&mut out, "{\"elapsed\":{\"nanoseconds\":");
    let digits = decimal_chars(nanoseconds);
    push_chars(&mut out, &digits);
    push_str(&mut out, "},\"");
    match d {
        Direction::EvalToTool => push_str(&mut out, "message"),
        Direction::ToolToEval => push_str(&mut out, "response"),
    }
    push_str(&mut out, "\":");
    push_str(&mut out, line);
    push_str(&mut out, "}");
    string_of(&out)
}

/// The members of `ms` other than those named `key`.
pub open spec fn without(ms: Seq<(Seq<char>, JsonValue)>, key: Seq<char>) -> Seq<(Seq<char>, JsonValue)>
    decreases ms.len(),
{
    if ms.len() == 0 {
        ms
    } else if ms[0].0 == key {
        without(ms.drop_first(), key)
    } else {
        seq![ms[0]] + without(ms.drop_first(), key)
    }
}

/// Whether `v` is an `evaluate` message.
pub open spec fn is_evaluate(v: JsonValue) -> bool {
    field(v, "kind"@) == Some(JsonValue::Str("evaluate"@))
}

/// An `evaluate` message without its `input`; any other value as it is.
pub open spec fn trim_message(v: JsonValue) -> JsonValue {
    match v {
        JsonValue::Object(ms) => if is_evaluate(v) {
            JsonValue::Object(without(ms, "input"@))
        } else {
            v
        },
        _ => v,
    }
}

/// A response without its `output`.
pub open spec fn trim_response(v: JsonValue) -> JsonValue {
    match v {
        JsonValue::Object(ms) => JsonValue::Object(without(ms, "output"@)),
        _ => v,
    }
}

/// A member of a log entry, trimmed: its message, and its response where it answers an
/// `evaluate` message.
pub open spec fn trim_member(m: (Seq<char>, JsonValue), evaluating: bool) -> (Seq<char>, JsonValue) {
    if m.0 == "message"@ {
        (m.0, trim_message(m.1))
    } else if m.0 == "response"@ && evaluating {
        (m.0, trim_response(m.1))
    } else {
        m
    }
}

pub open spec fn trim_members(ms: Seq<(Seq<char>, JsonValue)>, evaluating: bool) -> Seq<(Seq<char>, JsonValue)> {
    ms.map_values(|m: (Seq<char>, JsonValue)| trim_member(m, evaluating))
}

/// A log entry, trimmed; `evaluating` tells whether the last message logged before it was an
/// `evaluate` message.
pub open spec fn trim_entry(e: JsonValue, evaluating: bool) -> JsonValue {
    match e {
        JsonValue::Object(ms) => JsonValue::Object(trim_members(ms, evaluating)),
        _ => e,
    }
}

/// Whether the last message logged up to and including `e` was an `evaluate` message.
pub open spec fn evaluating_after(e: JsonValue, evaluating: bool) -> bool {
    match field(e, "message"@) {
        Some(m) => is_evaluate(m),
        None => evaluating,
    }
}

pub open spec fn trim_log_from(log: Seq<JsonValue>, evaluating: bool) -> Seq<JsonValue>
    decreases log.len(),
{
    if log.len() == 0 {
        log
    } else {
        seq![trim_entry(log[0], evaluating)] + trim_log_from(
            log.drop_first(),
            evaluating_after(log[0], evaluating),
        )
    }
}

/// A log without the `input` of its `evaluate` messages and the `output` of their responses.
pub open spec fn trim_log(log: Seq<JsonValue>) -> Seq<JsonValue> {
    trim_log_from(log, false)
}

} // verus!

verus! {

proof fn lemma_without_twice(ms: Seq<(Seq<char>, JsonValue)>, key: Seq<char>)
    ensures
        without(without(ms, key), key) == without(ms, key),
    decreases ms.len(),
{
    if ms.len() > 0 {
        lemma_without_twice(ms.drop_first(), key);
        if ms[0].0 != key {
            let w = without(ms, key);
            assert(w[0] == ms[0]);
            assert(w.drop_first() =~= without(ms.drop_first(), key));
        }
    }
}

proof fn lemma_without_keeps_others(ms: Seq<(Seq<char>, JsonValue)>, key: Seq<char>, other: Seq<char>)
    requires
        key != other,
    ensures
        member(without(ms, key), other) == member(ms, other),
    decreases ms.len(),
{
    if ms.len() > 0 {
        lemma_without_keeps_others(ms.drop_first(), key, other);
        if ms[0].0 != key {
            let w = without(ms, key);
            assert(w[0] == ms[0]);
            assert(w.drop_first() =~= without(ms.drop_first(), key));
        }
    }
}

proof fn lemma_trim_message_twice(v: JsonValue)
    ensures
        trim_message(trim_message(v)) == trim_message(v),
        is_evaluate(trim_message(v)) == is_evaluate(v),
{
    reveal_strlit("input");
    reveal_strlit("kind");
    assert("input"@.len() != "kind"@.len());
    if let JsonValue::Object(ms) = v {
        if is_evaluate(v) {
            lemma_without_keeps_others(ms, "input"@, "kind"@);
            lemma_without_twice(ms, "input"@);
        }
    }
}

proof fn lemma_trim_response_twice(v: JsonValue)
    ensures
        trim_response(trim_response(v)) == trim_response(v),
{
    if let JsonValue::Object(ms) = v {
        lemma_without_twice(ms, "output"@);
    }
}

proof fn lemma_trim_members_twice(ms: Seq<(Seq<char>, JsonValue)>, evaluating: bool)
    ensures
        trim_members(trim_members(ms, evaluating), evaluating) == trim_members(ms, evaluating),
{
    let once = trim_members(ms, evaluating);
    let twice = trim_members(once, evaluating);
    assert forall|i: int| 0 <= i < ms.len() implies twice[i] == once[i] by {
        lemma_trim_message_twice(ms[i].1);
        lemma_trim_response_twice(ms[i].1);
    }
    assert(twice =~= once);
}

proof fn lemma_trim_members_message(ms: Seq<(Seq<char>, JsonValue)>, evaluating: bool)
    ensures
        member(trim_members(ms, evaluating), "message"@) == match member(ms, "message"@) {
            Some(m) => Some(trim_message(m)),
            None => None,
        },
    decreases ms.len(),
{
    if ms.len() > 0 {
        lemma_trim_members_message(ms.drop_first(), evaluating);
        assert(trim_members(ms, evaluating).drop_first() =~= trim_members(ms.drop_first(), evaluating));
    }
}

proof fn lemma_trim_entry_twice(e: JsonValue, evaluating: bool)
    ensures
        trim_entry(trim_entry(e, evaluating), evaluating) == trim_entry(e, evaluating),
        evaluating_after(trim_entry(e, evaluating), evaluating) == evaluating_after(e, evaluating),
{
    if let JsonValue::Object(ms) = e {
        lemma_trim_members_twice(ms, evaluating);
        lemma_trim_members_message(ms, evaluating);
        if let Some(m) = member(ms, "message"@) {
            lemma_trim_message_twice(m);
        }
    }
}

proof fn lemma_trim_log_from_twice(log: Seq<JsonValue>, evaluating: bool)
    ensures
        trim_log_from(trim_log_from(log, evaluating), evaluating) == trim_log_from(log, evaluating),
    decreases log.len(),
{
    if log.len() > 0 {
        let once = trim_log_from(log, evaluating);
        lemma_trim_entry_twice(log[0], evaluating);
        lemma_trim_log_from_twice(log.drop_first(), evaluating_after(log[0], evaluating));
        assert(once[0] == trim_entry(log[0], evaluating));
        assert(once.drop_first() =~= trim_log_from(log.drop_first(), evaluating_after(log[0], evaluating)));
        assert(trim_log_from(once, evaluating) =~= once);
    }
}

/// Trimming a log that was already trimmed changes nothing.
pub proof fn lemma_trim_idempotent(log: Seq<JsonValue>)
    ensures
        trim_log(trim_log(log)) == trim_log(log),
{
    lemma_trim_log_from_twice(log, false);
}

} // verus!

verus! {

proof fn lemma_members_view_push(s: Seq<(String, Json)>, x: (String, Json))
    ensures
        members_view(s.push(x)) == members_view(s).push((x.0@, json_view(x.1))),
{
    assert(members_view(s.push(x)) =~= members_view(s).push((x.0@, json_view(x.1))));
}

/// `ms` without the members named `key`.
fn without_exec(ms: Vec<(String, Json)>, key: &str) -> (r: Vec<(String, Json)>)
    ensures
        members_view(r@) == without(members_view(ms@), key@),
{
    let n = ms.len();
    let ghost orig = ms@;
    let ghost ov = members_view(orig);
    let mut rev = reversed(ms);
    let mut out: Vec<(String, Json)> = Vec::new();
    let mut i: usize = 0;
    assert(ov.subrange(0, n as int) =~= ov);
    assert(members_view(out@) =~= Seq::empty());
    while rev.len() > 0
        invariant
            i <= n,
            n == orig.len(),
            ov == members_view(orig),
            rev@.len() == n - i,
            forall|j: int| 0 <= j < rev@.len() ==> #[trigger] rev@[j] == orig[n - 1 - j],
            without(ov, key@) == members_view(out@) + without(ov.subrange(i as int, n as int), key@),
        decreases rev.len(),
    {
        let ghost before = members_view(out@);
        let ghost rest = ov.subrange(i as int, n as int);
        let m = rev.pop().unwrap();
        assert(m == orig[i as int]);
        assert(rest[0] == (m.0@, json_view(m.1)));
        assert(rest.drop_first() =~= ov.subrange(i + 1, n as int));
        if !same_text(m.0.as_str(), key) {
            proof { lemma_members_view_push(out@, m); }
            out.push(m);
            assert(before + without(rest, key@) =~= members_view(out@) + without(
                rest.drop_first(),
                key@,
            ));
        }
        i += 1;
    }
    assert(ov.subrange(n as int, n as int) =~= Seq::empty());
    assert(members_view(out@) + Seq::empty() =~= members_view(out@));
    out
}

/// Whether `j` is an `evaluate` message.
fn is_evaluate_exec(j: &Json) -> (r: bool)
    ensures
        r == is_evaluate(json_view(*j)),
{
    match crate::json::get_field(j, "kind") {
        Some(Json::Str(s)) => same_text(s.as_str(), "evaluate"),
        _ => false,
    }
}

fn trim_message_exec(v: Json) -> (r: Json)
    ensures
        json_view(r) == trim_message(json_view(v)),
{
    let ev = is_evaluate_exec(&v);
    match v {
        Json::Object(ms) => {
            proof { lemma_object_view(ms); }
            if ev {
                let w = without_exec(ms, "input");
                proof { lemma_object_view(w); }
                Json::Object(w)
            } else {
                Json::Object(ms)
            }
        },
        other => other,
    }
}

fn trim_response_exec(v: Json) -> (r: Json)
    ensures
        json_view(r) == trim_response(json_view(v)),
{
    match v {
        Json::Object(ms) => {
            proof { lemma_object_view(ms); }
            let w = without_exec(ms, "output");
            proof { lemma_object_view(w); }
            Json::Object(w)
        },
        other => other,
    }
}

fn trim_members_exec(ms: Vec<(String, Json)>, evaluating: bool) -> (r: Vec<(String, Json)>)
    ensures
        members_view(r@) == trim_members(members_view(ms@), evaluating),
{
    proof {
        reveal_strlit("message");
        reveal_strlit("response");
    }
    let n = ms.len();
    let ghost orig = ms@;
    let ghost ov = members_view(orig);
    let ghost goal = trim_members(ov, evaluating);
    let mut rev = reversed(ms);
    let mut out: Vec<(String, Json)> = Vec::new();
    let mut i: usize = 0;
    while rev.len() > 0
        invariant
            i <= n,
            n == orig.len(),
            ov == members_view(orig),
            goal == trim_members(ov, evaluating),
            rev@.len() == n - i,
            forall|j: int| 0 <= j < rev@.len() ==> #[trigger] rev@[j] == orig[n - 1 - j],
            members_view(out@) =~= goal.subrange(0, i as int),
        decreases rev.len(),
    {
        let m = rev.pop().unwrap();
        assert(m == orig[i as int]);
        let (k, v) = m;
        let t = if same_text(k.as_str(), "message") {
            (k, trim_message_exec(v))
        } else if evaluating && same_text(k.as_str(), "response") {
            (k, trim_response_exec(v))
        } else {
            (k, v)
        };
        assert((t.0@, json_view(t.1)) == trim_member(ov[i as int], evaluating));
        proof { lemma_members_view_push(out@, t); }
        out.push(t);
        assert(goal.subrange(0, i + 1) =~= goal.subrange(0, i as int).push(goal[i as int]));
        i += 1;
    }
    assert(goal.subrange(0, n as int) =~= goal);
    out
}

fn trim_entry_exec(e: Json, evaluating: bool) -> (r: Json)
    ensures
        json_view(r) == trim_entry(json_view(e), evaluating),
{
    match e {
        Json::Object(ms) => {
            proof { lemma_object_view(ms); }
            let t = trim_members_exec(ms, evaluating);
            proof { lemma_object_view(t); }
            Json::Object(t)
        },
        other => other,
    }
}

fn evaluating_after_exec(e: &Json, evaluating: bool) -> (r: bool)
    ensures
        r == evaluating_after(json_view(*e), evaluating),
{
    match crate::json::get_field(e, "message") {
        Some(m) => is_evaluate_exec(m),
        None => evaluating,
    }
}

/// The values of a log's entries.
pub open spec fn log_view(log: Seq<Json>) -> Seq<JsonValue> {
    log.map_values(|j: Json| json_view(j))
}

/// Removes the `input` of each `evaluate` message of a log, and the `output` of each response
/// that answers one; everything else stays as it is, in its order.
pub fn trim(log: Vec<Json>) -> (r: Vec<Json>)
    ensures
        log_view(r@) == trim_log(log_view(log@)),
{
    let n = log.len();
    let ghost orig = log@;
    let ghost lv = log_view(orig);
    let mut rev = reversed(log);
    let mut out: Vec<Json> = Vec::new();
    let mut evaluating = false;
    let mut i: usize = 0;
    assert(lv.subrange(0, n as int) =~= lv);
    assert(log_view(out@) =~= Seq::empty());
    while rev.len() > 0
        invariant
            i <= n,
            n == orig.len(),
            lv == log_view(orig),
            rev@.len() == n - i,
            forall|j: int| 0 <= j < rev@.len() ==> #[trigger] rev@[j] == orig[n - 1 - j],
            trim_log(lv) == log_view(out@) + trim_log_from(lv.subrange(i as int, n as int), evaluating),
        decreases rev.len(),
    {
        let ghost before = log_view(out@);
        let ghost rest = lv.subrange(i as int, n as int);
        let e = rev.pop().unwrap();
        assert(e == orig[i as int]);
        assert(rest[0] == json_view(e));
        assert(rest.drop_first() =~= lv.subrange(i + 1, n as int));
        let next = evaluating_after_exec(&e, evaluating);
        let t = trim_entry_exec(e, evaluating);
        out.push(t);
        assert(log_view(out@) =~= before.push(json_view(t)));
        assert(before + trim_log_from(rest, evaluating) =~= log_view(out@) + trim_log_from(
            rest.drop_first(),
            next,
        ));
        evaluating = next;
        i += 1;
    }
    assert(lv.subrange(n as int, n as int) =~= Seq::empty());
    assert(log_view(out@) + Seq::empty() =~= log_view(out@));
    out
}

} // verus!
