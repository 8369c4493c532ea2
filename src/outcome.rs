use vstd::prelude::*;

use crate::text::{push_str, same_text, string_of};

verus! {

/// An imperfect outcome of a run, in the order in which they are listed to users.
#[derive(Clone, Copy, Debug, PartialEq, Eq, Structural)]
pub enum BadOutcome {
    /// The operator sent an interrupt signal.
    Interrupt,
    /// The tool did not answer a message in time.
    Timeout,
    /// One of the processes broke the protocol.
    Invalid,
    /// The tool failed to evaluate a function.
    Failure,
    /// The tool declined to define a module.
    Undefined,
    /// A fault of the harness itself: a broken pipe, a process that died, a failed write.
    Error,
}

/// The name of an outcome, in kebab case.
pub open spec fn outcome_name(b: BadOutcome) -> Seq<char> {
    match b {
        BadOutcome::Interrupt => "interrupt"@,
        BadOutcome::Timeout => "timeout"@,
        BadOutcome::Invalid => "invalid"@,
        BadOutcome::Failure => "failure"@,
        BadOutcome::Undefined => "undefined"@,
        BadOutcome::Error => "error"@,
    }
}

/// The process exit code that stands for an outcome.
pub open spec fn outcome_code(b: BadOutcome) -> u8 {
    match b {
        BadOutcome::Interrupt => 6,
        BadOutcome::Timeout => 5,
        BadOutcome::Invalid => 4,
        BadOutcome::Failure => 3,
        BadOutcome::Undefined => 2,
        BadOutcome::Error => 1,
    }
}

/// How strongly an outcome overrides others that hold at the same time; success ranks 0.
pub open spec fn precedence(b: BadOutcome) -> nat {
    match b {
        BadOutcome::Interrupt => 6,
        BadOutcome::Error => 5,
        BadOutcome::Timeout => 4,
        BadOutcome::Invalid => 3,
        BadOutcome::Undefined => 2,
        BadOutcome::Failure => 1,
    }
}

/// The outcomes in the order in which they are declared.
pub open spec fn all_outcomes() -> Seq<BadOutcome> {
    seq![
        BadOutcome::Interrupt,
        BadOutcome::Timeout,
        BadOutcome::Invalid,
        BadOutcome::Failure,
        BadOutcome::Undefined,
        BadOutcome::Error,
    ]
}

/// The precedence of a run's outcome, where `Ok` is success.
pub open spec fn result_precedence(r: Result<(), BadOutcome>) -> nat {
    match r {
        Ok(()) => 0,
        Err(b) => precedence(b),
    }
}

/// The length and first character of each name, which tell the names apart.
spec fn name_signature(b: BadOutcome) -> (nat, char) {
    match b {
        BadOutcome::Interrupt => (9, 'i'),
        BadOutcome::Timeout => (7, 't'),
        BadOutcome::Invalid => (7, 'i'),
        BadOutcome::Failure => (7, 'f'),
        BadOutcome::Undefined => (9, 'u'),
        BadOutcome::Error => (5, 'e'),
    }
}

proof fn lemma_name_signature(b: BadOutcome)
    ensures
        outcome_name(b).len() == name_signature(b).0,
        outcome_name(b)[0] == name_signature(b).1,
{
    reveal_strlit("interrupt");
    reveal_strlit("timeout");
    reveal_strlit("invalid");
    reveal_strlit("failure");
    reveal_strlit("undefined");
    reveal_strlit("error");
}

/// Distinct outcomes have distinct names, and none is named `success`.
pub proof fn lemma_names_distinct()
    ensures
        forall|a: BadOutcome, b: BadOutcome| outcome_name(a) == outcome_name(b) ==> a == b,
        forall|b: BadOutcome| outcome_name(b) != "success"@,
{
    reveal_strlit("success");
    assert("success"@.len() == 7 && "success"@[0] == 's');
    assert forall|a: BadOutcome, b: BadOutcome| outcome_name(a) == outcome_name(b) implies a == b by {
        lemma_name_signature(a);
        lemma_name_signature(b);
    }
    assert forall|b: BadOutcome| outcome_name(b) != "success"@ by {
        lemma_name_signature(b);
    }
}

impl BadOutcome {
    /// The kebab-case name of the outcome.
    pub fn name(&self) -> (r: &'static str)
        ensures
            r@ == outcome_name(*self),
    {
        match self {
            BadOutcome::Interrupt => "interrupt",
            BadOutcome::Timeout => "timeout",
            BadOutcome::Invalid => "invalid",
            BadOutcome::Failure => "failure",
            BadOutcome::Undefined => "undefined",
            BadOutcome::Error => "error",
        }
    }

    /// The outcome with the given kebab-case name, if there is one.
    pub fn from_name(s: &str) -> (r: Option<BadOutcome>)
        ensures
            r matches Some(b) ==> outcome_name(b) == s@,
            r is None ==> forall|b: BadOutcome| outcome_name(b) != s@,
    {
        let all = BadOutcome::all();
        let mut i: usize = 0;
        while i < all.len()
            invariant
                all@ == all_outcomes(),
                i <= all.len(),
                forall|j: int| 0 <= j < i ==> outcome_name(#[trigger] all@[j]) != s@,
            decreases all.len() - i,
        {
            if same_text(all[i].name(), s) {
                return Some(all[i]);
            }
            i += 1;
        }
        proof {
            assert forall|b: BadOutcome| outcome_name(b) != s@ by {
                assert(all_outcomes().contains(b));
            }
        }
        None
    }

    /// The exit code of a run with this outcome; success exits with 0.
    pub fn exit_code(&self) -> (r: u8)
        ensures
            r == outcome_code(*self),
    {
        match self {
            BadOutcome::Interrupt => 6,
            BadOutcome::Timeout => 5,
            BadOutcome::Invalid => 4,
            BadOutcome::Failure => 3,
            BadOutcome::Undefined => 2,
            BadOutcome::Error => 1,
        }
    }

    /// Every outcome, in declaration order.
    pub fn all() -> (r: Vec<BadOutcome>)
        ensures
            r@ == all_outcomes(),
    {
        let r = vec![
            BadOutcome::Interrupt,
            BadOutcome::Timeout,
            BadOutcome::Invalid,
            BadOutcome::Failure,
            BadOutcome::Undefined,
            BadOutcome::Error,
        ];
        assert(r@ =~= all_outcomes());
        r
    }
}

/// The text that lists the accepted outcome names.
pub open spec fn help_text() -> Seq<char> {
    "One of `interrupt`, `timeout`, `invalid`, `failure`, `undefined`, `error`, or `success`"@
}

/// `prefix` followed by each name in backquotes and a comma, then "or `success`".
pub open spec fn help_from(prefix: Seq<char>, names: Seq<BadOutcome>) -> Seq<char>
    decreases names.len(),
{
    if names.len() == 0 {
        prefix + "or `success`"@
    } else {
        help_from(prefix + "`"@ + outcome_name(names[0]) + "`, "@, names.drop_first())
    }
}

/// The help text for an outcome argument, naming each outcome and success.
pub fn outcome_help() -> (r: String)
    ensures
        r@ == help_from("One of "@, all_outcomes()),
{
    let all = BadOutcome::all();
    let mut out: Vec<char> = Vec::new();
    push_str(&mut out, "One of ");
    assert(all@.subrange(0, all@.len() as int) =~= all@);
    let mut i: usize = 0;
    while i < all.len()
        invariant
            all@ == all_outcomes(),
            i <= all.len(),
            help_from(out@, all@.subrange(i as int, all@.len() as int))
                == help_from("One of "@, all_outcomes()),
        decreases all.len() - i,
    {
        let ghost before = out@;
        push_str(&mut out, "`");
        push_str(&mut out, all[i].name());
        push_str(&mut out, "`, ");
        assert(all@.subrange(i as int, all@.len() as int).drop_first()
            =~= all@.subrange(i + 1, all@.len() as int));
        i += 1;
    }
    push_str(&mut out, "or `success`");
    string_of(&out)
}

/// The outcome that prevails when two hold at once: the one of higher precedence.
pub fn prevailing(a: Result<(), BadOutcome>, b: Result<(), BadOutcome>) -> (r: Result<(), BadOutcome>)
    ensures
        r == a || r == b,
        result_precedence(r) >= result_precedence(a),
        result_precedence(r) >= result_precedence(b),
{
    let pa: u8 = precedence_of(&a);
    let pb: u8 = precedence_of(&b);
    if pa >= pb {
        a
    } else {
        b
    }
}

fn precedence_of(r: &Result<(), BadOutcome>) -> (p: u8)
    ensures
        p as nat == result_precedence(*r),
{
    match r {
        Ok(()) => 0,
        Err(BadOutcome::Interrupt) => 6,
        Err(BadOutcome::Error) => 5,
        Err(BadOutcome::Timeout) => 4,
        Err(BadOutcome::Invalid) => 3,
        Err(BadOutcome::Undefined) => 2,
        Err(BadOutcome::Failure) => 1,
    }
}

/// The single outcome of a run in which all of `observed` held: the one of highest precedence,
/// or success when nothing went wrong.
pub fn classify(observed: &Vec<BadOutcome>) -> (r: Result<(), BadOutcome>)
    ensures
        r is Ok <==> observed@.len() == 0,
        r matches Err(b) ==> observed@.contains(b),
        forall|i: int| 0 <= i < observed@.len() ==> result_precedence(r) >= precedence(#[trigger] observed@[i]),
{
    let mut r: Result<(), BadOutcome> = Ok(());
    let mut i: usize = 0;
    while i < observed.len()
        invariant
            i <= observed.len(),
            r is Ok <==> i == 0,
            r matches Err(b) ==> observed@.subrange(0, i as int).contains(b),
            forall|j: int| 0 <= j < i ==> result_precedence(r) >= precedence(#[trigger] observed@[j]),
        decreases observed.len() - i,
    {
        let ghost old_r = r;
        r = prevailing(r, Err(observed[i]));
        proof {
            if let Err(b) = r {
                if r == old_r {
                    let k = choose|k: int| 0 <= k < i && observed@.subrange(0, i as int)[k] == b;
                    assert(observed@.subrange(0, i + 1)[k] == b);
                } else {
                    assert(observed@.subrange(0, i + 1)[i as int] == b);
                }
            }
        }
        i += 1;
    }
    assert(observed@.subrange(0, observed@.len() as int) =~= observed@);
    r
}

/// The exit code that `gradbench run` ends with: that of the outcome, and for a success 1 unless
/// both processes were waited for successfully.
pub fn run_exit_code(outcome: Result<(), BadOutcome>, eval_waited: bool, tool_waited: bool) -> (r: u8)
    ensures
        outcome matches Err(b) ==> r == outcome_code(b),
        outcome is Ok ==> r == (if eval_waited && tool_waited { 0u8 } else { 1u8 }),
{
    match outcome {
        Ok(()) => if eval_waited && tool_waited { 0 } else { 1 },
        Err(b) => b.exit_code(),
    }
}

/// The exit code named by an outcome argument: 0 for `success`, the outcome's code for one of
/// the outcome names, and `None` for anything else.
pub fn exit_code_of_name(s: &str) -> (r: Option<u8>)
    ensures
        r is None <==> (s@ != "success"@ && forall|b: BadOutcome| outcome_name(b) != s@),
        r matches Some(c) ==> (if s@ == "success"@ { c == 0 } else {
            exists|b: BadOutcome| outcome_name(b) == s@ && c == outcome_code(b)
        }),
{
    proof { lemma_names_distinct(); }
    match BadOutcome::from_name(s) {
        Some(b) => Some(b.exit_code()),
        None => if same_text(s, "success") { Some(0) } else { None },
    }
}

/// Whether a command finished well, and if not, the exit code to pass on: its own code where it
/// fits in a byte, else 1.
pub fn status_code(success: bool, code: Option<i32>) -> (r: Result<(), u8>)
    ensures
        success ==> r is Ok,
        !success ==> r == Err::<(), u8>(match code {
            Some(c) => if 0 <= c <= 255 { c as u8 } else { 1u8 },
            None => 1u8,
        }),
{
    if success {
        Ok(())
    } else {
        match code {
            Some(c) => if 0 <= c && c <= 255 { Err(c as u8) } else { Err(1) },
            None => Err(1),
        }
    }
}

} // verus!
