use vstd::prelude::*;

use crate::names::{mangle, mangled};
use crate::text::{push_str, same_text, string_of, texts};

verus! {

/// A single entry in the `tool` matrix for GitHub Actions.
#[derive(Debug)]
pub struct ToolEntry {
    /// The name of the tool.
    pub tool: String,
    /// Whether the tool can be built for `linux/arm64`, as opposed to just `linux/amd64`.
    pub cross: bool,
}

/// A single entry in the `run` matrix for GitHub Actions.
#[derive(Debug)]
pub struct RunEntry {
    /// Arguments for the `repo run` subcommand.
    pub args: String,
    /// The name of the GitHub Actions artifact to produce.
    pub artifact: String,
}

impl RunEntry {
    /// The entry for `args`, whose artifact is named by the mangled arguments.
    pub fn new(args: String) -> (r: RunEntry)
        ensures
            r.args@ == args@,
            r.artifact@ == mangled(args@),
    {
        let artifact = mangle(args.as_str());
        RunEntry { args, artifact }
    }
}

/// The most jobs that one GitHub Actions matrix may hold.
pub const MAX_JOBS: usize = 256;

/// The evals that run together, against each tool, in one job.
pub open spec fn squished() -> Seq<Seq<char>> {
    seq!["hello"@, "llsq"@, "lstm"@, "particle"@, "saddle"@]
}

/// The arguments of the job that runs the squished evals against `tool`.
pub open spec fn squished_args(tool: Seq<char>) -> Seq<char> {
    "--eval hello --eval llsq --eval lstm --eval particle --eval saddle --tool "@ + tool
}

/// The arguments of the job that runs `eval` against `tool`.
pub open spec fn pair_args(eval: Seq<char>, tool: Seq<char>) -> Seq<char> {
    "--eval "@ + eval + " --tool "@ + tool
}

/// The arguments of the jobs of the evals that are not squished, each against each tool.
pub open spec fn pair_jobs(evals: Seq<Seq<char>>, tools: Seq<Seq<char>>) -> Seq<Seq<char>>
    decreases evals.len(),
{
    if evals.len() == 0 {
        Seq::empty()
    } else {
        pair_jobs(evals.drop_last(), tools) + if squished().contains(evals.last()) {
            Seq::empty()
        } else {
            tools.map_values(|t: Seq<char>| pair_args(evals.last(), t))
        }
    }
}

/// The arguments of every job: one per tool for the squished evals, then one per other eval and
/// tool.
pub open spec fn job_args(evals: Seq<Seq<char>>, tools: Seq<Seq<char>>) -> Seq<Seq<char>> {
    tools.map_values(|t: Seq<char>| squished_args(t)) + pair_jobs(evals, tools)
}

/// The entries of the `tool` matrix: every tool but `scilean` is built for both platforms.
pub fn tool_entries(tools: &Vec<String>) -> (r: Vec<ToolEntry>)
    ensures
        r@.len() == tools@.len(),
        forall|i: int|
            0 <= i < tools@.len() ==> (#[trigger] r@[i]).tool@ == tools@[i]@ && r@[i].cross == (
            tools@[i]@ != "scilean"@),
{
    let mut r: Vec<ToolEntry> = Vec::new();
    let mut i: usize = 0;
    while i < tools.len()
        invariant
            i <= tools.len(),
            r@.len() == i,
            forall|j: int|
                0 <= j < i ==> (#[trigger] r@[j]).tool@ == tools@[j]@ && r@[j].cross == (
                tools@[j]@ != "scilean"@),
        decreases tools.len() - i,
    {
        let cross = !same_text(tools[i].as_str(), "scilean");
        r.push(ToolEntry { tool: tools[i].clone(), cross });
        i += 1;
    }
    r
}

fn is_squished(eval: &str) -> (r: bool)
    ensures
        r == squished().contains(eval@),
{
    let r = same_text(eval, "hello") || same_text(eval, "llsq") || same_text(eval, "lstm")
        || same_text(eval, "particle") || same_text(eval, "saddle");
    proof {
        let s = squished();
        if s.contains(eval@) {
            let k = choose|k: int| 0 <= k < s.len() && s[k] == eval@;
            assert(r);
        }
        if r {
            if eval@ == "hello"@ { assert(s[0] == eval@); }
            if eval@ == "llsq"@ { assert(s[1] == eval@); }
            if eval@ == "lstm"@ { assert(s[2] == eval@); }
            if eval@ == "particle"@ { assert(s[3] == eval@); }
            if eval@ == "saddle"@ { assert(s[4] == eval@); }
        }
    }
    r
}

fn entry_of(args: Vec<char>) -> (r: RunEntry)
    ensures
        r.args@ == args@,
        r.artifact@ == mangled(args@),
{
    RunEntry::new(string_of(&args))
}

/// The entries of the `run` matrix for sorted `evals` and `tools`, or the number of jobs where
/// there are more than the matrix may hold.
pub fn run_entries(evals: &Vec<String>, tools: &Vec<String>) -> (r: Result<Vec<RunEntry>, usize>)
    requires
        tools@.len() * (evals@.len() + 1) <= usize::MAX,
    ensures
        r matches Ok(v) ==> v@.len() == job_args(texts(evals@), texts(tools@)).len() && v@.len() <= MAX_JOBS,
        r matches Ok(v) ==> forall|i: int|
            0 <= i < v@.len() ==> (#[trigger] v@[i]).args@ == job_args(texts(evals@), texts(tools@))[i]
                && v@[i].artifact@ == mangled(v@[i].args@),
        r matches Err(n) ==> n == job_args(texts(evals@), texts(tools@)).len() && n > MAX_JOBS,
{
    let ghost es = texts(evals@);
    let ghost ts = texts(tools@);
    let mut runs: Vec<RunEntry> = Vec::new();
    let mut j: usize = 0;
    while j < tools.len()
        invariant
            j <= tools.len(),
            ts == texts(tools@),
            runs@.len() == j,
            forall|k: int|
                0 <= k < j ==> (#[trigger] runs@[k]).args@ == squished_args(ts[k])
                    && runs@[k].artifact@ == mangled(runs@[k].args@),
        decreases tools.len() - j,
    {
        let mut args: Vec<char> = Vec::new();
        push_str(&mut args, "--eval hello --eval llsq --eval lstm --eval particle --eval saddle --tool ");
        push_str(&mut args, tools[j].as_str());
        runs.push(entry_of(args));
        j += 1;
    }
    let ghost head = tools@.len();
    let mut i: usize = 0;
    assert(es.subrange(0, 0) =~= Seq::<Seq<char>>::empty());
    while i < evals.len()
        invariant
            i <= evals.len(),
            es == texts(evals@),
            ts == texts(tools@),
            head == ts.len(),
            tools@.len() * (evals@.len() + 1) <= usize::MAX,
            runs@.len() == head + pair_jobs(es.subrange(0, i as int), ts).len(),
            runs@.len() <= tools@.len() * (i + 1),
            forall|k: int|
                0 <= k < runs@.len() ==> (#[trigger] runs@[k]).args@ == job_args(
                    es.subrange(0, i as int),
                    ts,
                )[k] && runs@[k].artifact@ == mangled(runs@[k].args@),
        decreases evals.len() - i,
    {
        let ghost pre = es.subrange(0, i as int);
        let ghost now = es.subrange(0, i + 1);
        assert(now.drop_last() =~= pre);
        assert(now.last() == es[i as int]);
        let ghost before = runs@;
        if !is_squished(evals[i].as_str()) {
            let mut j: usize = 0;
            while j < tools.len()
                invariant
                    j <= tools.len(),
                    ts == texts(tools@),
                    es == texts(evals@),
                    runs@.len() == before.len() + j,
                    before.len() <= tools@.len() * (i + 1),
                    tools@.len() * (evals@.len() + 1) <= usize::MAX,
                    i < evals@.len(),
                    forall|k: int| 0 <= k < before.len() ==> #[trigger] runs@[k] == before[k],
                    forall|k: int|
                        before.len() <= k < runs@.len() ==> (#[trigger] runs@[k]).args@
                            == pair_args(es[i as int], ts[k - before.len()])
                            && runs@[k].artifact@ == mangled(runs@[k].args@),
                decreases tools.len() - j,
            {
                proof {
                    assert(tools@.len() * (i + 1) + tools@.len() == tools@.len() * (i + 2)) by (nonlinear_arith);
                    assert(tools@.len() * (i + 2) <= tools@.len() * (evals@.len() + 1)) by (nonlinear_arith)
                        requires i + 2 <= evals@.len() + 1;
                }
                let mut args: Vec<char> = Vec::new();
                push_str(&mut args, "--eval ");
                push_str(&mut args, evals[i].as_str());
                push_str(&mut args, " --tool ");
                push_str(&mut args, tools[j].as_str());
                let ghost prev = runs@;
                runs.push(entry_of(args));
                assert forall|k: int|
                    before.len() <= k < runs@.len() implies (#[trigger] runs@[k]).args@
                        == pair_args(es[i as int], ts[k - before.len()])
                        && runs@[k].artifact@ == mangled(runs@[k].args@) by {
                    if k < prev.len() {
                        assert(runs@[k] == prev[k]);
                    }
                }
                j += 1;
            }
        }
        proof {
            assert(tools@.len() * (i + 1) + tools@.len() == tools@.len() * (i + 2)) by (nonlinear_arith);
            let jobs = job_args(now, ts);
            assert forall|k: int| 0 <= k < runs@.len() implies (#[trigger] runs@[k]).args@ == jobs[k]
                && runs@[k].artifact@ == mangled(runs@[k].args@) by {
                if k < before.len() {
                    assert(jobs[k] == job_args(pre, ts)[k]);
                }
            }
        }
        i += 1;
    }
    assert(es.subrange(0, evals.len() as int) =~= es);
    if runs.len() > MAX_JOBS {
        return Err(runs.len());
    }
    Ok(runs)
}

} // verus!
