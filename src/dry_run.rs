use vstd::prelude::*;

use crate::docker::{build_image_command, kind_name, kind_word, Docker, RunItemKind};
use crate::names::{eval_subpath, joined, log_subpath, mangled};
use crate::run_items::RunItem;
use crate::text::{chars_of, decimal, decimal_chars, push_chars, push_str, string_of, texts};

verus! {

/// How a word is written for a POSIX shell, quoted where it needs to be.
pub uninterp spec fn shell_quoted(s: Seq<char>) -> Seq<char>;

/// Relies on `shlex::try_quote`: the word quoted for a POSIX shell, or an error exactly when it
/// holds a nul character; an empty word becomes `''`.
#[verifier::external_body]
fn quote_word(s: &str) -> (r: Option<String>)
    ensures
        r is None <==> s@.contains('\0'),
        r is Some ==> r->Some_0@ == shell_quoted(s@),
        s@.len() == 0 ==> (r is Some && r->Some_0@ == "''"@),
{
    shlex::try_quote(s).ok().map(|q| q.into_owned())
}

/// A word quoted for a shell, where it can be: it holds no nul character.
pub open spec fn quoted(s: Seq<char>) -> Option<Seq<char>> {
    if s.contains('\0') {
        None
    } else {
        Some(shell_quoted(s))
    }
}

/// Both texts, one after the other, where both are there.
pub open spec fn cat(a: Option<Seq<char>>, b: Option<Seq<char>>) -> Option<Seq<char>> {
    match (a, b) {
        (Some(x), Some(y)) => Some(x + y),
        _ => None,
    }
}

/// All texts, in order, where all are there.
pub open spec fn cat_all(parts: Seq<Option<Seq<char>>>) -> Option<Seq<char>>
    decreases parts.len(),
{
    if parts.len() == 0 {
        Some(Seq::empty())
    } else {
        cat(cat_all(parts.drop_last()), parts.last())
    }
}

/// The characters of an optional text.
pub open spec fn chars_opt(r: Option<Vec<char>>) -> Option<Seq<char>> {
    match r {
        Some(v) => Some(v@),
        None => None,
    }
}

proof fn lemma_cat_all_missing(parts: Seq<Option<Seq<char>>>, k: int)
    requires
        0 <= k <= parts.len(),
        cat_all(parts.subrange(0, k)) is None,
    ensures
        cat_all(parts) is None,
    decreases parts.len() - k,
{
    if k < parts.len() {
        assert(parts.subrange(0, k + 1).drop_last() =~= parts.subrange(0, k));
        lemma_cat_all_missing(parts, k + 1);
    } else {
        assert(parts.subrange(0, k) =~= parts);
    }
}

/// Appends `part`, the `i`th of `parts`, to `out`, which holds the parts before it; `false`
/// where the part is missing, and with it the whole.
fn append_part(
    out: &mut Vec<char>,
    part: Option<Vec<char>>,
    Ghost(parts): Ghost<Seq<Option<Seq<char>>>>,
    Ghost(i): Ghost<int>,
) -> (ok: bool)
    requires
        0 <= i < parts.len(),
        cat_all(parts.subrange(0, i)) == Some(old(out)@),
        chars_opt(part) == parts[i],
    ensures
        ok ==> cat_all(parts.subrange(0, i + 1)) == Some(final(out)@),
        !ok ==> cat_all(parts) is None,
{
    assert(parts.subrange(0, i + 1).drop_last() =~= parts.subrange(0, i));
    match part {
        Some(p) => {
            push_chars(out, &p);
            true
        },
        None => {
            proof { lemma_cat_all_missing(parts, i + 1); }
            false
        },
    }
}

/// The parts of a command line: each word quoted, after a space but for the first.
pub open spec fn line_parts(ws: Seq<Seq<char>>) -> Seq<Option<Seq<char>>> {
    Seq::new(
        ws.len(),
        |i: int|
            if i == 0 {
                quoted(ws[i])
            } else {
                cat(Some(" "@), quoted(ws[i]))
            },
    )
}

/// The words of a command, each quoted, separated by spaces.
pub open spec fn shell_line(ws: Seq<Seq<char>>) -> Option<Seq<char>> {
    cat_all(line_parts(ws))
}

fn quote_exec(s: &str) -> (r: Option<Vec<char>>)
    ensures
        chars_opt(r) == quoted(s@),
{
    match quote_word(s) {
        Some(q) => Some(chars_of(q.as_str())),
        None => None,
    }
}

fn shell_line_exec(ws: &Vec<String>) -> (r: Option<Vec<char>>)
    ensures
        chars_opt(r) == shell_line(texts(ws@)),
{
    let ghost w = texts(ws@);
    let ghost parts = line_parts(w);
    let mut out: Vec<char> = Vec::new();
    let mut i: usize = 0;
    assert(parts.subrange(0, 0) =~= Seq::<Option<Seq<char>>>::empty());
    while i < ws.len()
        invariant
            i <= ws.len(),
            w == texts(ws@),
            parts == line_parts(w),
            cat_all(parts.subrange(0, i as int)) == Some(out@),
        decreases ws.len() - i,
    {
        let q = quote_exec(ws[i].as_str());
        let part = if i == 0 {
            q
        } else {
            match q {
                Some(v) => {
                    let mut p: Vec<char> = Vec::new();
                    push_str(&mut p, " ");
                    push_chars(&mut p, &v);
                    Some(p)
                },
                None => None,
            }
        };
        if !append_part(&mut out, part, Ghost(parts), Ghost(i as int)) {
            return None;
        }
        i += 1;
    }
    assert(parts.subrange(0, ws.len() as int) =~= parts);
    Some(out)
}

/// Options for running evals against tools.
pub struct RunConfig {
    /// The directory for the logs.
    pub output: Option<String>,
    /// The timeout, in seconds, for tool responses.
    pub timeout: Option<u64>,
    /// Only allow known evals and tools, and check their outcomes against the expected ones.
    pub check: bool,
    /// The GitHub Actions run from which to download the images.
    pub download_github: Option<u64>,
}

impl Default for RunConfig {
    fn default() -> (r: RunConfig)
        ensures
            r.output is None,
            r.timeout is None,
            !r.check,
            r.download_github is None,
    {
        RunConfig { output: None, timeout: None, check: false, download_github: None }
    }
}

/// The evals and tools to build and to run.
pub struct RunItems {
    pub evals_build: Vec<String>,
    pub tools_build: Vec<String>,
    pub evals_run: Vec<RunItem>,
    pub tools_run: Vec<RunItem>,
}

/// The texts of run items: each raw string and its command.
pub open spec fn item_views(v: Seq<RunItem>) -> Seq<(Seq<char>, Seq<Seq<char>>)> {
    v.map_values(|it: RunItem| (it.0@, texts(it.1@)))
}

/// ` --name KIND-NAME` for each name.
pub open spec fn name_args(k: RunItemKind, names: Seq<Seq<char>>) -> Seq<char>
    decreases names.len(),
{
    if names.len() == 0 {
        Seq::empty()
    } else {
        name_args(k, names.drop_last()) + " --name "@ + kind_word(k) + "-"@ + names.last()
    }
}

/// A `docker load` line for the downloaded image of each name.
pub open spec fn load_lines(k: RunItemKind, names: Seq<Seq<char>>) -> Seq<char>
    decreases names.len(),
{
    if names.len() == 0 {
        Seq::empty()
    } else {
        load_lines(k, names.drop_last()) + "docker load --input "@ + kind_word(k) + "-"@
            + names.last() + "/"@ + kind_word(k) + "-"@ + names.last() + ".tar\n"@
    }
}

/// The lines that download and load the images from a GitHub Actions run.
pub open spec fn download_section(run_id: u64, evals: Seq<Seq<char>>, tools: Seq<Seq<char>>) -> Seq<char> {
    (if evals.len() == 0 && tools.len() == 0 {
        Seq::empty()
    } else {
        "gh run download "@ + decimal(run_id as nat) + name_args(RunItemKind::Eval, evals) + name_args(
            RunItemKind::Tool,
            tools,
        ) + "\n"@
    }) + load_lines(RunItemKind::Eval, evals) + load_lines(RunItemKind::Tool, tools)
}

/// The parts of the lines that build the images of `names`.
pub open spec fn build_parts(k: RunItemKind, names: Seq<Seq<char>>) -> Seq<Option<Seq<char>>> {
    Seq::new(
        names.len(),
        |i: int| cat(shell_line(build_image_command(k, names[i], "latest"@, Seq::empty())), Some("\n"@)),
    )
}

/// The parts of the line that makes the log directory of each eval.
pub open spec fn mkdir_parts(dir: Seq<char>, evals: Seq<(Seq<char>, Seq<Seq<char>>)>) -> Seq<Option<Seq<char>>> {
    Seq::new(evals.len(), |i: int| cat(Some(" "@), quoted(joined(dir, mangled(evals[i].0)))))
}

/// A command line, quoted again as one word.
pub open spec fn quoted_line(ws: Seq<Seq<char>>) -> Option<Seq<char>> {
    match shell_line(ws) {
        Some(l) => quoted(l),
        None => None,
    }
}

/// The parts of the line that runs one eval against one tool.
pub open spec fn run_line_parts(
    this: Seq<char>,
    timeout: Option<u64>,
    output: Option<Seq<char>>,
    e: (Seq<char>, Seq<Seq<char>>),
    t: (Seq<char>, Seq<Seq<char>>),
) -> Seq<Option<Seq<char>>> {
    seq![
        Some(this + " run"@ + match timeout {
            Some(s) => " --timeout "@ + decimal(s as nat),
            None => Seq::empty(),
        }),
        cat(Some(" --eval "@), quoted_line(e.1)),
        cat(Some(" --tool "@), quoted_line(t.1)),
        match output {
            Some(dir) => cat(
                Some(" -o "@),
                quoted(joined(joined(dir, mangled(e.0)), mangled(t.0)) + ".jsonl"@),
            ),
            None => Some(Seq::empty()),
        },
        Some("\n"@),
    ]
}

/// The line that runs one eval against one tool.
pub open spec fn run_line(
    this: Seq<char>,
    timeout: Option<u64>,
    output: Option<Seq<char>>,
    e: (Seq<char>, Seq<Seq<char>>),
    t: (Seq<char>, Seq<Seq<char>>),
) -> Option<Seq<char>> {
    cat_all(run_line_parts(this, timeout, output, e, t))
}

/// The lines that run one eval against each tool.
pub open spec fn eval_run_parts(
    this: Seq<char>,
    timeout: Option<u64>,
    output: Option<Seq<char>>,
    e: (Seq<char>, Seq<Seq<char>>),
    tools: Seq<(Seq<char>, Seq<Seq<char>>)>,
) -> Seq<Option<Seq<char>>> {
    Seq::new(tools.len(), |j: int| run_line(this, timeout, output, e, tools[j]))
}

/// The lines that run each eval against each tool.
pub open spec fn run_parts(
    this: Seq<char>,
    timeout: Option<u64>,
    output: Option<Seq<char>>,
    evals: Seq<(Seq<char>, Seq<Seq<char>>)>,
    tools: Seq<(Seq<char>, Seq<Seq<char>>)>,
) -> Seq<Option<Seq<char>>> {
    Seq::new(evals.len(), |i: int| cat_all(eval_run_parts(this, timeout, output, evals[i], tools)))
}

/// The text of an optional string.
pub open spec fn text_opt(s: Option<String>) -> Option<Seq<char>> {
    match s {
        Some(t) => Some(t@),
        None => None,
    }
}

/// The three parts of a dry run: building or downloading the images, making the log
/// directories, and running each eval against each tool.
pub open spec fn dry_run_parts(this: Seq<char>, cfg: RunConfig, items: RunItems) -> Seq<Option<Seq<char>>> {
    let evals = item_views(items.evals_run@);
    let tools = item_views(items.tools_run@);
    seq![
        match cfg.download_github {
            Some(id) => Some(
                download_section(id, texts(items.evals_build@), texts(items.tools_build@)),
            ),
            None => cat(
                cat_all(build_parts(RunItemKind::Eval, texts(items.evals_build@))),
                cat_all(build_parts(RunItemKind::Tool, texts(items.tools_build@))),
            ),
        },
        match cfg.output {
            Some(dir) => cat(cat(Some("mkdir -p"@), cat_all(mkdir_parts(dir@, evals))), Some("\n"@)),
            None => Some(Seq::empty()),
        },
        cat_all(run_parts(this, cfg.timeout, text_opt(cfg.output), evals, tools)),
    ]
}

/// The shell script that builds or downloads the images, makes the log directories and runs
/// each eval against each tool; `None` where a word that must be quoted holds a nul character.
pub open spec fn dry_run_text(this: Seq<char>, cfg: RunConfig, items: RunItems) -> Option<Seq<char>> {
    cat_all(dry_run_parts(this, cfg, items))
}

} // verus!

verus! {

fn name_args_exec(out: &mut Vec<char>, k: RunItemKind, names: &Vec<String>)
    ensures
        final(out)@ == old(out)@ + name_args(k, texts(names@)),
{
    let ghost start = out@;
    let ghost w = texts(names@);
    let mut i: usize = 0;
    assert(w.subrange(0, 0) =~= Seq::<Seq<char>>::empty());
    while i < names.len()
        invariant
            i <= names.len(),
            w == texts(names@),
            out@ == start + name_args(k, w.subrange(0, i as int)),
        decreases names.len() - i,
    {
        assert(w.subrange(0, i + 1).drop_last() =~= w.subrange(0, i as int));
        push_str(out, " --name ");
        push_str(out, kind_name(k));
        push_str(out, "-");
        push_str(out, names[i].as_str());
        assert(out@ =~= start + name_args(k, w.subrange(0, i + 1)));
        i += 1;
    }
    assert(w.subrange(0, names.len() as int) =~= w);
}

fn load_lines_exec(out: &mut Vec<char>, k: RunItemKind, names: &Vec<String>)
    ensures
        final(out)@ == old(out)@ + load_lines(k, texts(names@)),
{
    let ghost start = out@;
    let ghost w = texts(names@);
    let mut i: usize = 0;
    assert(w.subrange(0, 0) =~= Seq::<Seq<char>>::empty());
    while i < names.len()
        invariant
            i <= names.len(),
            w == texts(names@),
            out@ == start + load_lines(k, w.subrange(0, i as int)),
        decreases names.len() - i,
    {
        assert(w.subrange(0, i + 1).drop_last() =~= w.subrange(0, i as int));
        push_str(out, "docker load --input ");
        push_str(out, kind_name(k));
        push_str(out, "-");
        push_str(out, names[i].as_str());
        push_str(out, "/");
        push_str(out, kind_name(k));
        push_str(out, "-");
        push_str(out, names[i].as_str());
        push_str(out, ".tar\n");
        assert(out@ =~= start + load_lines(k, w.subrange(0, i + 1)));
        i += 1;
    }
    assert(w.subrange(0, names.len() as int) =~= w);
}

fn download_exec(run_id: u64, evals: &Vec<String>, tools: &Vec<String>) -> (r: Vec<char>)
    ensures
        r@ == download_section(run_id, texts(evals@), texts(tools@)),
{
    let mut out: Vec<char> = Vec::new();
    if !(evals.len() == 0 && tools.len() == 0) {
        push_str(&mut out, "gh run download ");
        let digits = decimal_chars(run_id);
        push_chars(&mut out, &digits);
        name_args_exec(&mut out, RunItemKind::Eval, evals);
        name_args_exec(&mut out, RunItemKind::Tool, tools);
        push_str(&mut out, "\n");
    }
    let ghost head = out@;
    load_lines_exec(&mut out, RunItemKind::Eval, evals);
    load_lines_exec(&mut out, RunItemKind::Tool, tools);
    assert(out@ =~= download_section(run_id, texts(evals@), texts(tools@)));
    out
}

fn build_section_exec(k: RunItemKind, names: &Vec<String>) -> (r: Option<Vec<char>>)
    ensures
        chars_opt(r) == cat_all(build_parts(k, texts(names@))),
{
    let ghost w = texts(names@);
    let ghost parts = build_parts(k, w);
    let mut out: Vec<char> = Vec::new();
    let mut i: usize = 0;
    assert(parts.subrange(0, 0) =~= Seq::<Option<Seq<char>>>::empty());
    while i < names.len()
        invariant
            i <= names.len(),
            w == texts(names@),
            parts == build_parts(k, w),
            cat_all(parts.subrange(0, i as int)) == Some(out@),
        decreases names.len() - i,
    {
        let d = Docker::new(names[i].as_str());
        let cmd = match k {
            RunItemKind::Eval => d.build_eval_cmd(),
            RunItemKind::Tool => d.build_tool_cmd(),
        };
        let part = match shell_line_exec(&cmd) {
            Some(mut l) => {
                push_str(&mut l, "\n");
                Some(l)
            },
            None => None,
        };
        if !append_part(&mut out, part, Ghost(parts), Ghost(i as int)) {
            return None;
        }
        i += 1;
    }
    assert(parts.subrange(0, names.len() as int) =~= parts);
    Some(out)
}

fn mkdir_exec(dir: &str, evals: &Vec<RunItem>) -> (r: Option<Vec<char>>)
    ensures
        chars_opt(r) == cat(cat(Some("mkdir -p"@), cat_all(mkdir_parts(dir@, item_views(evals@)))), Some("\n"@)),
{
    let ghost parts = mkdir_parts(dir@, item_views(evals@));
    let mut out: Vec<char> = Vec::new();
    let mut i: usize = 0;
    assert(parts.subrange(0, 0) =~= Seq::<Option<Seq<char>>>::empty());
    while i < evals.len()
        invariant
            i <= evals.len(),
            parts == mkdir_parts(dir@, item_views(evals@)),
            cat_all(parts.subrange(0, i as int)) == Some(out@),
        decreases evals.len() - i,
    {
        let sub = eval_subpath(dir, evals[i].0.as_str());
        let part = match quote_exec(sub.as_str()) {
            Some(q) => {
                let mut p: Vec<char> = Vec::new();
                push_str(&mut p, " ");
                push_chars(&mut p, &q);
                Some(p)
            },
            None => None,
        };
        if !append_part(&mut out, part, Ghost(parts), Ghost(i as int)) {
            return None;
        }
        i += 1;
    }
    assert(parts.subrange(0, evals.len() as int) =~= parts);
    let mut line: Vec<char> = Vec::new();
    push_str(&mut line, "mkdir -p");
    push_chars(&mut line, &out);
    push_str(&mut line, "\n");
    Some(line)
}

/// `lead` followed by `rest`, where `rest` is there.
fn after(lead: &str, rest: Option<Vec<char>>) -> (r: Option<Vec<char>>)
    ensures
        chars_opt(r) == cat(Some(lead@), chars_opt(rest)),
{
    match rest {
        Some(v) => {
            let mut p: Vec<char> = Vec::new();
            push_str(&mut p, lead);
            push_chars(&mut p, &v);
            Some(p)
        },
        None => None,
    }
}

fn quoted_line_exec(ws: &Vec<String>) -> (r: Option<Vec<char>>)
    ensures
        chars_opt(r) == quoted_line(texts(ws@)),
{
    match shell_line_exec(ws) {
        Some(l) => {
            let s = string_of(&l);
            quote_exec(s.as_str())
        },
        None => None,
    }
}

fn run_line_exec(this: &str, cfg: &RunConfig, e: &RunItem, t: &RunItem) -> (r: Option<Vec<char>>)
    ensures
        chars_opt(r) == run_line(this@, cfg.timeout, text_opt(cfg.output), (e.0@, texts(e.1@)), (t.0@, texts(t.1@))),
{
    let ghost parts = run_line_parts(this@, cfg.timeout, text_opt(cfg.output), (e.0@, texts(e.1@)), (t.0@, texts(t.1@)));
    let mut out: Vec<char> = Vec::new();
    assert(parts.subrange(0, 0) =~= Seq::<Option<Seq<char>>>::empty());
    let mut head: Vec<char> = Vec::new();
    push_str(&mut head, this);
    push_str(&mut head, " run");
    if let Some(s) = cfg.timeout {
        push_str(&mut head, " --timeout ");
        let digits = decimal_chars(s);
        push_chars(&mut head, &digits);
    }
    assert(head@ =~= this@ + " run"@ + match cfg.timeout {
        Some(s) => " --timeout "@ + decimal(s as nat),
        None => Seq::empty(),
    });
    if !append_part(&mut out, Some(head), Ghost(parts), Ghost(0)) {
        return None;
    }
    if !append_part(&mut out, after(" --eval ", quoted_line_exec(&e.1)), Ghost(parts), Ghost(1)) {
        return None;
    }
    if !append_part(&mut out, after(" --tool ", quoted_line_exec(&t.1)), Ghost(parts), Ghost(2)) {
        return None;
    }
    let o = match &cfg.output {
        Some(dir) => {
            let path = log_subpath(dir.as_str(), e.0.as_str(), t.0.as_str());
            after(" -o ", quote_exec(path.as_str()))
        },
        None => Some(Vec::new()),
    };
    if !append_part(&mut out, o, Ghost(parts), Ghost(3)) {
        return None;
    }
    let mut nl: Vec<char> = Vec::new();
    push_str(&mut nl, "\n");
    if !append_part(&mut out, Some(nl), Ghost(parts), Ghost(4)) {
        return None;
    }
    assert(parts.subrange(0, 5) =~= parts);
    Some(out)
}

fn eval_runs_exec(this: &str, cfg: &RunConfig, e: &RunItem, tools: &Vec<RunItem>) -> (r: Option<Vec<char>>)
    ensures
        chars_opt(r) == cat_all(eval_run_parts(this@, cfg.timeout, text_opt(cfg.output), (e.0@, texts(e.1@)), item_views(tools@))),
{
    let ghost parts = eval_run_parts(this@, cfg.timeout, text_opt(cfg.output), (e.0@, texts(e.1@)), item_views(tools@));
    let mut out: Vec<char> = Vec::new();
    let mut j: usize = 0;
    assert(parts.subrange(0, 0) =~= Seq::<Option<Seq<char>>>::empty());
    while j < tools.len()
        invariant
            j <= tools.len(),
            parts == eval_run_parts(this@, cfg.timeout, text_opt(cfg.output), (e.0@, texts(e.1@)), item_views(tools@)),
            cat_all(parts.subrange(0, j as int)) == Some(out@),
        decreases tools.len() - j,
    {
        let part = run_line_exec(this, cfg, e, &tools[j]);
        if !append_part(&mut out, part, Ghost(parts), Ghost(j as int)) {
            return None;
        }
        j += 1;
    }
    assert(parts.subrange(0, tools.len() as int) =~= parts);
    Some(out)
}

/// Writes the shell script that a dry run prints: the commands that build or download the
/// images, make the log directories and run each eval against each tool, where `this` names
/// this program; `None` where a word that must be quoted holds a nul character.
pub fn run_dry(this: &str, cfg: &RunConfig, items: &RunItems) -> (r: Option<String>)
    ensures
        r is None <==> dry_run_text(this@, *cfg, *items) is None,
        r matches Some(s) ==> dry_run_text(this@, *cfg, *items) == Some(s@),
{
    let ghost evals = item_views(items.evals_run@);
    let ghost tools = item_views(items.tools_run@);
    let ghost parts = dry_run_parts(this@, *cfg, *items);
    assert(parts.subrange(0, 0) =~= Seq::<Option<Seq<char>>>::empty());
    let mut out: Vec<char> = Vec::new();
    let first = match cfg.download_github {
        Some(id) => Some(download_exec(id, &items.evals_build, &items.tools_build)),
        None => match (
            build_section_exec(RunItemKind::Eval, &items.evals_build),
            build_section_exec(RunItemKind::Tool, &items.tools_build),
        ) {
            (Some(a), Some(b)) => {
                let mut p = a;
                push_chars(&mut p, &b);
                Some(p)
            },
            _ => None,
        },
    };
    if !append_part(&mut out, first, Ghost(parts), Ghost(0)) {
        return None;
    }
    let second = match &cfg.output {
        Some(dir) => mkdir_exec(dir.as_str(), &items.evals_run),
        None => Some(Vec::new()),
    };
    if !append_part(&mut out, second, Ghost(parts), Ghost(1)) {
        return None;
    }
    let ghost rparts = run_parts(this@, cfg.timeout, text_opt(cfg.output), evals, tools);
    let mut runs: Vec<char> = Vec::new();
    let mut i: usize = 0;
    assert(rparts.subrange(0, 0) =~= Seq::<Option<Seq<char>>>::empty());
    let mut complete = true;
    while complete && i < items.evals_run.len()
        invariant
            i <= items.evals_run.len(),
            evals == item_views(items.evals_run@),
            tools == item_views(items.tools_run@),
            rparts == run_parts(this@, cfg.timeout, text_opt(cfg.output), evals, tools),
            parts == dry_run_parts(this@, *cfg, *items),
            cat_all(parts.subrange(0, 2)) == Some(out@),
            complete ==> cat_all(rparts.subrange(0, i as int)) == Some(runs@),
            !complete ==> cat_all(rparts) is None,
        decreases items.evals_run.len() - i + (if complete { 1int } else { 0int }),
    {
        let part = eval_runs_exec(this, cfg, &items.evals_run[i], &items.tools_run);
        assert(item_views(items.evals_run@)[i as int] == (items.evals_run@[i as int].0@, texts(items.evals_run@[i as int].1@)));
        if !append_part(&mut runs, part, Ghost(rparts), Ghost(i as int)) {
            complete = false;
        } else {
            i += 1;
        }
    }
    if !complete {
        return None;
    }
    assert(i == items.evals_run.len());
    assert(rparts.subrange(0, items.evals_run.len() as int) =~= rparts);
    assert(parts[2] == cat_all(rparts));
    if !append_part(&mut out, Some(runs), Ghost(parts), Ghost(2)) {
        return None;
    }
    assert(parts.subrange(0, 3) =~= parts);
    Some(string_of(&out))
}

} // verus!
