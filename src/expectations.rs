use vstd::prelude::*;

use crate::outcome::{lemma_names_distinct, outcome_name, BadOutcome};
use crate::text::{chars_of, debug_quoted, debug_text, push_chars, push_str, same_text, string_of, texts};

verus! {

/// A line of text without its trailing carriage return, if any.
pub open spec fn strip_cr(l: Seq<char>) -> Seq<char> {
    if l.len() > 0 && l.last() == '\r' {
        l.drop_last()
    } else {
        l
    }
}

/// The lines ended so far in `s`, and the unfinished line after them.
pub open spec fn lines_fold(s: Seq<char>) -> (Seq<Seq<char>>, Seq<char>)
    decreases s.len(),
{
    if s.len() == 0 {
        (Seq::empty(), Seq::empty())
    } else {
        let (ls, cur) = lines_fold(s.drop_last());
        if s.last() == '\n' {
            (ls.push(strip_cr(cur)), Seq::empty())
        } else {
            (ls, cur.push(s.last()))
        }
    }
}

/// The lines of `s`: split at each `\n`, a `\r` before it dropped, and the last line kept where
/// it is not empty.
pub open spec fn lines_of(s: Seq<char>) -> Seq<Seq<char>> {
    let (ls, cur) = lines_fold(s);
    if cur.len() == 0 {
        ls
    } else {
        ls.push(cur)
    }
}

/// Splits `s` into lines.
pub fn split_lines(s: &str) -> (r: Vec<String>)
    ensures
        texts(r@) == lines_of(s@),
{
    let cs = chars_of(s);
    let mut lines: Vec<String> = Vec::new();
    let mut cur: Vec<char> = Vec::new();
    let mut i: usize = 0;
    while i < cs.len()
        invariant
            i <= cs.len(),
            cs@ == s@,
            (texts(lines@), cur@) == lines_fold(cs@.subrange(0, i as int)),
        decreases cs.len() - i,
    {
        assert(cs@.subrange(0, i + 1).drop_last() =~= cs@.subrange(0, i as int));
        let c = cs[i];
        if c == '\n' {
            if cur.len() > 0 && cur[cur.len() - 1] == '\r' {
                cur.pop();
            }
            let ghost before = texts(lines@);
            lines.push(string_of(&cur));
            assert(texts(lines@) =~= before.push(cur@));
            cur = Vec::new();
        } else {
            cur.push(c);
        }
        i += 1;
    }
    assert(cs@.subrange(0, cs@.len() as int) =~= cs@);
    if cur.len() > 0 {
        let ghost before = texts(lines@);
        lines.push(string_of(&cur));
        assert(texts(lines@) =~= before.push(cur@));
    }
    lines
}

/// The place of the first space in `l`, if any.
pub open spec fn first_space(l: Seq<char>, k: int) -> bool {
    0 <= k < l.len() && l[k] == ' ' && forall|j: int| 0 <= j < k ==> l[j] != ' '
}

/// The outcome with name `o`, if any.
pub open spec fn outcome_named(o: Seq<char>) -> Option<BadOutcome> {
    if exists|b: BadOutcome| outcome_name(b) == o {
        Some(choose|b: BadOutcome| outcome_name(b) == o)
    } else {
        None
    }
}

/// What a line of a tool's `evals.txt` says: an eval the tool supports, alone, or followed by a
/// space and the name of the outcome that is expected instead of success; `Err` holds an
/// outcome name that is not one.
pub open spec fn parse_line(l: Seq<char>) -> Result<(Seq<char>, Option<BadOutcome>), Seq<char>> {
    if exists|k: int| first_space(l, k) {
        let k = choose|k: int| first_space(l, k);
        let o = l.subrange(k + 1, l.len() as int);
        match outcome_named(o) {
            Some(b) => Ok((l.subrange(0, k), Some(b))),
            None => Err(o),
        }
    } else {
        Ok((l, None))
    }
}

/// The path of a tool's list of evals.
pub open spec fn evals_path(tool: Seq<char>) -> Seq<char> {
    "tools/"@ + tool + "/evals.txt"@
}

/// What is wrong with line `l` of the list of `tool`, given the known `evals`, if anything.
pub open spec fn line_error(evals: Seq<Seq<char>>, tool: Seq<char>, l: Seq<char>) -> Option<Seq<char>> {
    match parse_line(l) {
        Err(o) => Some(
            debug_text(evals_path(tool)) + ": invalid outcome "@ + debug_text(o) + " for eval "@
                + debug_text(l.subrange(0, choose|k: int| first_space(l, k))),
        ),
        Ok((e, _)) => if evals.contains(e) {
            None
        } else {
            Some("eval "@ + debug_text(e) + " not found"@)
        },
    }
}

/// Every line of every tool's list, with the tool's name, tools in order.
pub open spec fn all_lines(tools: Seq<(Seq<char>, Seq<char>)>) -> Seq<(Seq<char>, Seq<char>)>
    decreases tools.len(),
{
    if tools.len() == 0 {
        Seq::empty()
    } else {
        all_lines(tools.drop_last()) + lines_of(tools.last().1).map_values(
            |l: Seq<char>| (tools.last().0, l),
        )
    }
}

/// The outcome expected of a tool on `eval`, by the lines of its list: the last line that names
/// the eval decides; where none does, the tool does not define it.
pub open spec fn expected_outcome(ls: Seq<Seq<char>>, eval: Seq<char>) -> Option<BadOutcome>
    decreases ls.len(),
{
    if ls.len() == 0 {
        Some(BadOutcome::Undefined)
    } else {
        match parse_line(ls.last()) {
            Ok((e, o)) => if e == eval {
                o
            } else {
                expected_outcome(ls.drop_last(), eval)
            },
            Err(_) => expected_outcome(ls.drop_last(), eval),
        }
    }
}

/// For each eval, each tool and the outcome expected of it: `None` for success.
pub type Matrix = Vec<(String, Vec<(String, Option<BadOutcome>)>)>;

/// The names and list texts of tools.
pub open spec fn tool_views(tools: Seq<(String, String)>) -> Seq<(Seq<char>, Seq<char>)> {
    tools.map_values(|t: (String, String)| (t.0@, t.1@))
}

} // verus!

verus! {

/// Whether `x` holds what line `l` says: the eval it names and the outcome expected there.
pub open spec fn agrees(l: Seq<char>, x: (String, Option<BadOutcome>)) -> bool {
    parse_line(l) matches Ok((e, o)) && x.0@ == e && x.1 == o
}

fn slice_chars(cs: &Vec<char>, from: usize, to: usize) -> (r: Vec<char>)
    requires
        from <= to <= cs@.len(),
    ensures
        r@ == cs@.subrange(from as int, to as int),
{
    let mut r: Vec<char> = Vec::new();
    let mut i: usize = from;
    while i < to
        invariant
            from <= i <= to,
            to <= cs@.len(),
            r@ == cs@.subrange(from as int, i as int),
        decreases to - i,
    {
        r.push(cs[i]);
        assert(cs@.subrange(from as int, i + 1) =~= cs@.subrange(from as int, i as int).push(cs@[i as int]));
        i += 1;
    }
    r
}

proof fn lemma_first_space_unique(l: Seq<char>, k: int)
    requires
        first_space(l, k),
    ensures
        (choose|j: int| first_space(l, j)) == k,
{
    let j = choose|j: int| first_space(l, j);
    if j < k {
        assert(l[j] != ' ');
    }
    if k < j {
        assert(l[k] != ' ');
    }
}

fn named_outcome(o: &str) -> (r: Option<BadOutcome>)
    ensures
        r == outcome_named(o@),
{
    let r = BadOutcome::from_name(o);
    proof {
        lemma_names_distinct();
        if let Some(b) = r {
            assert(outcome_name(b) == o@);
        }
    }
    r
}

/// Reads line `l` of the list of `tool`: the eval it names and the outcome expected there, or
/// the message of what is wrong with it.
fn read_line(evals: &Vec<String>, tool: &str, l: &str) -> (r: Result<(String, Option<BadOutcome>), String>)
    ensures
        line_error(texts(evals@), tool@, l@) matches Some(m) ==> (r is Err && r->Err_0@ == m),
        line_error(texts(evals@), tool@, l@) is None ==> (r is Ok && agrees(l@, r->Ok_0)),
{
    let cs = chars_of(l);
    let mut k: usize = 0;
    while k < cs.len() && cs[k] != ' '
        invariant
            k <= cs.len(),
            cs@ == l@,
            forall|j: int| 0 <= j < k ==> cs@[j] != ' ',
        decreases cs.len() - k,
    {
        k += 1;
    }
    let (eval, outcome) = if k < cs.len() {
        proof { lemma_first_space_unique(l@, k as int); }
        let e = slice_chars(&cs, 0, k);
        let o = slice_chars(&cs, k + 1, cs.len());
        let os = string_of(&o);
        match named_outcome(os.as_str()) {
            Some(b) => (e, Some(b)),
            None => {
                let mut path: Vec<char> = Vec::new();
                push_str(&mut path, "tools/");
                push_str(&mut path, tool);
                push_str(&mut path, "/evals.txt");
                let ps = string_of(&path);
                assert(ps@ == evals_path(tool@));
                let mut msg = chars_of(debug_quoted(ps.as_str()).as_str());
                push_str(&mut msg, ": invalid outcome ");
                push_str(&mut msg, debug_quoted(os.as_str()).as_str());
                push_str(&mut msg, " for eval ");
                push_str(&mut msg, debug_quoted(string_of(&e).as_str()).as_str());
                assert(e@ == l@.subrange(0, k as int));
                assert(os@ == l@.subrange(k + 1, l@.len() as int));
                assert(first_space(l@, k as int));
                assert(exists|j: int| first_space(l@, j));
                assert(outcome_named(os@) is None);
                assert(parse_line(l@) == Err::<(Seq<char>, Option<BadOutcome>), Seq<char>>(os@));
                assert(msg@ =~= line_error(texts(evals@), tool@, l@)->Some_0);
                return Err(string_of(&msg));
            },
        }
    } else {
        assert(!exists|j: int| first_space(l@, j));
        (cs, None)
    };
    let es = string_of(&eval);
    if !crate::text::contains_text(evals, es.as_str()) {
        let mut msg: Vec<char> = Vec::new();
        push_str(&mut msg, "eval ");
        push_str(&mut msg, debug_quoted(es.as_str()).as_str());
        push_str(&mut msg, " not found");
        return Err(string_of(&msg));
    }
    Ok((es, outcome))
}

/// Whether line `k` of tool `j` comes before line `k2` of tool `j2`.
pub open spec fn line_before(j: int, k: int, j2: int, k2: int) -> bool {
    j < j2 || (j == j2 && k < k2)
}

/// What is wrong with line `k` of the list of tool `j`, if anything.
pub open spec fn error_at(evals: Seq<Seq<char>>, tools: Seq<(Seq<char>, Seq<char>)>, j: int, k: int) -> Option<Seq<char>> {
    line_error(evals, tools[j].0, lines_of(tools[j].1)[k])
}

/// Whether there is a line `k` in the list of tool `j`.
pub open spec fn is_line(tools: Seq<(Seq<char>, Seq<char>)>, j: int, k: int) -> bool {
    0 <= j < tools.len() && 0 <= k < lines_of(tools[j].1).len()
}

/// The outcome expected of each tool on each eval, from the tools' names and the texts of
/// their `evals.txt` (empty where a tool has none); the message of the first bad line where
/// a line names an unknown eval or outcome.
pub fn evals_to_tools(evals: &Vec<String>, tools: &Vec<(String, String)>) -> (r: Result<Matrix, String>)
    ensures
        r is Err <==> exists|j: int, k: int| is_line(tool_views(tools@), j, k) && error_at(
            texts(evals@),
            tool_views(tools@),
            j,
            k,
        ) is Some,
        r is Err ==> exists|j: int, k: int|
            is_line(tool_views(tools@), j, k) && error_at(texts(evals@), tool_views(tools@), j, k)
                == Some(r->Err_0@) && forall|j2: int, k2: int|
                is_line(tool_views(tools@), j2, k2) && line_before(j2, k2, j, k) ==> error_at(
                    texts(evals@),
                    tool_views(tools@),
                    j2,
                    k2,
                ) is None,
        r is Ok ==> r->Ok_0@.len() == evals@.len(),
        r is Ok ==> forall|i: int|
            0 <= i < evals@.len() ==> (#[trigger] r->Ok_0@[i]).0@ == evals@[i]@ && r->Ok_0@[i].1@.len()
                == tools@.len() && forall|j: int|
                0 <= j < tools@.len() ==> (#[trigger] r->Ok_0@[i].1@[j]).0@ == tools@[j].0@
                    && r->Ok_0@[i].1@[j].1 == expected_outcome(lines_of(tools@[j].1@), evals@[i]@),
{
    let ghost es = texts(evals@);
    let ghost tv = tool_views(tools@);
    let mut parsed: Vec<Vec<(String, Option<BadOutcome>)>> = Vec::new();
    let mut j: usize = 0;
    while j < tools.len()
        invariant
            j <= tools.len(),
            es == texts(evals@),
            tv == tool_views(tools@),
            parsed@.len() == j,
            forall|j2: int, k2: int| is_line(tv, j2, k2) && j2 < j ==> error_at(es, tv, j2, k2) is None,
            forall|j2: int| 0 <= j2 < j ==> (#[trigger] parsed@[j2])@.len() == lines_of(tv[j2].1).len(),
            forall|j2: int, k2: int|
                0 <= j2 < j && 0 <= k2 < parsed@[j2]@.len() ==> agrees(lines_of(tv[j2].1)[k2], #[trigger] parsed@[j2]@[k2]),
        decreases tools.len() - j,
    {
        let ls = split_lines(tools[j].1.as_str());
        let mut row: Vec<(String, Option<BadOutcome>)> = Vec::new();
        let mut k: usize = 0;
        while k < ls.len()
            invariant
                k <= ls.len(),
                j < tools.len(),
                es == texts(evals@),
                tv == tool_views(tools@),
                texts(ls@) == lines_of(tv[j as int].1),
                row@.len() == k,
                forall|k2: int| 0 <= k2 < k ==> error_at(es, tv, j as int, k2) is None,
                forall|j2: int, k2: int| is_line(tv, j2, k2) && j2 < j ==> error_at(es, tv, j2, k2) is None,
                forall|k2: int|
                    0 <= k2 < k ==> agrees(lines_of(tv[j as int].1)[k2], #[trigger] row@[k2]),
            decreases ls.len() - k,
        {
            match read_line(evals, tools[j].0.as_str(), ls[k].as_str()) {
                Err(m) => {
                    proof {
                        assert(texts(ls@)[k as int] == ls@[k as int]@);
                        assert(is_line(tv, j as int, k as int));
                        assert forall|j2: int, k2: int|
                            is_line(tv, j2, k2) && line_before(j2, k2, j as int, k as int) implies error_at(
                                es,
                                tv,
                                j2,
                                k2,
                            ) is None by {}
                    }
                    return Err(m);
                },
                Ok(x) => {
                    assert(texts(ls@)[k as int] == ls@[k as int]@);
                    row.push(x);
                },
            }
            k += 1;
        }
        let ghost old_parsed = parsed@;
        parsed.push(row);
        assert forall|j2: int| 0 <= j2 < j + 1 implies (#[trigger] parsed@[j2])@.len() == lines_of(tv[j2].1).len() by {
            if j2 < j {
                assert(parsed@[j2] == old_parsed[j2]);
            }
        }
        assert forall|j2: int, k2: int|
            0 <= j2 < j + 1 && 0 <= k2 < parsed@[j2]@.len() implies agrees(lines_of(tv[j2].1)[k2], #[trigger] parsed@[j2]@[k2]) by {
            if j2 < j {
                assert(parsed@[j2] == old_parsed[j2]);
            }
        }
        j += 1;
    }
    let mut m: Matrix = Vec::new();
    let mut i: usize = 0;
    while i < evals.len()
        invariant
            i <= evals.len(),
            parsed@.len() == tools@.len(),
            tv == tool_views(tools@),
            forall|j2: int| 0 <= j2 < tools@.len() ==> (#[trigger] parsed@[j2])@.len() == lines_of(tv[j2].1).len(),
            forall|j2: int, k2: int|
                0 <= j2 < tools@.len() && 0 <= k2 < parsed@[j2]@.len() ==> agrees(lines_of(tv[j2].1)[k2], #[trigger] parsed@[j2]@[k2]),
            m@.len() == i,
            forall|i2: int|
                0 <= i2 < i ==> (#[trigger] m@[i2]).0@ == evals@[i2]@ && m@[i2].1@.len() == tools@.len()
                    && forall|j2: int|
                    0 <= j2 < tools@.len() ==> (#[trigger] m@[i2].1@[j2]).0@ == tools@[j2].0@
                        && m@[i2].1@[j2].1 == expected_outcome(lines_of(tools@[j2].1@), evals@[i2]@),
        decreases evals.len() - i,
    {
        let mut row: Vec<(String, Option<BadOutcome>)> = Vec::new();
        let mut j: usize = 0;
        while j < tools.len()
            invariant
                j <= tools.len(),
                i < evals.len(),
                parsed@.len() == tools@.len(),
                tv == tool_views(tools@),
                forall|j2: int| 0 <= j2 < tools@.len() ==> (#[trigger] parsed@[j2])@.len() == lines_of(tv[j2].1).len(),
                forall|j2: int, k2: int|
                    0 <= j2 < tools@.len() && 0 <= k2 < parsed@[j2]@.len() ==> agrees(lines_of(tv[j2].1)[k2], #[trigger] parsed@[j2]@[k2]),
                row@.len() == j,
                forall|j2: int|
                    0 <= j2 < j ==> (#[trigger] row@[j2]).0@ == tools@[j2].0@ && row@[j2].1
                        == expected_outcome(lines_of(tools@[j2].1@), evals@[i as int]@),
            decreases tools.len() - j,
        {
            let ghost ls = lines_of(tv[j as int].1);
            let entries = &parsed[j];
            let mut value: Option<BadOutcome> = Some(BadOutcome::Undefined);
            let mut k: usize = 0;
            assert(ls.subrange(0, 0) =~= Seq::<Seq<char>>::empty());
            while k < entries.len()
                invariant
                    k <= entries.len(),
                    j < tools.len(),
                    i < evals.len(),
                    entries@.len() == ls.len(),
                    ls == lines_of(tv[j as int].1),
                    forall|k2: int|
                        0 <= k2 < entries@.len() ==> agrees(ls[k2], #[trigger] entries@[k2]),
                    value == expected_outcome(ls.subrange(0, k as int), evals@[i as int]@),
                decreases entries.len() - k,
            {
                assert(ls.subrange(0, k + 1).drop_last() =~= ls.subrange(0, k as int));
                assert(ls.subrange(0, k + 1).last() == ls[k as int]);
                assert(agrees(ls[k as int], entries@[k as int]));
                if same_text(entries[k].0.as_str(), evals[i].as_str()) {
                    value = entries[k].1;
                }
                k += 1;
            }
            assert(ls.subrange(0, ls.len() as int) =~= ls);
            assert(tv[j as int].1 == tools@[j as int].1@);
            row.push((tools[j].0.clone(), value));
            j += 1;
        }
        m.push((evals[i].clone(), row));
        i += 1;
    }
    Ok(m)
}

} // verus!

verus! {

/// How a run's outcome compares with the expected one.
#[derive(Clone, Copy, Debug, PartialEq, Eq, Structural)]
pub enum Verdict {
    /// The outcome is the expected one.
    Expected,
    /// The outcome differs from the expected one.
    Unexpected,
    /// Nothing is expected of this eval and tool.
    Unknown,
}

/// The outcome expected of `tool` on `eval` by the matrix `m`, if it holds one: `None` inside
/// stands for success. The first entry for the eval, and in it for the tool, decides.
pub open spec fn lookup(m: Seq<(Seq<char>, Seq<(Seq<char>, Option<BadOutcome>)>)>, eval: Seq<char>, tool: Seq<char>) -> Option<Option<BadOutcome>>
    decreases m.len(),
{
    if m.len() == 0 {
        None
    } else if m[0].0 == eval {
        lookup_tool(m[0].1, tool)
    } else {
        lookup(m.drop_first(), eval, tool)
    }
}

pub open spec fn lookup_tool(row: Seq<(Seq<char>, Option<BadOutcome>)>, tool: Seq<char>) -> Option<Option<BadOutcome>>
    decreases row.len(),
{
    if row.len() == 0 {
        None
    } else if row[0].0 == tool {
        Some(row[0].1)
    } else {
        lookup_tool(row.drop_first(), tool)
    }
}

/// The matrix as plain values.
pub open spec fn matrix_view(m: Seq<(String, Vec<(String, Option<BadOutcome>)>)>) -> Seq<(Seq<char>, Seq<(Seq<char>, Option<BadOutcome>)>)> {
    m.map_values(|e: (String, Vec<(String, Option<BadOutcome>)>)| (e.0@, row_view(e.1@)))
}

pub open spec fn row_view(row: Seq<(String, Option<BadOutcome>)>) -> Seq<(Seq<char>, Option<BadOutcome>)> {
    row.map_values(|t: (String, Option<BadOutcome>)| (t.0@, t.1))
}

fn lookup_tool_exec(row: &Vec<(String, Option<BadOutcome>)>, tool: &str) -> (r: Option<Option<BadOutcome>>)
    ensures
        r == lookup_tool(row_view(row@), tool@),
{
    let ghost rv = row_view(row@);
    let mut i: usize = 0;
    assert(rv.subrange(0, rv.len() as int) =~= rv);
    while i < row.len()
        invariant
            i <= row.len(),
            rv == row_view(row@),
            lookup_tool(rv, tool@) == lookup_tool(rv.subrange(i as int, rv.len() as int), tool@),
        decreases row.len() - i,
    {
        let ghost rest = rv.subrange(i as int, rv.len() as int);
        assert(rest[0] == rv[i as int]);
        if same_text(row[i].0.as_str(), tool) {
            return Some(row[i].1);
        }
        assert(rest.drop_first() =~= rv.subrange(i + 1, rv.len() as int));
        i += 1;
    }
    None
}

/// The outcome that the matrix `m` expects of `tool` on `eval`, if it holds one.
pub fn expected_of(m: &Matrix, eval: &str, tool: &str) -> (r: Option<Option<BadOutcome>>)
    ensures
        r == lookup(matrix_view(m@), eval@, tool@),
{
    let ghost mv = matrix_view(m@);
    let mut i: usize = 0;
    assert(mv.subrange(0, mv.len() as int) =~= mv);
    while i < m.len()
        invariant
            i <= m.len(),
            mv == matrix_view(m@),
            lookup(mv, eval@, tool@) == lookup(mv.subrange(i as int, mv.len() as int), eval@, tool@),
        decreases m.len() - i,
    {
        let ghost rest = mv.subrange(i as int, mv.len() as int);
        assert(rest[0] == mv[i as int]);
        if same_text(m[i].0.as_str(), eval) {
            return lookup_tool_exec(&m[i].1, tool);
        }
        assert(rest.drop_first() =~= mv.subrange(i + 1, mv.len() as int));
        i += 1;
    }
    None
}

/// Compares a run's outcome with the expected one, if any: `None` inside stands for success.
pub fn check_outcome(expected: Option<Option<BadOutcome>>, actual: Result<(), BadOutcome>) -> (r: Verdict)
    ensures
        expected is None ==> r == Verdict::Unknown,
        expected matches Some(o) ==> r == (if (match o {
            Some(b) => actual == Err::<(), BadOutcome>(b),
            None => actual is Ok,
        }) {
            Verdict::Expected
        } else {
            Verdict::Unexpected
        }),
{
    match expected {
        None => Verdict::Unknown,
        Some(o) => {
            let same = match (o, actual) {
                (None, Ok(())) => true,
                (Some(b), Err(a)) => a == b,
                _ => false,
            };
            if same {
                Verdict::Expected
            } else {
                Verdict::Unexpected
            }
        },
    }
}

} // verus!
