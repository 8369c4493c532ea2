use vstd::prelude::*;

use crate::text::{chars_of, push_str, same_text, string_of};

verus! {

/// Whether `c` is an ASCII letter or digit.
pub open spec fn is_alnum(c: char) -> bool {
    ('a' <= c && c <= 'z') || ('A' <= c && c <= 'Z') || ('0' <= c && c <= '9')
}

/// The mangled form of `s`: its ASCII letters and digits in order, where each run of other
/// characters that stands between two kept characters becomes one hyphen.
pub open spec fn mangled(s: Seq<char>) -> Seq<char>
    decreases s.len(),
{
    if s.len() == 0 {
        s
    } else {
        let p = s.drop_last();
        let c = s.last();
        if !is_alnum(c) {
            mangled(p)
        } else if mangled(p).len() > 0 && !is_alnum(p.last()) {
            mangled(p).push('-').push(c)
        } else {
            mangled(p).push(c)
        }
    }
}

fn is_ascii_alnum(c: char) -> (r: bool)
    ensures
        r == is_alnum(c),
{
    ('a' <= c && c <= 'z') || ('A' <= c && c <= 'Z') || ('0' <= c && c <= '9')
}

/// Returns a string like the input but with a restricted alphabet: only ASCII letters, digits
/// and hyphens, neither starting nor ending with a hyphen.
pub fn mangle(string: &str) -> (r: String)
    ensures
        r@ == mangled(string@),
{
    let cs = chars_of(string);
    let mut out: Vec<char> = Vec::new();
    let mut pending = false;
    let mut i: usize = 0;
    while i < cs.len()
        invariant
            cs@ == string@,
            i <= cs.len(),
            out@ == mangled(cs@.subrange(0, i as int)),
            pending == (i > 0 && out@.len() > 0 && !is_alnum(cs@[i - 1])),
        decreases cs.len() - i,
    {
        let c = cs[i];
        let ghost pre = cs@.subrange(0, i as int);
        assert(cs@.subrange(0, i + 1).drop_last() =~= pre);
        if is_ascii_alnum(c) {
            if pending {
                out.push('-');
                pending = false;
            }
            out.push(c);
        } else if out.len() > 0 {
            pending = true;
        }
        i += 1;
    }
    assert(cs@.subrange(0, cs@.len() as int) =~= cs@);
    string_of(&out)
}

/// `dir` followed by `name`, with one slash between them unless `dir` is empty or already ends
/// with one.
pub open spec fn joined(dir: Seq<char>, name: Seq<char>) -> Seq<char> {
    if dir.len() == 0 {
        name
    } else if dir.last() == '/' {
        dir + name
    } else {
        dir + "/"@ + name
    }
}

fn join_exec(dir: &str, name: &Vec<char>) -> (r: Vec<char>)
    ensures
        r@ == joined(dir@, name@),
{
    let mut out = chars_of(dir);
    if out.len() > 0 && out[out.len() - 1] != '/' {
        push_str(&mut out, "/");
    }
    crate::text::push_chars(&mut out, name);
    out
}

/// The directory for an eval's logs under the log directory `dir`.
pub fn eval_subpath(dir: &str, eval: &str) -> (r: String)
    ensures
        r@ == joined(dir@, mangled(eval@)),
{
    let name = chars_of(mangle(eval).as_str());
    let out = join_exec(dir, &name);
    string_of(&out)
}

/// The log file of an eval and a tool under the log directory `dir`.
pub fn log_subpath(dir: &str, eval: &str, tool: &str) -> (r: String)
    ensures
        r@ == joined(joined(dir@, mangled(eval@)), mangled(tool@)) + ".jsonl"@,
{
    let sub = eval_subpath(dir, eval);
    let name = chars_of(mangle(tool).as_str());
    let mut out = join_exec(sub.as_str(), &name);
    push_str(&mut out, ".jsonl");
    string_of(&out)
}

} // verus!
