use vstd::prelude::*;

use crate::docker::{kind_name, kind_word, run_image_command, Docker, RunItemKind};
use crate::names::{mangle, mangled};
use crate::text::{
    contains_text, debug_quoted, debug_text, push_str, same_text, sort_strings, string_of, texts,
    texts_sorted,
};

verus! {

/// How a shell-style command line splits into words, `None` where its quoting is broken.
pub uninterp spec fn shell_words(s: Seq<char>) -> Option<Seq<Seq<char>>>;

/// Relies on `shlex::split`: the words of a POSIX-shell-style command line, or `None` where
/// its quoting or escaping is unfinished; an empty line has no words.
#[verifier::external_body]
fn split_words(s: &str) -> (r: Option<Vec<String>>)
    ensures
        r is None <==> shell_words(s@) is None,
        r is Some ==> shell_words(s@) == Some(texts(r->Some_0@)),
        s@.len() == 0 ==> (r is Some && r->Some_0@.len() == 0),
{
    shlex::split(s)
}

/// A raw eval or tool string, and the command that it stands for.
pub type RunItem = (String, Vec<String>);

/// The message for `--KIND` used together with `--no-KIND`.
pub open spec fn conflict_message(k: RunItemKind) -> Seq<char> {
    "`--no-"@ + kind_word(k) + "` cannot be used together with `--"@ + kind_word(k) + "`"@
}

/// The message for a string whose mangled name an earlier one has.
pub open spec fn duplicate_message(k: RunItemKind, s: Seq<char>) -> Seq<char> {
    "another `--"@ + kind_word(k) + "` got the same mangled name "@ + mangled(s) + ": "@
        + debug_text(s)
}

/// The message `lead`, the flag of kind `k`, `describe`, then the offending string `s`.
pub open spec fn item_message(k: RunItemKind, lead: Seq<char>, describe: Seq<char>, s: Seq<char>) -> Seq<char> {
    lead + "`--"@ + kind_word(k) + "`"@ + describe + ": "@ + debug_text(s)
}

/// What a raw string stands for: the name of an image to build, if any, and the command to run;
/// or the message of what is wrong with it. `$ cmd args` is a command as it is; `name args` runs
/// the image of `name` with `args`.
pub open spec fn item_plan(k: RunItemKind, s: Seq<char>) -> Result<(Option<Seq<char>>, Seq<Seq<char>>), Seq<char>> {
    match shell_words(s) {
        None => Err(item_message(k, "failed to split "@, ""@, s)),
        Some(ws) => if ws.len() == 0 {
            Err(item_message(k, "empty "@, " after splitting"@, s))
        } else if ws[0] == "$"@ {
            if ws.len() < 2 {
                Err(item_message(k, "empty "@, " after `$`"@, s))
            } else {
                Ok((None, ws.drop_first()))
            }
        } else {
            Ok((Some(ws[0]), run_image_command(k, ws[0], "latest"@, Seq::empty(), ws.drop_first())))
        },
    }
}

/// Whether an earlier string of `ss` than the `i`th has its mangled name.
pub open spec fn duplicate_before(ss: Seq<Seq<char>>, i: int) -> bool {
    exists|j: int| 0 <= j < i && mangled(#[trigger] ss[j]) == mangled(ss[i])
}

/// What is wrong with the `i`th string of `ss`, if anything.
pub open spec fn item_error(k: RunItemKind, ss: Seq<Seq<char>>, i: int) -> Option<Seq<char>> {
    if duplicate_before(ss, i) {
        Some(duplicate_message(k, ss[i]))
    } else {
        match item_plan(k, ss[i]) {
            Err(m) => Some(m),
            Ok(_) => None,
        }
    }
}

/// The build names of the plans of `ss`, in order.
pub open spec fn build_names(k: RunItemKind, ss: Seq<Seq<char>>) -> Seq<Seq<char>>
    decreases ss.len(),
{
    if ss.len() == 0 {
        Seq::empty()
    } else {
        let rest = build_names(k, ss.drop_last());
        match item_plan(k, ss.last()) {
            Ok((Some(b), _)) => rest.push(b),
            _ => rest,
        }
    }
}

/// The distinct texts of `s`, each at its first place.
pub open spec fn first_occurrences(s: Seq<Seq<char>>) -> Seq<Seq<char>>
    decreases s.len(),
{
    if s.len() == 0 {
        s
    } else {
        let rest = first_occurrences(s.drop_last());
        if rest.contains(s.last()) {
            rest
        } else {
            rest.push(s.last())
        }
    }
}

proof fn lemma_first_occurrences_contains(s: Seq<Seq<char>>)
    ensures
        forall|x: Seq<char>| first_occurrences(s).contains(x) <==> s.contains(x),
    decreases s.len(),
{
    if s.len() > 0 {
        lemma_first_occurrences_contains(s.drop_last());
        assert forall|x: Seq<char>| first_occurrences(s).contains(x) <==> s.contains(x) by {
            if s.contains(x) && x != s.last() {
                let i = choose|i: int| 0 <= i < s.len() && s[i] == x;
                assert(s.drop_last()[i] == x);
            }
            if s.drop_last().contains(x) {
                let i = choose|i: int| 0 <= i < s.drop_last().len() && s.drop_last()[i] == x;
                assert(s[i] == x);
            }
            if first_occurrences(s.drop_last()).contains(x) {
                assert(first_occurrences(s.drop_last()).push(s.last()).contains(x)) by {
                    let i = choose|i: int| 0 <= i < first_occurrences(s.drop_last()).len()
                        && first_occurrences(s.drop_last())[i] == x;
                    assert(first_occurrences(s.drop_last()).push(s.last())[i] == x);
                }
            }
            assert(s[s.len() - 1] == s.last());
            assert(first_occurrences(s.drop_last()).push(s.last())[first_occurrences(
                s.drop_last(),
            ).len() as int] == s.last());
        }
    }
}

/// Whether `strings` is what a list of evals or tools comes to before it is planned: `items`
/// where any are given, else `default` without `omit`, in ascending order.
pub open spec fn selected(
    items: Seq<Seq<char>>,
    omit: Seq<Seq<char>>,
    default: Seq<Seq<char>>,
    strings: Seq<Seq<char>>,
) -> bool {
    if items.len() > 0 {
        strings == items
    } else {
        &&& texts_sorted(strings)
        &&& strings.to_multiset() == default.filter(|d: Seq<char>| !omit.contains(d)).to_multiset()
    }
}

/// Whether `r` is the plan of every string of `ss`: the command of each, in order, and the
/// images to build, each once, in ascending order.
pub open spec fn planned(k: RunItemKind, ss: Seq<Seq<char>>, r: (Vec<String>, Vec<RunItem>)) -> bool {
    &&& r.1@.len() == ss.len()
    &&& forall|i: int|
        0 <= i < ss.len() ==> {
            &&& (#[trigger] r.1@[i]).0@ == ss[i]
            &&& item_plan(k, ss[i]) matches Ok((_, c)) && texts(r.1@[i].1@) == c
        }
    &&& texts_sorted(texts(r.0@))
    &&& texts(r.0@).to_multiset() == first_occurrences(build_names(k, ss)).to_multiset()
}

/// The list of evals or tools to use: `items` where any are given, else `default` without
/// `omit`, sorted; an error where both `items` and `omit` are given.
pub fn select_items(kind: RunItemKind, items: Vec<String>, omit: Vec<String>, default: Vec<String>) -> (r: Result<Vec<String>, String>)
    ensures
        (items@.len() > 0 && omit@.len() > 0) <==> r is Err,
        r matches Err(m) ==> m@ == conflict_message(kind),
        r matches Ok(v) ==> selected(texts(items@), texts(omit@), texts(default@), texts(v@)),
{
    if items.len() > 0 {
        if omit.len() > 0 {
            let mut m: Vec<char> = Vec::new();
            push_str(&mut m, "`--no-");
            push_str(&mut m, kind_name(kind));
            push_str(&mut m, "` cannot be used together with `--");
            push_str(&mut m, kind_name(kind));
            push_str(&mut m, "`");
            return Err(string_of(&m));
        }
        return Ok(items);
    }
    let ghost om = texts(omit@);
    let ghost dv = texts(default@);
    let ghost keep = |d: Seq<char>| !om.contains(d);
    let mut all: Vec<String> = Vec::new();
    let mut i: usize = 0;
    while i < default.len()
        invariant
            i <= default.len(),
            om == texts(omit@),
            dv == texts(default@),
            keep == (|d: Seq<char>| !om.contains(d)),
            texts(all@) == dv.subrange(0, i as int).filter(keep),
        decreases default.len() - i,
    {
        let ghost before = texts(all@);
        assert(dv.subrange(0, i + 1).drop_last() =~= dv.subrange(0, i as int));
        proof { reveal(Seq::filter); }
        if !contains_text(&omit, default[i].as_str()) {
            all.push(default[i].clone());
            assert(texts(all@) =~= before.push(dv[i as int]));
        } else {
            assert(texts(all@) =~= before);
        }
        i += 1;
    }
    assert(dv.subrange(0, default.len() as int) =~= dv);
    sort_strings(&mut all);
    Ok(all)
}

/// The strings of `words` after the first.
fn words_after_first(words: &Vec<String>) -> (r: Vec<String>)
    requires
        words@.len() > 0,
    ensures
        texts(r@) == texts(words@).drop_first(),
{
    let ghost ws = texts(words@);
    let mut rest: Vec<String> = Vec::new();
    let mut k: usize = 1;
    while k < words.len()
        invariant
            1 <= k <= words.len(),
            ws == texts(words@),
            texts(rest@) == ws.subrange(1, k as int),
        decreases words.len() - k,
    {
        rest.push(words[k].clone());
        assert(ws.subrange(1, k + 1) =~= ws.subrange(1, k as int).push(ws[k as int]));
        k += 1;
    }
    assert(ws.subrange(1, ws.len() as int) =~= ws.drop_first());
    rest
}

fn item_message_exec(kind: RunItemKind, lead: &str, describe: &str, q: &str) -> (r: String)
    ensures
        r@ == lead@ + "`--"@ + kind_word(kind) + "`"@ + describe@ + ": "@ + q@,
{
    let mut msg: Vec<char> = Vec::new();
    push_str(&mut msg, lead);
    push_str(&mut msg, "`--");
    push_str(&mut msg, kind_name(kind));
    push_str(&mut msg, "`");
    push_str(&mut msg, describe);
    push_str(&mut msg, ": ");
    push_str(&mut msg, q);
    string_of(&msg)
}

/// Plans each of `strings`: the images to build and the command of each, or the message of
/// the first string that is a duplicate by mangled name or cannot be planned.
pub fn plan_items(kind: RunItemKind, strings: Vec<String>) -> (r: Result<(Vec<String>, Vec<RunItem>), String>)
    ensures
        r is Err <==> exists|i: int| 0 <= i < strings@.len() && item_error(kind, texts(strings@), i) is Some,
        r matches Err(m) ==> exists|i: int|
            0 <= i < strings@.len() && item_error(kind, texts(strings@), i) == Some(m@) && forall|j: int|
                0 <= j < i ==> item_error(kind, texts(strings@), j) is None,
        r matches Ok(p) ==> planned(kind, texts(strings@), p),
{
    let ghost ss = texts(strings@);
    let mut seen: Vec<String> = Vec::new();
    let mut builds: Vec<String> = Vec::new();
    let mut runs: Vec<RunItem> = Vec::new();
    let mut i: usize = 0;
    while i < strings.len()
        invariant
            i <= strings.len(),
            ss == texts(strings@),
            texts(seen@) == ss.subrange(0, i as int).map_values(|s: Seq<char>| mangled(s)),
            forall|j: int| 0 <= j < i ==> item_error(kind, ss, j) is None,
            runs@.len() == i,
            forall|j: int|
                0 <= j < i ==> {
                    &&& (#[trigger] runs@[j]).0@ == ss[j]
                    &&& item_plan(kind, ss[j]) matches Ok((_, c)) && texts(runs@[j].1@) == c
                },
            texts(builds@) == first_occurrences(build_names(kind, ss.subrange(0, i as int))),
        decreases strings.len() - i,
    {
        let s = &strings[i];
        let ghost si = ss[i as int];
        let m = mangle(s.as_str());
        if contains_text(&seen, m.as_str()) {
            proof {
                let j = choose|j: int| 0 <= j < seen@.len() && texts(seen@)[j] == m@;
                assert(mangled(ss[j]) == mangled(ss[i as int]));
                assert(duplicate_before(ss, i as int));
            }
            let mut msg: Vec<char> = Vec::new();
            push_str(&mut msg, "another `--");
            push_str(&mut msg, kind_name(kind));
            push_str(&mut msg, "` got the same mangled name ");
            push_str(&mut msg, m.as_str());
            push_str(&mut msg, ": ");
            let q = debug_quoted(s.as_str());
            push_str(&mut msg, q.as_str());
            assert(msg@ =~= duplicate_message(kind, si));
            assert(item_error(kind, ss, i as int) == Some(msg@));
            return Err(string_of(&msg));
        }
        assert(!duplicate_before(ss, i as int)) by {
            if duplicate_before(ss, i as int) {
                let j = choose|j: int| 0 <= j < i && mangled(#[trigger] ss[j]) == mangled(ss[i as int]);
                assert(texts(seen@)[j] == mangled(ss[j]));
            }
        }
        let q = debug_quoted(s.as_str());
        let words = match split_words(s.as_str()) {
            None => {
                return Err(item_message_exec(kind, "failed to split ", "", q.as_str()));
            },
            Some(w) => w,
        };
        if words.len() == 0 {
            return Err(item_message_exec(kind, "empty ", " after splitting", q.as_str()));
        }
        let ghost ws = texts(words@);
        let first = &words[0];
        let rest = words_after_first(&words);
        let ghost pre = ss.subrange(0, i as int);
        let ghost now = ss.subrange(0, i + 1);
        proof {
            assert(now.drop_last() =~= pre);
            assert(now.last() == si);
            assert(shell_words(si) == Some(ws));
        }
        let ghost old_names = build_names(kind, pre);
        proof { reveal_strlit("$"); }
        let cmd = if same_text(first.as_str(), "$") {
            if words.len() < 2 {
                return Err(item_message_exec(kind, "empty ", " after `$`", q.as_str()));
            }
            assert(item_plan(kind, si) == Ok::<(Option<Seq<char>>, Seq<Seq<char>>), Seq<char>>(
                (None, ws.drop_first()),
            ));
            assert(build_names(kind, now) == old_names);
            rest
        } else {
            let d = Docker::new(first.as_str());
            let c = match kind {
                RunItemKind::Eval => d.eval_cmd(&rest),
                RunItemKind::Tool => d.tool_cmd(&rest),
            };
            assert(item_plan(kind, si) == Ok::<(Option<Seq<char>>, Seq<Seq<char>>), Seq<char>>(
                (Some(ws[0]), run_image_command(kind, ws[0], "latest"@, Seq::empty(), ws.drop_first())),
            ));
            assert(texts(c@) == run_image_command(kind, ws[0], "latest"@, Seq::empty(), ws.drop_first()));
            assert(build_names(kind, now) == old_names.push(ws[0]));
            assert(old_names.push(ws[0]).drop_last() =~= old_names);
            if !contains_text(&builds, first.as_str()) {
                builds.push(first.clone());
            }
            c
        };
        assert(texts(builds@) =~= first_occurrences(build_names(kind, now)));
        assert(item_plan(kind, si) matches Ok((_, c)) && texts(cmd@) == c);
        let ghost seen_before = texts(seen@);
        seen.push(m);
        assert(ss.subrange(0, i + 1).map_values(|s: Seq<char>| mangled(s)) =~= seen_before.push(
            mangled(si),
        ));
        let ghost old_runs = runs@;
        let owned = s.clone();
        assert(owned@ == si);
        runs.push((owned, cmd));
        assert(runs@[i as int].0@ == si);
        assert(runs@[i as int].1 == cmd);
        assert forall|j: int| 0 <= j <= i implies {
            &&& (#[trigger] runs@[j]).0@ == ss[j]
            &&& item_plan(kind, ss[j]) matches Ok((_, c)) && texts(runs@[j].1@) == c
        } by {
            if j < i {
                assert(runs@[j] == old_runs[j]);
            }
        }
        i += 1;
    }
    assert(ss.subrange(0, strings.len() as int) =~= ss);
    sort_strings(&mut builds);
    Ok((builds, runs))
}

/// Processes a list of evals or tools into the images to build, each once and sorted, and the
/// command of each to run. Where `items` is empty, the list is `default` without `omit`, sorted.
pub fn process_run_items(kind: RunItemKind, items: Vec<String>, omit: Vec<String>, default: Vec<String>) -> (r: Result<(Vec<String>, Vec<RunItem>), String>)
    ensures
        (items@.len() > 0 && omit@.len() > 0) ==> (r matches Err(m) && m@ == conflict_message(kind)),
        !(items@.len() > 0 && omit@.len() > 0) ==> exists|strings: Seq<Seq<char>>| {
            &&& selected(texts(items@), texts(omit@), texts(default@), strings)
            &&& (r is Err <==> exists|i: int| 0 <= i < strings.len() && item_error(kind, strings, i) is Some)
            &&& (r matches Err(m) ==> exists|i: int|
                0 <= i < strings.len() && item_error(kind, strings, i) == Some(m@) && forall|j: int|
                    0 <= j < i ==> item_error(kind, strings, j) is None)
            &&& (r matches Ok(p) ==> planned(kind, strings, p))
        },
{
    match select_items(kind, items, omit, default) {
        Err(m) => Err(m),
        Ok(strings) => plan_items(kind, strings),
    }
}

} // verus!

verus! {

/// The command line of a shell-style command: its program, then its arguments.
pub fn shell(command: &str) -> (r: Result<Vec<String>, String>)
    ensures
        shell_words(command@) is None ==> (r is Err && r->Err_0@ == "failed to split command"@),
        shell_words(command@) == Some(Seq::<Seq<char>>::empty()) ==> (r is Err && r->Err_0@ == "empty command"@),
        shell_words(command@) is Some && shell_words(command@)->Some_0.len() > 0 ==> (r is Ok
            && texts(r->Ok_0@) == shell_words(command@)->Some_0),
{
    match split_words(command) {
        None => Err("failed to split command".to_owned()),
        Some(words) => if words.len() == 0 {
            Err("empty command".to_owned())
        } else {
            Ok(words)
        },
    }
}

} // verus!
