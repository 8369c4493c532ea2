use vstd::prelude::*;

use crate::text::{chars_of, push_chars, push_str, string_of};

verus! {

/// Whether a line of `docker build --progress=plain` output shows real work: a `RUN` step's
/// output, which starts with `#N` and a number of seconds, or a download for a `FROM` step,
/// which starts with `#N sha256`.
pub uninterp spec fn is_step_output(line: Seq<char>) -> bool;

/// Relies on `regex::Regex::is_match` with the pattern `^#\d+ (\d|sha256)`; the pattern is valid,
/// so building it does not fail.
#[verifier::external_body]
fn shows_work(line: &str) -> (r: bool)
    ensures
        r == is_step_output(line@),
{
    regex::Regex::new(r"^#\d+ (\d|sha256)").unwrap().is_match(line)
}

/// Whether Docker output was suppressed because everything seemed cached.
#[derive(Clone, Copy, Debug, PartialEq, Eq, Structural)]
pub enum Caching {
    /// Everything seemed to be cached; output was suppressed.
    Cached,
    /// Not everything seemed to be cached; output was not suppressed.
    Uncached,
}

/// Follows the output of a `docker build` and holds it back for as long as every step seems
/// cached.
pub struct QuietBuild {
    cached: bool,
    held: Vec<char>,
}

impl QuietBuild {
    /// Whether every line so far seemed cached.
    pub closed spec fn is_cached(&self) -> bool {
        self.cached
    }

    /// The lines held back so far, each with its newline.
    pub closed spec fn held(&self) -> Seq<char> {
        self.held@
    }

    /// A build with no output yet.
    pub fn new() -> (r: QuietBuild)
        ensures
            r.is_cached(),
            r.held() == Seq::<char>::empty(),
    {
        QuietBuild { cached: true, held: Vec::new() }
    }

    /// Takes the next line of output, without its newline; returns what to print now. While
    /// everything seems cached, lines are held back, until one shows real work: then every line
    /// held so far is released, and each later line is printed at once.
    pub fn line(&mut self, line: &str) -> (r: Option<String>)
        ensures
            !old(self).is_cached() ==> (!final(self).is_cached() && final(self).held() == old(self).held()
                && r is Some && r->Some_0@ == line@ + "\n"@),
            old(self).is_cached() && is_step_output(line@) ==> (!final(self).is_cached()
                && final(self).held() == Seq::<char>::empty()
                && r is Some && r->Some_0@ == old(self).held() + line@ + "\n"@),
            old(self).is_cached() && !is_step_output(line@) ==> final(self).is_cached()
                && final(self).held() == old(self).held() + line@ + "\n"@ && r is None,
    {
        if !self.cached {
            let mut out = chars_of(line);
            push_str(&mut out, "\n");
            return Some(string_of(&out));
        }
        push_str(&mut self.held, line);
        push_str(&mut self.held, "\n");
        if shows_work(line) {
            self.cached = false;
            let out = string_of(&self.held);
            self.held = Vec::new();
            Some(out)
        } else {
            None
        }
    }

    /// Ends the build, which exited successfully or not: whether its output was suppressed, and
    /// the output still held back, which is printed after all where the build failed.
    pub fn finish(self, success: bool) -> (r: (Caching, Option<String>))
        ensures
            r.0 == (if self.is_cached() { Caching::Cached } else { Caching::Uncached }),
            success ==> r.1 is None,
            !success ==> (r.1 is Some && r.1->Some_0@ == self.held()),
    {
        let caching = if self.cached { Caching::Cached } else { Caching::Uncached };
        if success {
            (caching, None)
        } else {
            (caching, Some(string_of(&self.held)))
        }
    }
}

} // verus!
