use vstd::prelude::*;

use crate::text::{push_str, string_of, texts};

verus! {

/// Whether an image is that of an eval or of a tool.
#[derive(Clone, Copy, Debug, PartialEq, Eq, Structural)]
pub enum RunItemKind {
    Eval,
    Tool,
}

/// The word for a kind: `eval` or `tool`.
pub open spec fn kind_word(k: RunItemKind) -> Seq<char> {
    match k {
        RunItemKind::Eval => "eval"@,
        RunItemKind::Tool => "tool"@,
    }
}

/// The word for a kind, in the form that a command line uses.
pub fn kind_name(k: RunItemKind) -> (r: &'static str)
    ensures
        r@ == kind_word(k),
{
    match k {
        RunItemKind::Eval => "eval",
        RunItemKind::Tool => "tool",
    }
}

/// Parameters for a `docker build` or `docker run` command.
#[derive(Debug)]
pub struct Docker {
    /// The name of an eval or tool.
    pub name: String,
    /// The tag suffix, or `latest` by default.
    pub tag: Option<String>,
    /// The platform, or native by default.
    pub platform: Option<String>,
}

/// The tag of a Docker image, `latest` by default.
pub open spec fn tag_or_latest(tag: Option<String>) -> Seq<char> {
    match tag {
        Some(t) => t@,
        None => "latest"@,
    }
}

/// The name of the image of an eval or tool, with its tag.
pub open spec fn image_name(k: RunItemKind, name: Seq<char>, tag: Seq<char>) -> Seq<char> {
    "ghcr.io/gradbench/"@ + kind_word(k) + "-"@ + name + ":"@ + tag
}

/// `--platform` and the platform, where one is given.
pub open spec fn platform_args(platform: Option<String>) -> Seq<Seq<char>> {
    match platform {
        Some(p) => seq!["--platform"@, p@],
        None => Seq::empty(),
    }
}

/// The command line that builds the image `name:tag` of an eval or tool, with the platform
/// arguments `platform`.
pub open spec fn build_image_command(
    k: RunItemKind,
    name: Seq<char>,
    tag: Seq<char>,
    platform: Seq<Seq<char>>,
) -> Seq<Seq<char>> {
    seq!["docker"@, "build"@] + platform + seq![
        "."@,
        "--file"@,
        kind_word(k) + "s/"@ + name + "/Dockerfile"@,
        "--tag"@,
        image_name(k, name, tag),
    ]
}

/// The command line that builds the image of an eval or tool.
pub open spec fn build_command(d: Docker, k: RunItemKind) -> Seq<Seq<char>> {
    build_image_command(k, d.name@, tag_or_latest(d.tag), platform_args(d.platform))
}

/// The command line that runs the image `name:tag` of an eval or tool with arguments `args`,
/// after the platform arguments `platform`.
pub open spec fn run_image_command(
    k: RunItemKind,
    name: Seq<char>,
    tag: Seq<char>,
    platform: Seq<Seq<char>>,
    args: Seq<Seq<char>>,
) -> Seq<Seq<char>> {
    seq!["docker"@, "run"@] + platform + seq!["--rm"@, "--interactive"@, image_name(k, name, tag)]
        + args
}

/// The command line that runs the image of an eval or tool with arguments `args`.
pub open spec fn run_command(d: Docker, k: RunItemKind, args: Seq<Seq<char>>) -> Seq<Seq<char>> {
    run_image_command(k, d.name@, tag_or_latest(d.tag), platform_args(d.platform), args)
}

/// A level of verbosity for building a Docker image.
#[derive(Clone, Copy, Debug, PartialEq, Eq, Structural)]
pub enum Verbosity {
    /// Normal output.
    Normal,
    /// No output except for errors.
    Quiet,
}

/// The message of a build whose eval or tool cannot be found.
pub open spec fn missing_message(k: RunItemKind, name: Seq<char>) -> Seq<char> {
    "can't find "@ + kind_word(k) + " to build: "@ + crate::text::debug_text(name)
}

/// What building an image runs: the build command, followed by `--progress=plain` when the
/// build is quiet, or when it builds a tool.
pub open spec fn build_plan(d: Docker, k: RunItemKind, v: Verbosity) -> Seq<Seq<char>> {
    if v == Verbosity::Quiet || k == RunItemKind::Tool {
        build_command(d, k).push("--progress=plain"@)
    } else {
        build_command(d, k)
    }
}

fn push_platform(out: &mut Vec<String>, platform: &Option<String>)
    ensures
        texts(final(out)@) == texts(old(out)@) + platform_args(*platform),
{
    let ghost start = out@;
    match platform {
        Some(p) => {
            out.push("--platform".to_owned());
            out.push(p.clone());
            assert(texts(out@) =~= texts(start) + platform_args(*platform));
        },
        None => {
            assert(texts(out@) =~= texts(start) + platform_args(*platform));
        },
    }
}

impl Docker {
    /// Docker parameters with the default tag and the native platform.
    pub fn new(name: &str) -> (r: Docker)
        ensures
            r.name@ == name@,
            r.tag is None,
            r.platform is None,
    {
        Docker { name: name.to_owned(), tag: None, platform: None }
    }

    /// The tag suffix, or `latest` by default.
    pub fn get_tag(&self) -> (r: &str)
        ensures
            r@ == tag_or_latest(self.tag),
    {
        match &self.tag {
            Some(t) => t.as_str(),
            None => "latest",
        }
    }

    fn image(&self, k: RunItemKind) -> (r: String)
        ensures
            r@ == image_name(k, self.name@, tag_or_latest(self.tag)),
    {
        let mut out: Vec<char> = Vec::new();
        push_str(&mut out, "ghcr.io/gradbench/");
        push_str(&mut out, kind_name(k));
        push_str(&mut out, "-");
        push_str(&mut out, self.name.as_str());
        push_str(&mut out, ":");
        push_str(&mut out, self.get_tag());
        string_of(&out)
    }

    fn build_cmd(&self, k: RunItemKind) -> (r: Vec<String>)
        ensures
            texts(r@) == build_command(*self, k),
    {
        let mut cmd: Vec<String> = Vec::new();
        cmd.push("docker".to_owned());
        cmd.push("build".to_owned());
        let ghost head = texts(cmd@);
        push_platform(&mut cmd, &self.platform);
        let ghost with_platform = texts(cmd@);
        cmd.push(".".to_owned());
        cmd.push("--file".to_owned());
        let mut file: Vec<char> = Vec::new();
        push_str(&mut file, kind_name(k));
        push_str(&mut file, "s/");
        push_str(&mut file, self.name.as_str());
        push_str(&mut file, "/Dockerfile");
        cmd.push(string_of(&file));
        cmd.push("--tag".to_owned());
        cmd.push(self.image(k));
        assert(head =~= seq!["docker"@, "build"@]);
        assert(texts(cmd@) =~= build_command(*self, k));
        cmd
    }

    fn run_cmd(&self, k: RunItemKind, args: &Vec<String>) -> (r: Vec<String>)
        ensures
            texts(r@) == run_command(*self, k, texts(args@)),
    {
        let mut cmd: Vec<String> = Vec::new();
        cmd.push("docker".to_owned());
        cmd.push("run".to_owned());
        let ghost head = texts(cmd@);
        push_platform(&mut cmd, &self.platform);
        cmd.push("--rm".to_owned());
        cmd.push("--interactive".to_owned());
        cmd.push(self.image(k));
        let ghost before = texts(cmd@);
        assert(head =~= seq!["docker"@, "run"@]);
        assert(before =~= run_command(*self, k, Seq::empty()));
        let mut i: usize = 0;
        while i < args.len()
            invariant
                i <= args.len(),
                texts(cmd@) == before + texts(args@).subrange(0, i as int),
            decreases args.len() - i,
        {
            let ghost prev = texts(cmd@);
            cmd.push(args[i].clone());
            assert(texts(cmd@) =~= prev.push(args@[i as int]@));
            assert(texts(args@).subrange(0, i + 1) =~= texts(args@).subrange(0, i as int).push(
                args@[i as int]@,
            ));
            i += 1;
        }
        assert(texts(args@).subrange(0, args.len() as int) =~= texts(args@));
        assert(texts(cmd@) =~= run_command(*self, k, texts(args@)));
        cmd
    }

    /// The command that builds the Docker image of an eval.
    pub fn build_eval_cmd(&self) -> (r: Vec<String>)
        ensures
            texts(r@) == build_command(*self, RunItemKind::Eval),
    {
        self.build_cmd(RunItemKind::Eval)
    }

    /// The command that builds the Docker image of a tool.
    pub fn build_tool_cmd(&self) -> (r: Vec<String>)
        ensures
            texts(r@) == build_command(*self, RunItemKind::Tool),
    {
        self.build_cmd(RunItemKind::Tool)
    }

    /// The command that runs an eval using Docker.
    pub fn eval_cmd(&self, args: &Vec<String>) -> (r: Vec<String>)
        ensures
            texts(r@) == run_command(*self, RunItemKind::Eval, texts(args@)),
    {
        self.run_cmd(RunItemKind::Eval, args)
    }

    /// The command that runs a tool using Docker.
    pub fn tool_cmd(&self, args: &Vec<String>) -> (r: Vec<String>)
        ensures
            texts(r@) == run_command(*self, RunItemKind::Tool, texts(args@)),
    {
        self.run_cmd(RunItemKind::Tool, args)
    }

    /// The command that `gradbench eval` runs; its exit status goes through `status_code`.
    pub fn run_eval(&self, args: &Vec<String>) -> (r: Vec<String>)
        ensures
            texts(r@) == run_command(*self, RunItemKind::Eval, texts(args@)),
    {
        self.eval_cmd(args)
    }

    /// The command that `gradbench tool` runs; its exit status goes through `status_code`.
    pub fn run_tool(&self, args: &Vec<String>) -> (r: Vec<String>)
        ensures
            texts(r@) == run_command(*self, RunItemKind::Tool, texts(args@)),
    {
        self.tool_cmd(args)
    }

    fn build(&self, k: RunItemKind, verbosity: Verbosity, found: bool) -> (r: Result<Vec<String>, String>)
        ensures
            (self.name@.len() == 0 || !found) ==> (r matches Err(m) && m@ == missing_message(k, self.name@)),
            (self.name@.len() > 0 && found) ==> (r matches Ok(c) && texts(c@) == build_plan(*self, k, verbosity)),
    {
        if self.name.as_str().is_empty() || !found {
            let mut m: Vec<char> = Vec::new();
            push_str(&mut m, "can't find ");
            push_str(&mut m, kind_name(k));
            push_str(&mut m, " to build: ");
            let q = crate::text::debug_quoted(self.name.as_str());
            push_str(&mut m, q.as_str());
            return Err(string_of(&m));
        }
        let mut cmd = self.build_cmd(k);
        let ghost base = texts(cmd@);
        match (verbosity, k) {
            (Verbosity::Normal, RunItemKind::Eval) => {},
            _ => {
                cmd.push("--progress=plain".to_owned());
                assert(texts(cmd@) =~= base.push("--progress=plain"@));
            },
        }
        Ok(cmd)
    }

    /// What building the image of an eval runs, where `found` tells whether its directory
    /// exists under `evals`; an error message where the name is empty or not found.
    pub fn build_eval(&self, verbosity: Verbosity, found: bool) -> (r: Result<Vec<String>, String>)
        ensures
            (self.name@.len() == 0 || !found) ==> (r matches Err(m) && m@ == missing_message(
                RunItemKind::Eval,
                self.name@,
            )),
            (self.name@.len() > 0 && found) ==> (r matches Ok(c) && texts(c@) == build_plan(
                *self,
                RunItemKind::Eval,
                verbosity,
            )),
    {
        self.build(RunItemKind::Eval, verbosity, found)
    }

    /// What building the image of a tool runs, where `found` tells whether its directory
    /// exists under `tools`; an error message where the name is empty or not found.
    pub fn build_tool(&self, verbosity: Verbosity, found: bool) -> (r: Result<Vec<String>, String>)
        ensures
            (self.name@.len() == 0 || !found) ==> (r matches Err(m) && m@ == missing_message(
                RunItemKind::Tool,
                self.name@,
            )),
            (self.name@.len() > 0 && found) ==> (r matches Ok(c) && texts(c@) == build_plan(
                *self,
                RunItemKind::Tool,
                verbosity,
            )),
    {
        self.build(RunItemKind::Tool, verbosity, found)
    }
}

} // verus!
