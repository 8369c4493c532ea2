use gradbench::docker::{Docker, RunItemKind, Verbosity};
use gradbench::dry_run::{run_dry, RunConfig, RunItems};
use gradbench::run_items::{process_run_items, shell};

fn strings(strs: &[&str]) -> Vec<String> {
    strs.iter().map(|s| s.to_string()).collect()
}

fn str_err<T>(s: &str) -> Result<T, String> {
    Err(s.to_string())
}

fn simple_tool_cmd(name: &str, args: &[&str]) -> Vec<String> {
    Docker::new(name).tool_cmd(&strings(args))
}

type RunItemSimplified = (String, Vec<String>);

fn run_items<const N: usize>(items: [(&str, Vec<String>); N]) -> Vec<RunItemSimplified> {
    items
        .into_iter()
        .map(|(string, cmd)| (string.to_string(), cmd))
        .collect()
}

fn process_tools(
    items: &[&str],
    omit: &[&str],
    default: &[&str],
) -> Result<(Vec<String>, Vec<RunItemSimplified>), String> {
    process_run_items(RunItemKind::Tool, strings(items), strings(omit), strings(default))
}

const DEFAULT_EVALS: &[&str] = &["qux", "norf"];
const DEFAULT_TOOLS: &[&str] = &["foo", "bar", "baz"];

#[test]
fn test_run_items_omit() {
    let actual = process_tools(&[], &["baz", "foo", "baz"], DEFAULT_TOOLS);
    let expected = Ok((
        strings(&["bar"]),
        run_items([("bar", simple_tool_cmd("bar", &[]))]),
    ));
    assert_eq!(actual, expected);
}

#[test]
fn test_run_items_args() {
    let actual = process_tools(
        &["foo --bar --baz=qux", "foo --baz=norf"],
        &[],
        DEFAULT_TOOLS,
    );
    let expected = Ok((
        strings(&["foo"]),
        run_items([
            (
                "foo --bar --baz=qux",
                simple_tool_cmd("foo", &["--bar", "--baz=qux"]),
            ),
            ("foo --baz=norf", simple_tool_cmd("foo", &["--baz=norf"])),
        ]),
    ));
    assert_eq!(actual, expected);
}

#[test]
fn test_run_items_cmd() {
    let actual = process_tools(&["$ echo 'an example'"], &[], DEFAULT_TOOLS);
    let expected = Ok((
        strings(&[]),
        run_items([("$ echo 'an example'", strings(&["echo", "an example"]))]),
    ));
    assert_eq!(actual, expected);
}

#[test]
fn test_run_items_conflict() {
    let actual = process_tools(&["foo"], &["foo"], &[]);
    let expected = str_err("`--no-tool` cannot be used together with `--tool`");
    assert_eq!(actual, expected);
}

#[test]
fn test_run_items_mangled_duplicate() {
    let actual = process_tools(&["foo", "foo"], &[], &[]);
    let expected = str_err("another `--tool` got the same mangled name foo: \"foo\"");
    assert_eq!(actual, expected);
}

#[test]
fn test_run_items_split_empty() {
    let actual = process_tools(&[""], &[], &[]);
    let expected = str_err("empty `--tool` after splitting: \"\"");
    assert_eq!(actual, expected);
}

#[test]
fn test_run_items_split_cmd_empty() {
    let actual = process_tools(&["$"], &[], &[]);
    let expected = str_err("empty `--tool` after `$`: \"$\"");
    assert_eq!(actual, expected);
}

#[test]
fn run_items_split_failure() {
    let actual = process_tools(&["foo 'bar"], &[], &[]);
    assert_eq!(actual, str_err("failed to split `--tool`: \"foo 'bar\""));
}

#[test]
fn run_items_builds_each_image_once_sorted() {
    let actual = process_run_items(
        RunItemKind::Eval,
        strings(&["zed", "alpha x", "$ echo hi", "alpha"]),
        strings(&[]),
        strings(&[]),
    )
    .unwrap();
    assert_eq!(actual.0, strings(&["alpha", "zed"]));
    assert_eq!(
        actual.1[0].1,
        strings(&["docker", "run", "--rm", "--interactive", "ghcr.io/gradbench/eval-zed:latest"])
    );
    assert_eq!(actual.1[2].1, strings(&["echo", "hi"]));
}

#[test]
fn docker_commands() {
    let d = Docker {
        name: "hello".to_string(),
        tag: Some("2024-12-01".to_string()),
        platform: Some("linux/arm64".to_string()),
    };
    assert_eq!(d.get_tag(), "2024-12-01");
    assert_eq!(Docker::new("x").get_tag(), "latest");
    assert_eq!(
        d.build_eval_cmd(),
        strings(&[
            "docker",
            "build",
            "--platform",
            "linux/arm64",
            ".",
            "--file",
            "evals/hello/Dockerfile",
            "--tag",
            "ghcr.io/gradbench/eval-hello:2024-12-01",
        ])
    );
    assert_eq!(
        d.run_tool(&strings(&["--flag"])),
        strings(&[
            "docker",
            "run",
            "--platform",
            "linux/arm64",
            "--rm",
            "--interactive",
            "ghcr.io/gradbench/tool-hello:2024-12-01",
            "--flag",
        ])
    );
    assert_eq!(d.run_eval(&strings(&[])), d.eval_cmd(&strings(&[])));
    assert_eq!(Docker::new("t").build_tool_cmd().last().unwrap(), "ghcr.io/gradbench/tool-t:latest");
}

#[test]
fn docker_build_plans() {
    let d = Docker::new("hello");
    let plain = d.build_eval(Verbosity::Normal, true).unwrap();
    assert_eq!(plain, d.build_eval_cmd());
    let quiet = d.build_eval(Verbosity::Quiet, true).unwrap();
    assert_eq!(quiet.last().unwrap(), "--progress=plain");
    let tool = d.build_tool(Verbosity::Normal, true).unwrap();
    assert_eq!(tool.last().unwrap(), "--progress=plain");
    assert_eq!(
        d.build_eval(Verbosity::Quiet, false),
        Err("can't find eval to build: \"hello\"".to_string())
    );
    assert_eq!(
        Docker::new("").build_tool(Verbosity::Quiet, true),
        Err("can't find tool to build: \"\"".to_string())
    );
}

#[test]
fn shell_splits_commands() {
    assert_eq!(shell("gradbench eval 'a b'"), Ok(strings(&["gradbench", "eval", "a b"])));
    assert_eq!(shell("   "), Err("empty command".to_string()));
    assert_eq!(shell("\"open"), Err("failed to split command".to_string()));
}

fn simple_dry_run(evals: &[&str], tools: &[&str], cfg: RunConfig) -> String {
    let (evals_build, evals_run) = process_run_items(
        RunItemKind::Eval,
        strings(evals),
        strings(&[]),
        strings(DEFAULT_EVALS),
    )
    .unwrap();
    let (tools_build, tools_run) = process_run_items(
        RunItemKind::Tool,
        strings(tools),
        strings(&[]),
        strings(DEFAULT_TOOLS),
    )
    .unwrap();
    run_dry(
        "gradbench",
        &cfg,
        &RunItems {
            evals_build,
            tools_build,
            evals_run,
            tools_run,
        },
    )
    .unwrap()
}

const BUILDS: &str = "docker build . --file evals/norf/Dockerfile --tag ghcr.io/gradbench/eval-norf:latest
docker build . --file evals/qux/Dockerfile --tag ghcr.io/gradbench/eval-qux:latest
docker build . --file tools/bar/Dockerfile --tag ghcr.io/gradbench/tool-bar:latest
docker build . --file tools/baz/Dockerfile --tag ghcr.io/gradbench/tool-baz:latest
docker build . --file tools/foo/Dockerfile --tag ghcr.io/gradbench/tool-foo:latest
";

fn runs(extra: &str, output: Option<&str>) -> String {
    let mut out = String::new();
    for eval in ["norf", "qux"] {
        for tool in ["bar", "baz", "foo"] {
            out.push_str(&format!(
                "gradbench run{extra} --eval 'docker run --rm --interactive ghcr.io/gradbench/eval-{eval}:latest' --tool 'docker run --rm --interactive ghcr.io/gradbench/tool-{tool}:latest'"
            ));
            if let Some(dir) = output {
                out.push_str(&format!(" -o '{dir}/{eval}/{tool}.jsonl'"));
            }
            out.push('\n');
        }
    }
    out
}

#[test]
fn test_run_dry() {
    let actual = simple_dry_run(&[], &[], RunConfig::default());
    assert_eq!(actual, format!("{BUILDS}{}", runs("", None)));
}

#[test]
fn test_run_dry_output() {
    let cfg = RunConfig {
        output: Some("a directory".to_string()),
        ..Default::default()
    };
    let actual = simple_dry_run(&[], &[], cfg);
    assert_eq!(
        actual,
        format!(
            "{BUILDS}mkdir -p 'a directory/norf' 'a directory/qux'\n{}",
            runs("", Some("a directory"))
        )
    );
}

#[test]
fn test_run_dry_timeout() {
    let cfg = RunConfig {
        timeout: Some(42),
        ..Default::default()
    };
    let actual = simple_dry_run(&[], &[], cfg);
    assert_eq!(actual, format!("{BUILDS}{}", runs(" --timeout 42", None)));
}

#[test]
fn test_run_dry_download_github() {
    let cfg = RunConfig {
        download_github: Some(15035419296),
        ..Default::default()
    };
    let actual = simple_dry_run(&[], &[], cfg);
    let head = "gh run download 15035419296 --name eval-norf --name eval-qux --name tool-bar --name tool-baz --name tool-foo
docker load --input eval-norf/eval-norf.tar
docker load --input eval-qux/eval-qux.tar
docker load --input tool-bar/tool-bar.tar
docker load --input tool-baz/tool-baz.tar
docker load --input tool-foo/tool-foo.tar
";
    assert_eq!(actual, format!("{head}{}", runs("", None)));
}

#[test]
fn dry_run_refuses_nul() {
    let (evals_build, evals_run) = process_run_items(
        RunItemKind::Eval,
        strings(&["$ echo a\u{0}b"]),
        strings(&[]),
        strings(&[]),
    )
    .unwrap();
    let items = RunItems {
        evals_build,
        tools_build: vec![],
        evals_run,
        tools_run: vec![("$ true".to_string(), strings(&["true"]))],
    };
    assert_eq!(run_dry("gradbench", &RunConfig::default(), &items), None);
}
