use gradbench::matrix::RunEntry;
use gradbench::names::{eval_subpath, log_subpath, mangle};

#[test]
fn test_mangle_empty() {
    assert_eq!(mangle(""), "");
}

#[test]
fn test_mangle_word() {
    assert_eq!(mangle("foo"), "foo");
}

#[test]
fn test_mangle_args() {
    assert_eq!(mangle("foo --bar --baz=qux"), "foo-bar-baz-qux");
}

#[test]
fn test_mangle_cmd() {
    assert_eq!(mangle("$ echo 'an example'"), "echo-an-example");
}

#[test]
fn mangle_drops_leading_and_trailing_separators() {
    assert_eq!(mangle("--a__b--"), "a-b");
    assert_eq!(mangle("é!x"), "x");
    assert_eq!(mangle("!!!"), "");
}

#[test]
fn log_paths_use_mangled_names() {
    assert_eq!(eval_subpath("logs", "foo --bar"), "logs/foo-bar");
    assert_eq!(eval_subpath("logs/", "foo"), "logs/foo");
    assert_eq!(eval_subpath("", "foo"), "foo");
    assert_eq!(log_subpath("a directory", "$ echo hi", "tool x"), "a directory/echo-hi/tool-x.jsonl");
}

#[test]
fn run_entry_artifact_is_mangled() {
    let e = RunEntry::new("--eval hello --tool pytorch".to_string());
    assert_eq!(e.args, "--eval hello --tool pytorch");
    assert_eq!(e.artifact, "eval-hello-tool-pytorch");
}
