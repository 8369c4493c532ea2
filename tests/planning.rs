use gradbench::docker_build::{Caching, QuietBuild};
use gradbench::expectations::{check_outcome, evals_to_tools, expected_of, split_lines, Verdict};
use gradbench::matrix::{run_entries, tool_entries};
use gradbench::outcome::BadOutcome;

fn strings(strs: &[&str]) -> Vec<String> {
    strs.iter().map(|s| s.to_string()).collect()
}

#[test]
fn lines_are_split() {
    assert_eq!(split_lines("a\nb\r\n\nc"), strings(&["a", "b", "", "c"]));
    assert_eq!(split_lines("a\n"), strings(&["a"]));
    assert!(split_lines("").is_empty());
}

#[test]
fn matrix_of_expected_outcomes() {
    let evals = strings(&["hello", "gmm"]);
    let tools = vec![
        ("pytorch".to_string(), "hello\ngmm timeout\n".to_string()),
        ("jax".to_string(), "gmm\n".to_string()),
        ("none".to_string(), String::new()),
    ];
    let m = evals_to_tools(&evals, &tools).unwrap();
    assert_eq!(expected_of(&m, "hello", "pytorch"), Some(None));
    assert_eq!(expected_of(&m, "gmm", "pytorch"), Some(Some(BadOutcome::Timeout)));
    assert_eq!(expected_of(&m, "hello", "jax"), Some(Some(BadOutcome::Undefined)));
    assert_eq!(expected_of(&m, "gmm", "none"), Some(Some(BadOutcome::Undefined)));
    assert_eq!(expected_of(&m, "other", "jax"), None);
    assert_eq!(expected_of(&m, "gmm", "other"), None);
}

#[test]
fn matrix_errors() {
    let evals = strings(&["hello"]);
    let bad_outcome = vec![("t".to_string(), "hello slow\n".to_string())];
    assert_eq!(
        evals_to_tools(&evals, &bad_outcome).unwrap_err(),
        "\"tools/t/evals.txt\": invalid outcome \"slow\" for eval \"hello\""
    );
    let unknown = vec![("t".to_string(), "hello\nbye\nzzz bad".to_string())];
    assert_eq!(evals_to_tools(&evals, &unknown).unwrap_err(), "eval \"bye\" not found");
}

#[test]
fn outcomes_are_checked() {
    assert_eq!(check_outcome(Some(None), Ok(())), Verdict::Expected);
    assert_eq!(check_outcome(Some(Some(BadOutcome::Timeout)), Err(BadOutcome::Timeout)), Verdict::Expected);
    assert_eq!(check_outcome(Some(None), Err(BadOutcome::Failure)), Verdict::Unexpected);
    assert_eq!(check_outcome(Some(Some(BadOutcome::Undefined)), Ok(())), Verdict::Unexpected);
    assert_eq!(check_outcome(None, Ok(())), Verdict::Unknown);
}

#[test]
fn github_matrix() {
    let tools = strings(&["jax", "scilean"]);
    let entries = tool_entries(&tools);
    assert_eq!(entries.len(), 2);
    assert!(entries[0].cross);
    assert!(!entries[1].cross);
    let runs = run_entries(&strings(&["gmm", "hello"]), &tools).unwrap();
    let args: Vec<&str> = runs.iter().map(|r| r.args.as_str()).collect();
    assert_eq!(
        args,
        vec![
            "--eval hello --eval llsq --eval lstm --eval particle --eval saddle --tool jax",
            "--eval hello --eval llsq --eval lstm --eval particle --eval saddle --tool scilean",
            "--eval gmm --tool jax",
            "--eval gmm --tool scilean",
        ]
    );
    assert_eq!(runs[2].artifact, "eval-gmm-tool-jax");
    let many_evals: Vec<String> = (0..130).map(|i| format!("e{i}")).collect();
    assert_eq!(run_entries(&many_evals, &tools).err(), Some(262));
}

#[test]
fn quiet_build_holds_cached_output() {
    let mut b = QuietBuild::new();
    assert_eq!(b.line("#1 [internal] load build definition"), None);
    assert_eq!(b.line("#1 CACHED"), None);
    let (caching, rest) = b.finish(false);
    assert_eq!(caching, Caching::Cached);
    assert_eq!(rest, Some("#1 [internal] load build definition\n#1 CACHED\n".to_string()));

    let mut b = QuietBuild::new();
    assert_eq!(b.line("#2 CACHED"), None);
    assert_eq!(b.line("#5 0.123 hello"), Some("#2 CACHED\n#5 0.123 hello\n".to_string()));
    assert_eq!(b.line("#6 DONE"), Some("#6 DONE\n".to_string()));
    assert_eq!(b.finish(true), (Caching::Uncached, None));

    let mut b = QuietBuild::new();
    assert_eq!(b.line("#3 sha256:abc 1MB"), Some("#3 sha256:abc 1MB\n".to_string()));
}
