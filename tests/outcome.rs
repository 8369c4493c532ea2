use gradbench::outcome::{
    classify, exit_code_of_name, outcome_help, prevailing, run_exit_code, status_code, BadOutcome,
};

#[test]
fn test_outcome_help() {
    let mut outcome_help_text = String::from("One of ");
    for outcome in BadOutcome::all() {
        let s: &str = outcome.name();
        outcome_help_text.push('`');
        outcome_help_text.push_str(s);
        outcome_help_text.push('`');
        outcome_help_text.push_str(", ");
    }
    outcome_help_text.push_str("or `success`");
    assert_eq!(outcome_help(), outcome_help_text);
    assert_eq!(
        outcome_help(),
        "One of `interrupt`, `timeout`, `invalid`, `failure`, `undefined`, `error`, or `success`"
    );
}

#[test]
fn test_outcome_exit_codes() {
    let actual: Vec<(BadOutcome, u8)> = BadOutcome::all()
        .into_iter()
        .rev()
        .map(|outcome| (outcome, outcome.exit_code()))
        .collect();
    let expected: Vec<(BadOutcome, u8)> = (1..)
        .zip(BadOutcome::all().into_iter().rev())
        .map(|(i, outcome)| (outcome, i))
        .collect();
    assert_eq!(actual, expected);
}

#[test]
fn test_outcome_error_exit_code_failure() {
    assert_eq!(BadOutcome::Error.exit_code(), 1);
}

#[test]
fn outcome_names_round_trip() {
    for outcome in BadOutcome::all() {
        assert_eq!(BadOutcome::from_name(outcome.name()), Some(outcome));
    }
    assert_eq!(BadOutcome::from_name("success"), None);
    assert_eq!(BadOutcome::from_name("Timeout"), None);
    assert_eq!(BadOutcome::Undefined.name(), "undefined");
}

#[test]
fn exit_code_of_outcome_names() {
    assert_eq!(exit_code_of_name("success"), Some(0));
    assert_eq!(exit_code_of_name("interrupt"), Some(6));
    assert_eq!(exit_code_of_name("undefined"), Some(2));
    assert_eq!(exit_code_of_name("bogus"), None);
}

#[test]
fn classify_follows_precedence() {
    assert_eq!(classify(&vec![]), Ok(()));
    assert_eq!(
        classify(&vec![BadOutcome::Failure, BadOutcome::Timeout, BadOutcome::Invalid]),
        Err(BadOutcome::Timeout)
    );
    assert_eq!(
        classify(&vec![BadOutcome::Timeout, BadOutcome::Error]),
        Err(BadOutcome::Error)
    );
    assert_eq!(
        classify(&vec![BadOutcome::Error, BadOutcome::Interrupt, BadOutcome::Timeout]),
        Err(BadOutcome::Interrupt)
    );
    assert_eq!(
        classify(&vec![BadOutcome::Failure, BadOutcome::Undefined]),
        Err(BadOutcome::Undefined)
    );
    assert_eq!(prevailing(Ok(()), Err(BadOutcome::Failure)), Err(BadOutcome::Failure));
    assert_eq!(prevailing(Err(BadOutcome::Invalid), Err(BadOutcome::Undefined)), Err(BadOutcome::Invalid));
}

#[test]
fn exit_codes_of_runs_and_commands() {
    assert_eq!(run_exit_code(Ok(()), true, true), 0);
    assert_eq!(run_exit_code(Ok(()), true, false), 1);
    assert_eq!(run_exit_code(Err(BadOutcome::Timeout), true, true), 5);
    assert_eq!(status_code(true, Some(3)), Ok(()));
    assert_eq!(status_code(false, Some(42)), Err(42));
    assert_eq!(status_code(false, Some(300)), Err(1));
    assert_eq!(status_code(false, Some(-1)), Err(1));
    assert_eq!(status_code(false, None), Err(1));
}
