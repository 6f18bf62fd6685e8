use toster::{checker_input, checker_verdict, interpret_checker_output, CheckerAction,
    ExecutionError, TestResult, WaitEvent};

fn name() -> String {
    String::from("t1")
}

#[test]
fn c_output_is_correct() {
    let r = interpret_checker_output(&name(), &String::from("C"));
    assert_eq!(r, TestResult::Correct { test_name: name() });
}

#[test]
fn i_output_is_incorrect_with_message() {
    let r = interpret_checker_output(&name(), &String::from("I: bad"));
    assert_eq!(r, TestResult::Incorrect { test_name: name(), error: String::from("bad") });
}

#[test]
fn bare_i_output_has_an_empty_message() {
    let r = interpret_checker_output(&name(), &String::from("I"));
    assert_eq!(r, TestResult::Incorrect { test_name: name(), error: String::new() });
}

#[test]
fn empty_output_is_a_format_error() {
    let r = interpret_checker_output(&name(), &String::from(""));
    match r {
        TestResult::CheckerError { test_name, error } => {
            assert_eq!(test_name, "t1");
            assert!(matches!(error, ExecutionError::IncorrectCheckerFormat(_)));
        },
        other => panic!("expected CheckerError, got {:?}", other),
    }
}

#[test]
fn unknown_first_character_is_a_format_error() {
    let r = interpret_checker_output(&name(), &String::from("X"));
    match r {
        TestResult::CheckerError { test_name, error } => {
            assert_eq!(test_name, "t1");
            assert!(matches!(error, ExecutionError::IncorrectCheckerFormat(_)));
        },
        other => panic!("expected CheckerError, got {:?}", other),
    }
}

#[test]
fn checker_blob_is_input_newline_output() {
    let blob = checker_input(&String::from("3 4"), &String::from("7\n"));
    assert_eq!(blob, "3 4\n7\n");
}

#[test]
fn checker_timeout_is_a_checker_error() {
    let r = checker_verdict(&name(), &WaitEvent::TimedOut, &String::new());
    assert_eq!(
        r,
        CheckerAction::Verdict(TestResult::CheckerError {
            test_name: name(),
            error: ExecutionError::TimedOut,
        })
    );
}

#[test]
fn checker_nonzero_exit_is_a_checker_error() {
    let r = checker_verdict(&name(), &WaitEvent::Exited { code: 3 }, &String::from("C"));
    assert_eq!(
        r,
        CheckerAction::Verdict(TestResult::CheckerError {
            test_name: name(),
            error: ExecutionError::RuntimeError(String::from(
                "- the checker returned a non-zero return code: 3"
            )),
        })
    );
}

#[test]
fn checker_clean_exit_is_judged_by_output() {
    let r = checker_verdict(&name(), &WaitEvent::Exited { code: 0 }, &String::from("C"));
    assert_eq!(r, CheckerAction::Verdict(TestResult::Correct { test_name: name() }));
}

#[test]
fn checker_interrupt_signal_suspends() {
    let ev = WaitEvent::Signaled { signal: 2, description: String::from("signal: 2 (SIGINT)") };
    let r = checker_verdict(&name(), &ev, &String::from("C"));
    assert_eq!(r, CheckerAction::Suspend);
}
