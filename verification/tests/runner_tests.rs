use toster::{classify_direct_run, classify_sio2jail_run, ExecutionError, ExecutionResult,
    RunOutcome, WaitEvent};

fn done(r: RunOutcome) -> (ExecutionResult, Result<(), ExecutionError>) {
    match r {
        RunOutcome::Done { result, outcome } => (result, outcome),
        RunOutcome::Suspend => panic!("expected a reported outcome, got Suspend"),
    }
}

#[test]
fn direct_timeout_reports_full_timeout() {
    let r = classify_direct_run(&WaitEvent::TimedOut, 123, 5);
    let (result, outcome) = done(r);
    assert_eq!(result.time_millis, 5000);
    assert_eq!(result.memory_kilobytes, None);
    assert_eq!(outcome, Err(ExecutionError::TimedOut));
}

#[test]
fn direct_clean_exit_succeeds() {
    let r = classify_direct_run(&WaitEvent::Exited { code: 0 }, 42, 5);
    let (result, outcome) = done(r);
    assert_eq!(result.time_millis, 42);
    assert_eq!(result.memory_kilobytes, None);
    assert_eq!(outcome, Ok(()));
}

#[test]
fn direct_nonzero_exit_is_a_runtime_error() {
    let r = classify_direct_run(&WaitEvent::Exited { code: 7 }, 42, 5);
    let (_, outcome) = done(r);
    assert_eq!(
        outcome,
        Err(ExecutionError::RuntimeError(String::from(
            "- the program returned a non-zero return code: 7"
        )))
    );
}

#[test]
fn direct_signal_is_a_runtime_error_with_description() {
    let ev = WaitEvent::Signaled { signal: 9, description: String::from("signal: 9 (SIGKILL)") };
    let (result, outcome) = done(classify_direct_run(&ev, 42, 5));
    assert_eq!(result.time_millis, 42);
    assert_eq!(
        outcome,
        Err(ExecutionError::RuntimeError(String::from(
            "- the process was terminated with the following error:\nsignal: 9 (SIGKILL)"
        )))
    );
}

#[test]
fn direct_interrupt_signal_suspends() {
    let ev = WaitEvent::Signaled { signal: 2, description: String::from("signal: 2 (SIGINT)") };
    assert_eq!(classify_direct_run(&ev, 42, 5), RunOutcome::Suspend);
}

#[test]
fn sio2jail_timeout_reports_full_timeout() {
    let r = classify_sio2jail_run(&WaitEvent::TimedOut, &String::new(), &String::new(), 3, 65536);
    let (result, outcome) = done(r);
    assert_eq!(result.time_millis, 3000);
    assert_eq!(result.memory_kilobytes, None);
    assert_eq!(outcome, Err(ExecutionError::TimedOut));
}

#[test]
fn sio2jail_oom_stderr_is_memory_limit_exceeded() {
    let oom = String::from(
        "terminate called after throwing an instance of 'std::bad_alloc'\n  what():  std::bad_alloc\n",
    );
    let r = classify_sio2jail_run(&WaitEvent::Exited { code: 0 }, &oom, &String::new(), 3, 65536);
    let (result, outcome) = done(r);
    assert_eq!(result.time_millis, 0);
    assert_eq!(result.memory_kilobytes, Some(65536));
    assert_eq!(outcome, Err(ExecutionError::MemoryLimitExceeded));
}

#[test]
fn sio2jail_other_stderr_is_a_sandbox_error() {
    let err = String::from("sio2jail: cannot attach\n");
    let r = classify_sio2jail_run(&WaitEvent::Exited { code: 0 }, &err, &String::new(), 3, 65536);
    let (result, outcome) = done(r);
    assert_eq!(result.memory_kilobytes, None);
    assert_eq!(outcome, Err(ExecutionError::Sio2jailError(err)));
}

#[test]
fn sio2jail_short_report_is_a_sandbox_error() {
    let rep = String::from("OK 0 12");
    let r = classify_sio2jail_run(&WaitEvent::Exited { code: 0 }, &String::new(), &rep, 3, 65536);
    let (_, outcome) = done(r);
    assert_eq!(
        outcome,
        Err(ExecutionError::Sio2jailError(String::from(
            "The sio2jail output is too short: OK 0 12"
        )))
    );
}

#[test]
fn sio2jail_ok_report_succeeds_with_parsed_usage() {
    let rep = String::from("OK 0 123 0 4567 0");
    let r = classify_sio2jail_run(&WaitEvent::Exited { code: 0 }, &String::new(), &rep, 3, 65536);
    let (result, outcome) = done(r);
    assert_eq!(result.time_millis, 123);
    assert_eq!(result.memory_kilobytes, Some(4567));
    assert_eq!(outcome, Ok(()));
}

#[test]
fn sio2jail_mle_status_is_memory_limit_exceeded() {
    let rep = String::from("MLE 0 123 0 65536 0");
    let r = classify_sio2jail_run(&WaitEvent::Exited { code: 0 }, &String::new(), &rep, 3, 65536);
    let (result, outcome) = done(r);
    assert_eq!(result.time_millis, 123);
    assert_eq!(result.memory_kilobytes, Some(65536));
    assert_eq!(outcome, Err(ExecutionError::MemoryLimitExceeded));
}

#[test]
fn sio2jail_tle_status_is_timed_out() {
    let rep = String::from("TLE 0 3000 0 100 0");
    let r = classify_sio2jail_run(&WaitEvent::Exited { code: 0 }, &String::new(), &rep, 3, 65536);
    let (_, outcome) = done(r);
    assert_eq!(outcome, Err(ExecutionError::TimedOut));
}

#[test]
fn sio2jail_re_status_carries_the_report_message() {
    let rep = String::from("RE 0 10 0 100 0\nIntercepted forbidden syscall");
    let r = classify_sio2jail_run(&WaitEvent::Exited { code: 0 }, &String::new(), &rep, 3, 65536);
    let (_, outcome) = done(r);
    assert_eq!(
        outcome,
        Err(ExecutionError::RuntimeError(String::from("- Intercepted forbidden syscall")))
    );
}

#[test]
fn sio2jail_re_status_without_message_is_empty() {
    let rep = String::from("RE 0 10 0 100 0");
    let r = classify_sio2jail_run(&WaitEvent::Exited { code: 0 }, &String::new(), &rep, 3, 65536);
    let (_, outcome) = done(r);
    assert_eq!(outcome, Err(ExecutionError::RuntimeError(String::new())));
}

#[test]
fn sio2jail_ole_status_is_output_limit() {
    let rep = String::from("OLE 0 10 0 100 0");
    let r = classify_sio2jail_run(&WaitEvent::Exited { code: 0 }, &String::new(), &rep, 3, 65536);
    let (_, outcome) = done(r);
    assert_eq!(
        outcome,
        Err(ExecutionError::RuntimeError(String::from("- output limit exceeded")))
    );
}

#[test]
fn sio2jail_unknown_status_is_a_sandbox_error() {
    let rep = String::from("WAT 0 10 0 100 0");
    let r = classify_sio2jail_run(&WaitEvent::Exited { code: 0 }, &String::new(), &rep, 3, 65536);
    let (_, outcome) = done(r);
    assert_eq!(
        outcome,
        Err(ExecutionError::Sio2jailError(String::from(
            "Sio2jail returned an invalid status in the output: WAT"
        )))
    );
}

#[test]
fn sio2jail_nonzero_exit_is_a_sandbox_error() {
    let rep = String::from("OK 0 10 0 100 0");
    let r = classify_sio2jail_run(&WaitEvent::Exited { code: 4 }, &String::new(), &rep, 3, 65536);
    let (_, outcome) = done(r);
    assert_eq!(
        outcome,
        Err(ExecutionError::Sio2jailError(String::from(
            "Sio2jail returned an invalid status code: 4"
        )))
    );
}

#[test]
fn sio2jail_interrupt_signal_suspends() {
    let rep = String::from("OK 0 10 0 100 0");
    let ev = WaitEvent::Signaled { signal: 2, description: String::from("signal: 2 (SIGINT)") };
    let r = classify_sio2jail_run(&ev, &String::new(), &rep, 3, 65536);
    assert_eq!(r, RunOutcome::Suspend);
}

#[test]
fn sio2jail_bad_time_field_is_a_sandbox_error() {
    let rep = String::from("OK 0 12x 0 100 0");
    let r = classify_sio2jail_run(&WaitEvent::Exited { code: 0 }, &String::new(), &rep, 3, 65536);
    let (_, outcome) = done(r);
    assert_eq!(
        outcome,
        Err(ExecutionError::Sio2jailError(String::from(
            "Sio2jail returned an invalid runtime in the output"
        )))
    );
}
