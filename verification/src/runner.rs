//! Classification of program runs: the direct (unsandboxed) runner's
//! timeout/signal/exit-code rules, and the sandboxed runner's
//! interpretation of the sio2jail report.

use vstd::prelude::*;

use crate::numbers::{all_digits, dec_val, i64_to_chars, int_str, is_signed_numeral, parse_i64,
    parse_u64, signed_val};
use crate::text::{chars_of, concat_str, second_line, split_lines, split_ws, str_is, string_of,
    views_of, ws_tokens};
use crate::verdict::{ExecutionError, ExecutionResult, RunOutcome, WaitEvent};

verus! {

/// The message attached when a child was terminated by a signal.
pub open spec fn terminated_message(description: Seq<char>) -> Seq<char> {
    "- the process was terminated with the following error:\n"@ + description
}

/// The message attached when the program exited with a non-zero code.
pub open spec fn nonzero_code_message(code: int) -> Seq<char> {
    "- the program returned a non-zero return code: "@ + int_str(code)
}

/// Builds [`terminated_message`].
pub fn terminated_message_exec(description: &String) -> (r: String)
    ensures
        r@ == terminated_message(description@),
{
    let mut m = String::from_str("- the process was terminated with the following error:\n");
    m.append(description.as_str());
    m
}

/// Builds [`nonzero_code_message`].
pub fn nonzero_code_message_exec(code: i32) -> (r: String)
    ensures
        r@ == nonzero_code_message(code as int),
{
    let mut m = String::from_str("- the program returned a non-zero return code: ");
    let digits = i64_to_chars(code as i64);
    let tail = string_of(&digits);
    m.append(tail.as_str());
    m
}

/// Classifies a direct (unsandboxed) run. A wait timeout reports
/// `TimedOut` with the full timeout as the elapsed time; death by the
/// interrupt signal suspends the worker; death by any other signal and
/// any non-zero exit code are runtime errors; exit code 0 succeeds. The
/// elapsed time of every non-timeout outcome is the measured
/// `elapsed_millis`; memory is never measured here.
pub fn classify_direct_run(event: &WaitEvent, elapsed_millis: u64, timeout: u64) -> (r: RunOutcome)
    requires
        timeout <= u64::MAX / 1000,
    ensures
        match *event {
            WaitEvent::TimedOut => r == (RunOutcome::Done {
                result: ExecutionResult { time_millis: (timeout * 1000) as u64, memory_kilobytes: None },
                outcome: Err(ExecutionError::TimedOut),
            }),
            WaitEvent::Signaled { signal, description } => if signal == 2 {
                r is Suspend
            } else {
                r matches RunOutcome::Done { result, outcome }
                    && result == (ExecutionResult { time_millis: elapsed_millis, memory_kilobytes: None })
                    && (outcome matches Err(ExecutionError::RuntimeError(m))
                        && m@ == terminated_message(description@))
            },
            WaitEvent::Exited { code } => if code == 0 {
                r == (RunOutcome::Done {
                    result: ExecutionResult { time_millis: elapsed_millis, memory_kilobytes: None },
                    outcome: Ok(()),
                })
            } else {
                r matches RunOutcome::Done { result, outcome }
                    && result == (ExecutionResult { time_millis: elapsed_millis, memory_kilobytes: None })
                    && (outcome matches Err(ExecutionError::RuntimeError(m))
                        && m@ == nonzero_code_message(code as int))
            },
        },
{
    match event {
        WaitEvent::TimedOut => RunOutcome::Done {
            result: ExecutionResult { time_millis: timeout * 1000, memory_kilobytes: None },
            outcome: Err(ExecutionError::TimedOut),
        },
        WaitEvent::Signaled { signal, description } => {
            if *signal == 2 {
                RunOutcome::Suspend
            } else {
                RunOutcome::Done {
                    result: ExecutionResult { time_millis: elapsed_millis, memory_kilobytes: None },
                    outcome: Err(ExecutionError::RuntimeError(terminated_message_exec(description))),
                }
            }
        },
        WaitEvent::Exited { code } => {
            if *code == 0 {
                RunOutcome::Done {
                    result: ExecutionResult { time_millis: elapsed_millis, memory_kilobytes: None },
                    outcome: Ok(()),
                }
            } else {
                RunOutcome::Done {
                    result: ExecutionResult { time_millis: elapsed_millis, memory_kilobytes: None },
                    outcome: Err(ExecutionError::RuntimeError(nonzero_code_message_exec(*code))),
                }
            }
        },
    }
}

/// The stderr text with which a glibc program aborts when an allocation
/// fails under the memory limit.
pub open spec fn oom_text() -> Seq<char> {
    "terminate called after throwing an instance of 'std::bad_alloc'\n  what():  std::bad_alloc\n"@
}

/// The error message for a report with fewer than six fields.
pub open spec fn report_short_message(report: Seq<char>) -> Seq<char> {
    "The sio2jail output is too short: "@ + report
}

/// Whether field 2 of the report is a time in milliseconds that fits u64.
pub open spec fn report_time_ok(report: Seq<char>) -> bool {
    let t = ws_tokens(report)[2];
    t.len() > 0 && all_digits(t) && dec_val(t) <= u64::MAX
}

/// Whether field 4 of the report is a memory amount that fits i64.
pub open spec fn report_mem_ok(report: Seq<char>) -> bool {
    let m = ws_tokens(report)[4];
    is_signed_numeral(m) && i64::MIN <= signed_val(m) <= i64::MAX
}

/// Field 2 of the report: the run's time in milliseconds.
pub open spec fn report_time(report: Seq<char>) -> int {
    dec_val(ws_tokens(report)[2])
}

/// Field 4 of the report: the run's memory in kilobytes.
pub open spec fn report_mem(report: Seq<char>) -> int {
    signed_val(ws_tokens(report)[4])
}

/// Field 0 of the report: the status token.
pub open spec fn report_status(report: Seq<char>) -> Seq<char> {
    ws_tokens(report)[0]
}

/// The message attached to an `RE`/`RV` status: the report's second line
/// when it has one, empty otherwise.
pub open spec fn re_message(report: Seq<char>) -> Seq<char> {
    match second_line(report) {
        Option::None => Seq::<char>::empty(),
        Option::Some(l) => "- "@ + l,
    }
}

/// The message attached when sio2jail itself exited with a non-zero code.
pub open spec fn sio_code_message(code: int) -> Seq<char> {
    "Sio2jail returned an invalid status code: "@ + int_str(code)
}

/// The message attached to an unrecognized status token.
pub open spec fn sio_status_message(report: Seq<char>) -> Seq<char> {
    "Sio2jail returned an invalid status in the output: "@ + report_status(report)
}

/// Classifies a sandboxed (sio2jail) run. A wait timeout reports
/// `TimedOut` with the full timeout as elapsed time, before anything is
/// read. A non-empty sandbox stderr is an infrastructure failure of the
/// sandbox — except the recognized out-of-memory abort text, which is
/// reclassified as `MemoryLimitExceeded` with the configured limit as the
/// observed memory. Otherwise the report's six whitespace-separated
/// fields are parsed (status, time in milliseconds, memory in
/// kilobytes), and the wait status and the status token decide the
/// outcome, with the parsed time and memory always attached.
pub fn classify_sio2jail_run(
    event: &WaitEvent,
    stderr_text: &String,
    report_text: &String,
    timeout: u64,
    memory_limit_kb: u64,
) -> (r: RunOutcome)
    requires
        timeout <= u64::MAX / 1000,
        memory_limit_kb <= i64::MAX as u64,
    ensures
        *event is TimedOut ==> r == (RunOutcome::Done {
            result: ExecutionResult { time_millis: (timeout * 1000) as u64, memory_kilobytes: None },
            outcome: Err(ExecutionError::TimedOut),
        }),
        !(*event is TimedOut) ==> ({
            let stderr = stderr_text@;
            let rep = report_text@;
            if stderr.len() > 0 {
                if stderr == oom_text() {
                    r == (RunOutcome::Done {
                        result: ExecutionResult {
                            time_millis: 0,
                            memory_kilobytes: Some(memory_limit_kb as i64),
                        },
                        outcome: Err(ExecutionError::MemoryLimitExceeded),
                    })
                } else {
                    r matches RunOutcome::Done { result, outcome }
                        && result == (ExecutionResult { time_millis: 0, memory_kilobytes: None })
                        && (outcome matches Err(ExecutionError::Sio2jailError(m)) && m@ == stderr)
                }
            } else if ws_tokens(rep).len() < 6 {
                r matches RunOutcome::Done { result, outcome }
                    && result == (ExecutionResult { time_millis: 0, memory_kilobytes: None })
                    && (outcome matches Err(ExecutionError::Sio2jailError(m))
                        && m@ == report_short_message(rep))
            } else if !report_time_ok(rep) {
                r matches RunOutcome::Done { result, outcome }
                    && result == (ExecutionResult { time_millis: 0, memory_kilobytes: None })
                    && (outcome matches Err(ExecutionError::Sio2jailError(m))
                        && m@ == "Sio2jail returned an invalid runtime in the output"@)
            } else if !report_mem_ok(rep) {
                r matches RunOutcome::Done { result, outcome }
                    && result == (ExecutionResult { time_millis: 0, memory_kilobytes: None })
                    && (outcome matches Err(ExecutionError::Sio2jailError(m))
                        && m@ == "Sio2jail returned invalid memory usage in the output"@)
            } else {
                match *event {
                    WaitEvent::TimedOut => true,
                    WaitEvent::Signaled { signal, description } => if signal == 2 {
                        r is Suspend
                    } else {
                        r matches RunOutcome::Done { result, outcome }
                            && result.time_millis as int == report_time(rep)
                            && (result.memory_kilobytes matches Some(k) && k as int == report_mem(rep))
                            && (outcome matches Err(ExecutionError::RuntimeError(m))
                                && m@ == terminated_message(description@))
                    },
                    WaitEvent::Exited { code } => if code != 0 {
                        r matches RunOutcome::Done { result, outcome }
                            && result.time_millis as int == report_time(rep)
                            && (result.memory_kilobytes matches Some(k) && k as int == report_mem(rep))
                            && (outcome matches Err(ExecutionError::Sio2jailError(m))
                                && m@ == sio_code_message(code as int))
                    } else {
                        r matches RunOutcome::Done { result, outcome }
                            && result.time_millis as int == report_time(rep)
                            && (result.memory_kilobytes matches Some(k) && k as int == report_mem(rep))
                            && if report_status(rep) == "OK"@ {
                            outcome is Ok
                        } else if report_status(rep) == "RE"@ || report_status(rep) == "RV"@ {
                            outcome matches Err(ExecutionError::RuntimeError(m)) && m@ == re_message(
                                rep,
                            )
                        } else if report_status(rep) == "TLE"@ {
                            outcome matches Err(ExecutionError::TimedOut)
                        } else if report_status(rep) == "MLE"@ {
                            outcome matches Err(ExecutionError::MemoryLimitExceeded)
                        } else if report_status(rep) == "OLE"@ {
                            outcome matches Err(ExecutionError::RuntimeError(m)) && m@
                                == "- output limit exceeded"@
                        } else {
                            outcome matches Err(ExecutionError::Sio2jailError(m)) && m@
                                == sio_status_message(rep)
                        }
                    },
                }
            }
        }),
{
    match event {
        WaitEvent::TimedOut => {
            return RunOutcome::Done {
                result: ExecutionResult { time_millis: timeout * 1000, memory_kilobytes: None },
                outcome: Err(ExecutionError::TimedOut),
            };
        },
        _ => {},
    }
    if !stderr_text.as_str().is_empty() {
        if str_is(
            stderr_text,
            "terminate called after throwing an instance of 'std::bad_alloc'\n  what():  std::bad_alloc\n",
        ) {
            return RunOutcome::Done {
                result: ExecutionResult {
                    time_millis: 0,
                    memory_kilobytes: Some(memory_limit_kb as i64),
                },
                outcome: Err(ExecutionError::MemoryLimitExceeded),
            };
        }
        return RunOutcome::Done {
            result: ExecutionResult { time_millis: 0, memory_kilobytes: None },
            outcome: Err(ExecutionError::Sio2jailError(stderr_text.clone())),
        };
    }
    let rep = chars_of(report_text.as_str());
    let tokens = split_ws(&rep);
    if tokens.len() < 6 {
        let m = concat_str("The sio2jail output is too short: ", report_text.as_str());
        return RunOutcome::Done {
            result: ExecutionResult { time_millis: 0, memory_kilobytes: None },
            outcome: Err(ExecutionError::Sio2jailError(m)),
        };
    }
    proof {
        assert(views_of(tokens@)[0] == tokens@[0]@);
        assert(views_of(tokens@)[2] == tokens@[2]@);
        assert(views_of(tokens@)[4] == tokens@[4]@);
    }
    let time_millis: u64 = match parse_u64(&tokens[2]) {
        Some(t) => t,
        None => {
            return RunOutcome::Done {
                result: ExecutionResult { time_millis: 0, memory_kilobytes: None },
                outcome: Err(
                    ExecutionError::Sio2jailError(
                        String::from_str("Sio2jail returned an invalid runtime in the output"),
                    ),
                ),
            };
        },
    };
    let memory_kb: i64 = match parse_i64(&tokens[4]) {
        Some(m) => m,
        None => {
            return RunOutcome::Done {
                result: ExecutionResult { time_millis: 0, memory_kilobytes: None },
                outcome: Err(
                    ExecutionError::Sio2jailError(
                        String::from_str("Sio2jail returned invalid memory usage in the output"),
                    ),
                ),
            };
        },
    };
    let lines = split_lines(&rep);
    let message: Option<String> = if lines.len() >= 2 {
        proof {
            assert(views_of(lines@)[1] == lines@[1]@);
        }
        Some(string_of(&lines[1]))
    } else {
        None
    };
    let parsed = ExecutionResult { time_millis, memory_kilobytes: Some(memory_kb) };
    match event {
        WaitEvent::TimedOut => {
            proof {
                assert(false);
            }
            RunOutcome::Suspend
        },
        WaitEvent::Signaled { signal, description } => {
            if *signal == 2 {
                RunOutcome::Suspend
            } else {
                RunOutcome::Done {
                    result: parsed,
                    outcome: Err(ExecutionError::RuntimeError(terminated_message_exec(description))),
                }
            }
        },
        WaitEvent::Exited { code } => {
            if *code != 0 {
                let digits = i64_to_chars(*code as i64);
                let tail = string_of(&digits);
                let m = concat_str("Sio2jail returned an invalid status code: ", tail.as_str());
                return RunOutcome::Done {
                    result: parsed,
                    outcome: Err(ExecutionError::Sio2jailError(m)),
                };
            }
            let status = string_of(&tokens[0]);
            if str_is(&status, "OK") {
                RunOutcome::Done { result: parsed, outcome: Ok(()) }
            } else if str_is(&status, "RE") || str_is(&status, "RV") {
                let m = match &message {
                    Some(l) => concat_str("- ", l.as_str()),
                    None => String::new(),
                };
                RunOutcome::Done { result: parsed, outcome: Err(ExecutionError::RuntimeError(m)) }
            } else if str_is(&status, "TLE") {
                RunOutcome::Done { result: parsed, outcome: Err(ExecutionError::TimedOut) }
            } else if str_is(&status, "MLE") {
                RunOutcome::Done {
                    result: parsed,
                    outcome: Err(ExecutionError::MemoryLimitExceeded),
                }
            } else if str_is(&status, "OLE") {
                RunOutcome::Done {
                    result: parsed,
                    outcome: Err(
                        ExecutionError::RuntimeError(String::from_str("- output limit exceeded")),
                    ),
                }
            } else {
                let m = concat_str(
                    "Sio2jail returned an invalid status in the output: ",
                    status.as_str(),
                );
                RunOutcome::Done { result: parsed, outcome: Err(ExecutionError::Sio2jailError(m)) }
            }
        },
    }
}

} // verus!
