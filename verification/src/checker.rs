//! The checker protocol: the blob handed to an external checker, the
//! one-character verdict convention of its output, and the
//! classification of the checker process itself.

use vstd::prelude::*;

use crate::numbers::{i64_to_chars, int_str};
use crate::runner::{terminated_message, terminated_message_exec};
use crate::text::{chars_of, concat_str, string_of, trim_chars, trim_spec};
use crate::verdict::{ExecutionError, TestResult, WaitEvent};

verus! {

/// What the worker must do after a checker run: suspend forever (the
/// harness is being torn down by an interrupt), or report a verdict.
#[derive(Debug, PartialEq, Eq)]
pub enum CheckerAction {
    Suspend,
    Verdict(TestResult),
}

/// The blob written to the checker's standard input: the test's input,
/// a newline, and the program's output.
pub open spec fn checker_blob(input: Seq<char>, output: Seq<char>) -> Seq<char> {
    input + "\n"@ + output
}

/// Builds [`checker_blob`].
pub fn checker_input(program_input: &String, program_output: &String) -> (r: String)
    ensures
        r@ == checker_blob(program_input@, program_output@),
{
    let mut m = program_input.clone();
    m.append("\n");
    m.append(program_output.as_str());
    m
}

/// The `Incorrect` verdict's explanation: the tail of the checker
/// output starting at index 2, trimmed at both ends; empty when the
/// output holds fewer than two characters.
pub open spec fn checker_explanation(out: Seq<char>) -> Seq<char> {
    if out.len() >= 2 {
        trim_spec(out.skip(2))
    } else {
        Seq::<char>::empty()
    }
}

/// The message attached when the checker exited with a non-zero code.
pub open spec fn checker_code_message(code: int) -> Seq<char> {
    "- the checker returned a non-zero return code: "@ + int_str(code)
}

/// The shape of the verdict that a checker output of `out` yields for a
/// checker that exited cleanly: `C` accepts, `I` rejects with the
/// remainder as explanation, and anything else — an empty output
/// included — is a protocol violation.
pub open spec fn checker_output_verdict(test_name: Seq<char>, out: Seq<char>, r: TestResult) -> bool {
    if out.len() == 0 {
        r matches TestResult::CheckerError { test_name: tn, error } && tn@ == test_name && (
        error matches ExecutionError::IncorrectCheckerFormat(m) && m@
            == "the checker retured an empty file"@)
    } else if out[0] != 'C' && out[0] != 'I' {
        r matches TestResult::CheckerError { test_name: tn, error } && tn@ == test_name && (
        error matches ExecutionError::IncorrectCheckerFormat(m) && m@
            == "the first character of the checker's output wasn't C or I"@)
    } else if out[0] == 'C' {
        r matches TestResult::Correct { test_name: tn } && tn@ == test_name
    } else {
        r matches TestResult::Incorrect { test_name: tn, error } && tn@ == test_name && error@
            == checker_explanation(out)
    }
}

/// Interprets the output of a checker that exited cleanly, as
/// [`checker_output_verdict`] describes.
pub fn interpret_checker_output(test_name: &String, checker_output: &String) -> (r: TestResult)
    ensures
        checker_output_verdict(test_name@, checker_output@, r),
{
    let out = checker_output.as_str();
    let n = out.unicode_len();
    if n == 0 {
        return TestResult::CheckerError {
            test_name: test_name.clone(),
            error: ExecutionError::IncorrectCheckerFormat(
                String::from_str("the checker retured an empty file"),
            ),
        };
    }
    let first = out.get_char(0);
    if first != 'C' && first != 'I' {
        return TestResult::CheckerError {
            test_name: test_name.clone(),
            error: ExecutionError::IncorrectCheckerFormat(
                String::from_str("the first character of the checker's output wasn't C or I"),
            ),
        };
    }
    if first == 'C' {
        return TestResult::Correct { test_name: test_name.clone() };
    }
    let v = chars_of(out);
    let mut tail: Vec<char> = Vec::new();
    if v.len() >= 2 {
        let mut i: usize = 2;
        while i < v.len()
            invariant
                2 <= i <= v@.len(),
                tail@ == v@.skip(2).take(i - 2),
            decreases v@.len() - i,
        {
            tail.push(v[i]);
            proof {
                assert(tail@ =~= v@.skip(2).take(i - 1));
            }
            i = i + 1;
        }
        proof {
            assert(tail@ =~= v@.skip(2));
        }
    }
    let trimmed = trim_chars(&tail);
    proof {
        if checker_output@.len() < 2 {
            assert(tail@ =~= Seq::<char>::empty());
            assert(crate::text::trim_start_spec(tail@) == tail@);
            assert(trim_spec(tail@) =~= Seq::<char>::empty());
        }
    }
    TestResult::Incorrect { test_name: test_name.clone(), error: string_of(&trimmed) }
}

/// Classifies a checker run. A wait timeout, death by a signal other
/// than the interrupt, and a non-zero exit are infrastructure failures
/// of the checker (`CheckerError`); the interrupt signal suspends the
/// worker; a clean exit is judged by the checker's output, as
/// [`checker_output_verdict`] describes.
pub fn checker_verdict(
    test_name: &String,
    event: &WaitEvent,
    checker_output: &String,
) -> (r: CheckerAction)
    ensures
        match *event {
            WaitEvent::TimedOut => r matches CheckerAction::Verdict(v) && (
            v matches TestResult::CheckerError { test_name: tn, error } && tn@ == test_name@
                && error is TimedOut),
            WaitEvent::Signaled { signal, description } => if signal == 2 {
                r is Suspend
            } else {
                r matches CheckerAction::Verdict(v) && (
                v matches TestResult::CheckerError { test_name: tn, error } && tn@ == test_name@
                    && (error matches ExecutionError::RuntimeError(m) && m@ == terminated_message(
                    description@,
                )))
            },
            WaitEvent::Exited { code } => if code != 0 {
                r matches CheckerAction::Verdict(v) && (
                v matches TestResult::CheckerError { test_name: tn, error } && tn@ == test_name@
                    && (error matches ExecutionError::RuntimeError(m) && m@ == checker_code_message(
                    code as int,
                )))
            } else {
                r matches CheckerAction::Verdict(v) && checker_output_verdict(
                    test_name@,
                    checker_output@,
                    v,
                )
            },
        },
{
    match event {
        WaitEvent::TimedOut => CheckerAction::Verdict(
            TestResult::CheckerError {
                test_name: test_name.clone(),
                error: ExecutionError::TimedOut,
            },
        ),
        WaitEvent::Signaled { signal, description } => {
            if *signal == 2 {
                CheckerAction::Suspend
            } else {
                CheckerAction::Verdict(
                    TestResult::CheckerError {
                        test_name: test_name.clone(),
                        error: ExecutionError::RuntimeError(terminated_message_exec(description)),
                    },
                )
            }
        },
        WaitEvent::Exited { code } => {
            if *code != 0 {
                let digits = i64_to_chars(*code as i64);
                let tail = string_of(&digits);
                let m = concat_str("- the checker returned a non-zero return code: ", tail.as_str());
                CheckerAction::Verdict(
                    TestResult::CheckerError {
                        test_name: test_name.clone(),
                        error: ExecutionError::RuntimeError(m),
                    },
                )
            } else {
                CheckerAction::Verdict(interpret_checker_output(test_name, checker_output))
            }
        },
    }
}

} // verus!
