//! Judging without a checker: the program's output is compared against
//! the reference output after normalization; a mismatch is rendered as
//! a diff table. Two texts that normalize to the same lines are always
//! judged correct, never incorrect.

use vstd::prelude::*;

use crate::diff::{generate_diff, rendered_diff};
use crate::normalize::{normalized_lines, split_trim_end};
use crate::text::{string_eq, string_views};
use crate::verdict::TestResult;

verus! {

/// Whether two line sequences are equal.
pub fn lines_equal(a: &Vec<String>, b: &Vec<String>) -> (r: bool)
    ensures
        r == (string_views(a@) == string_views(b@)),
{
    if a.len() != b.len() {
        proof {
            assert(string_views(a@).len() != string_views(b@).len());
        }
        return false;
    }
    let mut i: usize = 0;
    while i < a.len()
        invariant
            i <= a@.len(),
            a@.len() == b@.len(),
            forall|j: int| 0 <= j < i ==> #[trigger] string_views(a@)[j] == string_views(b@)[j],
        decreases a@.len() - i,
    {
        if !string_eq(&a[i], &b[i]) {
            proof {
                assert(string_views(a@)[i as int] != string_views(b@)[i as int]);
            }
            return false;
        }
        proof {
            assert(string_views(a@)[i as int] == string_views(b@)[i as int]);
        }
        i = i + 1;
    }
    proof {
        assert(string_views(a@) =~= string_views(b@));
    }
    true
}

/// Judges a program's output against the reference output: `Correct`
/// exactly when the two texts have equal normalized lines, `Incorrect`
/// with the rendered diff otherwise. Texts identical after
/// normalization are therefore never judged `Incorrect`.
pub fn judge_output(
    test_name: &String,
    correct_output: &String,
    test_output: &String,
    width: u16,
) -> (r: TestResult)
    ensures
        r is Correct <==> normalized_lines(correct_output@) == normalized_lines(test_output@),
        normalized_lines(correct_output@) == normalized_lines(test_output@) ==> (
        r matches TestResult::Correct { test_name: tn } && tn@ == test_name@),
        normalized_lines(correct_output@) != normalized_lines(test_output@) ==> (
        r matches TestResult::Incorrect { test_name: tn, error } && tn@ == test_name@ && error@
            == rendered_diff(correct_output@, test_output@, width)),
{
    let e = split_trim_end(correct_output);
    let a = split_trim_end(test_output);
    if lines_equal(&e, &a) {
        TestResult::Correct { test_name: test_name.clone() }
    } else {
        TestResult::Incorrect {
            test_name: test_name.clone(),
            error: generate_diff(correct_output, test_output, width),
        }
    }
}

/// The path of the reference output for a test: the output directory,
/// a slash, the test name, and the output extension.
pub fn reference_output_path(
    output_dir: &String,
    test_name: &String,
    out_extension: &String,
) -> (r: String)
    ensures
        r@ == output_dir@ + "/"@ + test_name@ + out_extension@,
{
    let mut m = output_dir.clone();
    m.append("/");
    m.append(test_name.as_str());
    m.append(out_extension.as_str());
    m
}

} // verus!
