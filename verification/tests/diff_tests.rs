use toster::{classify_direct_run, diff_rows, generate_diff, judge_output, split_trim_end,
    RunOutcome, TestResult, WaitEvent};

#[test]
fn clean_run_with_matching_output_is_correct() {
    let r = classify_direct_run(&WaitEvent::Exited { code: 0 }, 17, 5);
    let outcome = match r {
        RunOutcome::Done { result: _, outcome } => outcome,
        RunOutcome::Suspend => panic!("unexpected Suspend"),
    };
    assert_eq!(outcome, Ok(()));
    let verdict = judge_output(
        &String::from("t2"),
        &String::from("4\n6\n"),
        &String::from("4 \n6"),
        40,
    );
    assert_eq!(verdict, TestResult::Correct { test_name: String::from("t2") });
}

#[test]
fn single_differing_row() {
    let e = split_trim_end(&String::from("1\n2\n3\n"));
    let a = split_trim_end(&String::from("1\n9\n3\n"));
    let rows = diff_rows(&e, &a);
    assert_eq!(rows.len(), 1);
    assert_eq!(rows[0].line, "2");
    assert_eq!(rows[0].expected, "2");
    assert_eq!(rows[0].actual, "9");
}

#[test]
fn equal_lines_give_no_rows() {
    let e = split_trim_end(&String::from("1\n2\n"));
    let a = split_trim_end(&String::from("1 \n2\n\n"));
    let rows = diff_rows(&e, &a);
    assert_eq!(rows.len(), 0);
}

#[test]
fn shorter_side_is_padded_with_empty_lines() {
    let e = split_trim_end(&String::from("1\n2\n3\n"));
    let a = split_trim_end(&String::from("1\n"));
    let rows = diff_rows(&e, &a);
    assert_eq!(rows.len(), 2);
    assert_eq!(rows[0].line, "2");
    assert_eq!(rows[0].expected, "2");
    assert_eq!(rows[0].actual, "");
    assert_eq!(rows[1].line, "3");
    assert_eq!(rows[1].expected, "3");
    assert_eq!(rows[1].actual, "");
}

#[test]
fn truncates_after_ninety_nine_rows() {
    let mut e = String::new();
    let mut a = String::new();
    let mut i = 0;
    while i < 150 {
        e.push_str("x\n");
        a.push_str("y\n");
        i += 1;
    }
    let rows = diff_rows(&split_trim_end(&e), &split_trim_end(&a));
    assert_eq!(rows.len(), 100);
    assert_eq!(rows[98].line, "99");
    assert_eq!(rows[99].line, "...");
    assert_eq!(rows[99].expected, "...");
    assert_eq!(rows[99].actual, "...");
}

#[test]
fn rendering_twice_is_byte_identical() {
    let c = String::from("1\n2\n3\n");
    let t = String::from("1\n9\n3\n");
    let first = generate_diff(&c, &t, 40);
    let second = generate_diff(&c, &t, 40);
    assert_eq!(first, second);
}

#[test]
fn rendered_diff_holds_the_rows() {
    let c = String::from("1\n2\n3\n");
    let t = String::from("1\n9\n3\n");
    let table = generate_diff(&c, &t, 80);
    assert!(table.contains("Line"));
    assert!(table.contains("Output file"));
    assert!(table.contains("Your program's output"));
    assert!(table.contains("9"));
    assert!(!table.contains("\r"));
}

#[test]
fn judge_correct_on_normalized_equality() {
    let name = String::from("t1");
    let r = judge_output(&name, &String::from("1 \n2\n\n"), &String::from("1\n2"), 40);
    assert_eq!(r, TestResult::Correct { test_name: String::from("t1") });
}

#[test]
fn judge_incorrect_carries_the_diff() {
    let name = String::from("t1");
    let c = String::from("1\n2\n");
    let t = String::from("1\n9\n");
    let r = judge_output(&name, &c, &t, 40);
    match r {
        TestResult::Incorrect { test_name, error } => {
            assert_eq!(test_name, "t1");
            assert_eq!(error, generate_diff(&c, &t, 40));
        },
        other => panic!("expected Incorrect, got {:?}", other),
    }
}
