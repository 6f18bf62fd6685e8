use toster::split_trim_end;

#[test]
fn splits_lines_and_trims_ends() {
    let out = split_trim_end(&String::from("a  \nb\tx \nc"));
    assert_eq!(out, vec!["a".to_string(), "b\tx".to_string(), "c".to_string()]);
}

#[test]
fn drops_trailing_blank_lines() {
    let out = split_trim_end(&String::from("1\n2\n\n \n\t\n"));
    assert_eq!(out, vec!["1".to_string(), "2".to_string()]);
}

#[test]
fn empty_text_has_no_lines() {
    let out = split_trim_end(&String::from(""));
    assert_eq!(out, Vec::<String>::new());
}

#[test]
fn all_blank_text_has_no_lines() {
    let out = split_trim_end(&String::from(" \n\t\n  \n"));
    assert_eq!(out, Vec::<String>::new());
}

#[test]
fn final_line_without_newline_is_kept() {
    let out = split_trim_end(&String::from("x\ny"));
    assert_eq!(out, vec!["x".to_string(), "y".to_string()]);
}

#[test]
fn carriage_returns_are_trimmed_as_whitespace() {
    let out = split_trim_end(&String::from("a\r\nb\r\n"));
    assert_eq!(out, vec!["a".to_string(), "b".to_string()]);
}

#[test]
fn normalization_ignores_trailing_whitespace_differences() {
    let a = split_trim_end(&String::from("7 11  \n13\n\n"));
    let b = split_trim_end(&String::from("7 11\n13"));
    assert_eq!(a, b);
}
