use toster::{parse_i64, parse_u64, reference_output_path, terminal_width};

fn chars(s: &str) -> Vec<char> {
    s.chars().collect()
}

#[test]
fn parses_unsigned_numerals() {
    assert_eq!(parse_u64(&chars("0")), Some(0));
    assert_eq!(parse_u64(&chars("123")), Some(123));
    assert_eq!(parse_u64(&chars("18446744073709551615")), Some(u64::MAX));
}

#[test]
fn rejects_bad_unsigned_numerals() {
    assert_eq!(parse_u64(&chars("")), None);
    assert_eq!(parse_u64(&chars("12x")), None);
    assert_eq!(parse_u64(&chars("-1")), None);
    assert_eq!(parse_u64(&chars("18446744073709551616")), None);
}

#[test]
fn parses_signed_numerals() {
    assert_eq!(parse_i64(&chars("42")), Some(42));
    assert_eq!(parse_i64(&chars("-42")), Some(-42));
    assert_eq!(parse_i64(&chars("9223372036854775807")), Some(i64::MAX));
    assert_eq!(parse_i64(&chars("-9223372036854775808")), Some(i64::MIN));
}

#[test]
fn rejects_bad_signed_numerals() {
    assert_eq!(parse_i64(&chars("-")), None);
    assert_eq!(parse_i64(&chars("9223372036854775808")), None);
    assert_eq!(parse_i64(&chars("-9223372036854775809")), None);
}

#[test]
fn reference_path_is_dir_name_extension() {
    let p = reference_output_path(&String::from("out"), &String::from("t3"), &String::from(".out"));
    assert_eq!(p, "out/t3.out");
}

#[test]
fn terminal_width_is_callable() {
    // Under a test harness there is usually no terminal; either answer is fine.
    let _w: Option<u16> = terminal_width();
}
