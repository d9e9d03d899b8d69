use matmul_flat::dimension::{dimension_from_arg, parse_dimension, DEFAULT_DIMENSION};

#[test]
fn default_is_one_thousand() {
    assert_eq!(DEFAULT_DIMENSION, 1000);
}

#[test]
fn absent_argument_gives_the_default() {
    assert_eq!(dimension_from_arg(None), 1000);
}

#[test]
fn numeric_argument_is_taken() {
    assert_eq!(dimension_from_arg(Some("0")), 0);
    assert_eq!(dimension_from_arg(Some("1")), 1);
    assert_eq!(dimension_from_arg(Some("250")), 250);
    assert_eq!(dimension_from_arg(Some("1000")), 1000);
    assert_eq!(dimension_from_arg(Some("4096")), 4096);
}

#[test]
fn unparsable_argument_gives_the_default() {
    for text in ["", "abc", "12a", "a12", "-1", "-0", " 12", "12 ", "1_000", "1.5", "0x10", "+", "++1", "+-1", "1+", "١٢"] {
        assert_eq!(dimension_from_arg(Some(text)), 1000, "argument {:?}", text);
    }
}

#[test]
fn parse_accepts_plus_sign_and_leading_zeros() {
    assert_eq!(parse_dimension("+12"), Some(12));
    assert_eq!(parse_dimension("007"), Some(7));
    assert_eq!(parse_dimension("+000"), Some(0));
    assert_eq!(parse_dimension("0"), Some(0));
}

#[test]
fn parse_rejects_what_is_not_a_number() {
    assert_eq!(parse_dimension(""), None);
    assert_eq!(parse_dimension("+"), None);
    assert_eq!(parse_dimension("-5"), None);
    assert_eq!(parse_dimension("five"), None);
    assert_eq!(parse_dimension("5 "), None);
    assert_eq!(parse_dimension("5\n"), None);
}

#[test]
fn parse_is_exact_at_the_limit() {
    let max = format!("{}", usize::MAX);
    assert_eq!(parse_dimension(&max), Some(usize::MAX));
    assert_eq!(dimension_from_arg(Some(&max)), usize::MAX);
    let too_big = format!("{}0", usize::MAX);
    assert_eq!(parse_dimension(&too_big), None);
    let mut next = max.into_bytes();
    let last = next.len() - 1;
    next[last] += 1;
    let next = String::from_utf8(next).unwrap();
    assert_eq!(parse_dimension(&next), None);
    assert_eq!(dimension_from_arg(Some(&next)), 1000);
    assert_eq!(parse_dimension("99999999999999999999999999999999999999999"), None);
}

#[test]
fn parse_agrees_with_the_standard_library() {
    for text in ["", "0", "7", "+7", "-7", "007", "1e3", "12345678", " 1", "1 ", "+", "-", "18446744073709551615", "18446744073709551616", "4294967295", "4294967296"] {
        assert_eq!(parse_dimension(text), text.parse::<usize>().ok(), "text {:?}", text);
    }
}
