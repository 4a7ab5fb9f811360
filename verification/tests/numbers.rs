use coinmarket::num::{check_float_text, parse_u32_text};

#[test]
fn integer_texts_parse_as_documented() {
    assert_eq!(Some(0), parse_u32_text("0"));
    assert_eq!(Some(1), parse_u32_text("1"));
    assert_eq!(Some(677), parse_u32_text("677"));
    assert_eq!(Some(4294967295), parse_u32_text("4294967295"));
    assert_eq!(Some(7), parse_u32_text("0007"));
    assert_eq!(Some(0), parse_u32_text("-0"));
}

#[test]
fn integer_texts_are_rejected_as_documented() {
    assert_eq!(None, parse_u32_text(""));
    assert_eq!(None, parse_u32_text("-"));
    assert_eq!(None, parse_u32_text("abc"));
    assert_eq!(None, parse_u32_text("+5"));
    assert_eq!(None, parse_u32_text("1.5"));
    assert_eq!(None, parse_u32_text("1 "));
    assert_eq!(None, parse_u32_text(" 1"));
    assert_eq!(None, parse_u32_text("-1"));
    assert_eq!(None, parse_u32_text("4294967296"));
    assert_eq!(None, parse_u32_text("99999999999999999999999999"));
}

#[test]
fn float_texts_follow_the_grammar() {
    assert!(check_float_text("0"));
    assert!(check_float_text("8667.49"));
    assert!(check_float_text("-3.06"));
    assert!(check_float_text("+1.0"));
    assert!(check_float_text("146819479859"));
    assert!(check_float_text("1e30"));
    assert!(check_float_text("2.5e-3"));
    assert!(check_float_text("7.8E+9"));
}

#[test]
fn non_numeric_texts_fail_the_grammar() {
    assert!(!check_float_text(""));
    assert!(!check_float_text("abc"));
    assert!(!check_float_text("NaN"));
    assert!(!check_float_text("inf"));
    assert!(!check_float_text("Infinity"));
    assert!(!check_float_text(".5"));
    assert!(!check_float_text("5."));
    assert!(!check_float_text("1e"));
    assert!(!check_float_text("1e+"));
    assert!(!check_float_text("--1"));
    assert!(!check_float_text("1.0 "));
}

#[test]
fn accepted_float_texts_parse_downstream() {
    for text in ["8667.49", "-3.06", "+1.0", "1e30", "2.5e-3", "7.8E+9"] {
        assert!(check_float_text(text));
        assert!(text.parse::<f64>().is_ok());
    }
}
