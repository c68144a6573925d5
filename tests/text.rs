use yaml_normalizer::model::{is_truthy, test_mode_from, TestMode};
use yaml_normalizer::text::{parse_grade, text_is};

#[test]
fn text_is_compares_exactly() {
    assert!(text_is("tests", "tests"));
    assert!(!text_is("test", "tests"));
    assert!(!text_is("Tests", "tests"));
    assert!(text_is("", ""));
    assert!(text_is("⠁⠃", "⠁⠃"));
}

#[test]
fn grades_are_small_decimals() {
    assert_eq!(parse_grade("0"), Some(0));
    assert_eq!(parse_grade("2"), Some(2));
    assert_eq!(parse_grade("007"), Some(7));
    assert_eq!(parse_grade("255"), Some(255));
    assert_eq!(parse_grade("256"), None);
    assert_eq!(parse_grade("99999999999"), None);
    assert_eq!(parse_grade(""), None);
    assert_eq!(parse_grade("+1"), None);
    assert_eq!(parse_grade("1a"), None);
}

#[test]
fn truthy_scalars() {
    assert!(!is_truthy("off"));
    assert!(!is_truthy("false"));
    assert!(is_truthy("on"));
    assert!(is_truthy("no"));
    assert!(is_truthy(""));
}

#[test]
fn test_mode_spellings() {
    assert_eq!(test_mode_from("hyphenateBraille"), Some(TestMode::HyphenateBraille));
    assert_eq!(test_mode_from("Forward"), None);
}
