use batch_crop::text::{decimal_string, same_ignoring_case};

#[test]
fn decimal_of_single_digits() {
    assert_eq!(decimal_string(0), "0");
    assert_eq!(decimal_string(7), "7");
    assert_eq!(decimal_string(9), "9");
}

#[test]
fn decimal_of_longer_numbers() {
    assert_eq!(decimal_string(10), "10");
    assert_eq!(decimal_string(100), "100");
    assert_eq!(decimal_string(1_234_567_890), "1234567890");
    assert_eq!(decimal_string(u64::MAX), "18446744073709551615");
}

#[test]
fn case_of_ascii_letters_is_ignored() {
    assert!(same_ignoring_case("PNG", "png"));
    assert!(same_ignoring_case("JpEg", "jPeG"));
    assert!(same_ignoring_case("", ""));
    assert!(same_ignoring_case("a1-b", "A1-B"));
}

#[test]
fn different_texts_are_told_apart() {
    assert!(!same_ignoring_case("png", "pn"));
    assert!(!same_ignoring_case("png", "pnh"));
    assert!(!same_ignoring_case("", "x"));
    assert!(!same_ignoring_case("[", "{"));
    assert!(!same_ignoring_case("@", "`"));
}

#[test]
fn case_of_other_letters_is_kept() {
    assert!(!same_ignoring_case("É", "é"));
    assert!(same_ignoring_case("éA", "éa"));
    assert!(!same_ignoring_case("\u{212A}", "k"));
}
