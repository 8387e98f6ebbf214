use spot_models::text::{decimal_string, digit, join_strings};

#[test]
fn decimal_string_renders_numbers() {
    assert_eq!(decimal_string(0), "0");
    assert_eq!(decimal_string(7), "7");
    assert_eq!(decimal_string(10), "10");
    assert_eq!(decimal_string(1234), "1234");
    assert_eq!(decimal_string(u64::MAX), u64::MAX.to_string());
}

#[test]
fn digit_gives_character() {
    assert_eq!(digit(0), '0');
    assert_eq!(digit(9), '9');
}

#[test]
fn join_strings_places_separator_between() {
    let parts = vec!["a".to_string(), "bc".to_string(), "".to_string(), "d".to_string()];
    assert_eq!(join_strings(&parts, "--"), "a--bc----d");
    assert_eq!(join_strings(&vec![], "--"), "");
    assert_eq!(join_strings(&vec!["x".to_string()], "--"), "x");
}
