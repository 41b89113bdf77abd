use quickosdl::text::{chars_of, contains, digit, owned, push_decimal, push_text};

#[test]
fn contains_finds_a_run_of_characters_anywhere() {
    assert!(contains("aarch64", "aar"));
    assert!(contains("aarch64", "ch6"));
    assert!(contains("aarch64", "64"));
    assert!(contains("aarch64", "aarch64"));
    assert!(!contains("aarch64", "aarch65"));
    assert!(!contains("aarch64", "arm"));
    assert!(!contains("aarch64", "aarch64 "));
}

#[test]
fn contains_treats_the_empty_text_as_part_of_every_text() {
    assert!(contains("abc", ""));
    assert!(contains("", ""));
    assert!(!contains("", "a"));
}

#[test]
fn contains_is_sensitive_to_case_and_counts_characters() {
    assert!(!contains("Ubuntu", "ubuntu"));
    assert!(contains("na\u{ef}ve caf\u{e9}", "\u{ef}ve c"));
    assert!(contains("\u{65e5}\u{672c}\u{8a9e}", "\u{672c}"));
    assert!(!contains("\u{65e5}\u{672c}\u{8a9e}", "\u{8a9e}\u{672c}"));
}

#[test]
fn chars_of_yields_every_character_in_order() {
    assert_eq!(chars_of("a\u{e9}z"), vec!['a', '\u{e9}', 'z']);
    assert!(chars_of("").is_empty());
}

#[test]
fn numbers_are_written_in_decimal() {
    let mut out = owned("n=");
    push_decimal(&mut out, 0);
    push_text(&mut out, ",");
    push_decimal(&mut out, 9);
    push_text(&mut out, ",");
    push_decimal(&mut out, 10);
    push_text(&mut out, ",");
    push_decimal(&mut out, 1234567890);
    push_text(&mut out, ",");
    push_decimal(&mut out, u128::MAX);
    assert_eq!(
        out,
        "n=0,9,10,1234567890,340282366920938463463374607431768211455"
    );
    assert_eq!(digit(7), '7');
    assert_eq!(digit(0), '0');
    assert_eq!(digit(12), '0');
}
