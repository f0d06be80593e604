use classroom_transcriber::text::{chars_of, decimal, join};

#[test]
fn decimal_numerals() {
    assert_eq!(decimal(0), "0");
    assert_eq!(decimal(7), "7");
    assert_eq!(decimal(10), "10");
    assert_eq!(decimal(1234567890), "1234567890");
    assert_eq!(decimal(usize::MAX), usize::MAX.to_string());
}

#[test]
fn joining_puts_the_separator_between() {
    assert_eq!(join(&vec![], "\n"), "");
    assert_eq!(join(&vec!["a".to_string()], "\n"), "a");
    assert_eq!(join(&vec!["a".to_string(), "".to_string(), "c".to_string()], ", "), "a, , c");
}

#[test]
fn characters_are_collected_in_order() {
    assert_eq!(chars_of("h\u{e9}!"), vec!['h', '\u{e9}', '!']);
    assert_eq!(chars_of(""), Vec::<char>::new());
}
