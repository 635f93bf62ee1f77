use design_patterns::text::{char_string, decimal_string, repeat_char, repeat_str};

#[test]
fn text_decimal_string_writes_numbers_as_std_does() {
    assert_eq!(decimal_string(0), "0");
    assert_eq!(decimal_string(7), "7");
    assert_eq!(decimal_string(10), "10");
    assert_eq!(decimal_string(1234567890), "1234567890");
    assert_eq!(decimal_string(u64::MAX), "18446744073709551615");
    let mut n: u64 = 1;
    while n < 1_000_000_000_000 {
        assert_eq!(decimal_string(n), n.to_string());
        assert_eq!(decimal_string(n - 1), (n - 1).to_string());
        n *= 7;
    }
}

#[test]
fn text_repeats() {
    assert_eq!(char_string('x'), "x");
    assert_eq!(char_string('昼'), "昼");
    assert_eq!(repeat_char('-', 0), "");
    assert_eq!(repeat_char('-', 4), "----");
    assert_eq!(repeat_str("ab", 3), "ababab");
    assert_eq!(repeat_str("", 5), "");
}
