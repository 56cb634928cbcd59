use protocol::decimal::{decimal_text, numeral};

#[test]
fn decimal_text_of_small_numbers() {
    assert_eq!(decimal_text(0), "0");
    assert_eq!(decimal_text(7), "7");
    assert_eq!(decimal_text(10), "10");
    assert_eq!(decimal_text(905), "905");
    assert_eq!(decimal_text(1234567890), "1234567890");
}

#[test]
fn decimal_text_of_the_largest_number() {
    assert_eq!(decimal_text(usize::MAX), usize::MAX.to_string());
}

#[test]
fn numeral_reads_what_decimal_text_writes() {
    for n in [0usize, 1, 9, 10, 11, 99, 100, 4096, 65535, usize::MAX - 1, usize::MAX] {
        assert_eq!(numeral(&decimal_text(n)), Some(n));
    }
}

#[test]
fn numeral_reads_digits() {
    assert_eq!(numeral("0"), Some(0));
    assert_eq!(numeral("42"), Some(42));
    assert_eq!(numeral("1000"), Some(1000));
}

#[test]
fn numeral_refuses_what_is_no_numeral() {
    assert_eq!(numeral(""), None);
    assert_eq!(numeral("05"), None);
    assert_eq!(numeral("00"), None);
    assert_eq!(numeral("-1"), None);
    assert_eq!(numeral("+1"), None);
    assert_eq!(numeral(" 1"), None);
    assert_eq!(numeral("1 "), None);
    assert_eq!(numeral("1a"), None);
    assert_eq!(numeral("a1"), None);
    assert_eq!(numeral("1.0"), None);
    assert_eq!(numeral("١"), None);
}

#[test]
fn numeral_refuses_what_does_not_fit() {
    let mut too_large = usize::MAX.to_string();
    too_large.push('0');
    assert_eq!(numeral(&too_large), None);
    assert_eq!(numeral("99999999999999999999999999"), None);
    if usize::MAX as u128 == u64::MAX as u128 {
        assert_eq!(numeral("18446744073709551615"), Some(usize::MAX));
        assert_eq!(numeral("18446744073709551616"), None);
    }
}
