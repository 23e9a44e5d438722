use ascii_art::text::{decimal_string, digit, push_decimal, push_tenths, push_word};

#[test]
fn digits_are_the_decimal_digits() {
    let all: String = (0..10).map(digit).collect();
    assert_eq!(all, "0123456789");
}

#[test]
fn numbers_are_written_without_leading_zeros() {
    assert_eq!(decimal_string(0), "0");
    assert_eq!(decimal_string(7), "7");
    assert_eq!(decimal_string(10), "10");
    assert_eq!(decimal_string(80), "80");
    assert_eq!(decimal_string(1009), "1009");
    assert_eq!(decimal_string(u32::MAX), "4294967295");
}

#[test]
fn numbers_are_appended_to_what_is_there() {
    let mut text = String::from("n = ");
    push_decimal(&mut text, 42);
    push_word(&mut text, ", m = ");
    push_decimal(&mut text, 0);
    assert_eq!(text, "n = 42, m = 0");
}

#[test]
fn tenths_are_written_after_a_point() {
    let cases: [(u32, &str); 8] = [
        (0, "0"),
        (1, "0.1"),
        (9, "0.9"),
        (10, "1"),
        (15, "1.5"),
        (100, "10"),
        (105, "10.5"),
        (u32::MAX, "429496729.5"),
    ];
    for (tenths, expected) in cases {
        let mut text = String::new();
        push_tenths(&mut text, tenths);
        assert_eq!(text, expected);
    }
}
