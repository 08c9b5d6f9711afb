use todo_service::text::{decimal_string, int_string};

#[test]
fn decimal_renders_single_digits() {
    assert_eq!(decimal_string(0), "0");
    assert_eq!(decimal_string(7), "7");
}

#[test]
fn decimal_renders_multi_digit_numbers() {
    assert_eq!(decimal_string(10), "10");
    assert_eq!(decimal_string(123), "123");
    assert_eq!(decimal_string(1000400), "1000400");
}

#[test]
fn int_string_renders_signs_and_extremes() {
    assert_eq!(int_string(0), "0");
    assert_eq!(int_string(42), "42");
    assert_eq!(int_string(-5), "-5");
    assert_eq!(int_string(i32::MAX), "2147483647");
    assert_eq!(int_string(i32::MIN), "-2147483648");
}
