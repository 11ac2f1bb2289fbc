use typed_kafka::builders::text::{comma_joined, decimal_string, signed_decimal_string};
use typed_kafka::builders::traits::OptionValue;

#[test]
fn decimal_of_small_numbers() {
    assert_eq!(decimal_string(0), "0");
    assert_eq!(decimal_string(7), "7");
    assert_eq!(decimal_string(9), "9");
    assert_eq!(decimal_string(10), "10");
    assert_eq!(decimal_string(120), "120");
    assert_eq!(decimal_string(1234567890), "1234567890");
}

#[test]
fn decimal_of_the_largest_number() {
    assert_eq!(
        decimal_string(u128::MAX),
        "340282366920938463463374607431768211455"
    );
}

#[test]
fn decimal_agrees_with_the_standard_formatting() {
    let mut n: u128 = 1;
    for _ in 0..38 {
        assert_eq!(decimal_string(n), n.to_string());
        assert_eq!(decimal_string(n - 1), (n - 1).to_string());
        n *= 10;
    }
}

#[test]
fn signed_decimal_of_both_signs() {
    assert_eq!(signed_decimal_string(0), "0");
    assert_eq!(signed_decimal_string(-1), "-1");
    assert_eq!(signed_decimal_string(65536), "65536");
    assert_eq!(signed_decimal_string(-65536), "-65536");
    assert_eq!(
        signed_decimal_string(i128::MAX),
        "170141183460469231731687303715884105727"
    );
    assert_eq!(
        signed_decimal_string(i128::MIN),
        "-170141183460469231731687303715884105728"
    );
}

#[test]
fn comma_joined_lists() {
    assert_eq!(comma_joined(&[]), "");
    assert_eq!(comma_joined(&["a"]), "a");
    assert_eq!(comma_joined(&["a", "b"]), "a,b");
    assert_eq!(comma_joined(&["a", "", "c"]), "a,,c");
    assert_eq!(comma_joined(&["", ""]), ",");
}

#[test]
fn option_values_have_one_text() {
    assert_eq!(true.to_text(), "true");
    assert_eq!(false.to_text(), "false");
    assert_eq!("plain".to_text(), "plain");
    assert_eq!(String::from("owned").to_text(), "owned");
    assert_eq!(usize::MAX.to_text(), usize::MAX.to_string());
    assert_eq!(isize::MIN.to_text(), isize::MIN.to_string());
    assert_eq!(isize::MAX.to_text(), isize::MAX.to_string());
    assert_eq!(42u128.to_text(), "42");
}
