use webp_converter::decimal::{decimal_string, unsigned_decimal_string};

#[test]
fn writes_zero_as_one_digit() {
    assert_eq!(decimal_string(0), "0");
    assert_eq!(unsigned_decimal_string(0), "0");
}

#[test]
fn writes_single_digits() {
    let expected = ["0", "1", "2", "3", "4", "5", "6", "7", "8", "9"];
    for (value, text) in expected.iter().enumerate() {
        assert_eq!(unsigned_decimal_string(value as u32), *text);
    }
}

#[test]
fn writes_eighty() {
    assert_eq!(decimal_string(80), "80");
}

#[test]
fn writes_round_numbers_with_their_zeros() {
    assert_eq!(decimal_string(10), "10");
    assert_eq!(decimal_string(100), "100");
    assert_eq!(decimal_string(1000000), "1000000");
    assert_eq!(decimal_string(1001), "1001");
}

#[test]
fn writes_negative_numbers_after_a_minus_sign() {
    assert_eq!(decimal_string(-1), "-1");
    assert_eq!(decimal_string(-80), "-80");
    assert_eq!(decimal_string(-100), "-100");
}

#[test]
fn writes_the_limits_of_the_range() {
    assert_eq!(decimal_string(i32::MAX), "2147483647");
    assert_eq!(decimal_string(i32::MIN), "-2147483648");
    assert_eq!(unsigned_decimal_string(u32::MAX), "4294967295");
}

#[test]
fn decimal_text_reads_back_as_the_number() {
    let samples = [0, 1, -1, 9, 10, 11, 75, 80, 99, 100, 101, -999, 65535, -65536, i32::MAX, i32::MIN];
    for value in samples {
        let text = decimal_string(value);
        assert_eq!(text.parse::<i32>(), Ok(value));
    }
}

#[test]
fn decimal_text_is_the_usual_one_around_zero() {
    for value in -1200..1200 {
        assert_eq!(decimal_string(value), format!("{}", value));
    }
}
