use freestanding::decimal::u64_to_dec;

#[test]
fn single_digits() {
    assert_eq!(u64_to_dec(0), "0");
    assert_eq!(u64_to_dec(7), "7");
    assert_eq!(u64_to_dec(9), "9");
}

#[test]
fn several_digits() {
    assert_eq!(u64_to_dec(10), "10");
    assert_eq!(u64_to_dec(205), "205");
    assert_eq!(u64_to_dec(12345), "12345");
    assert_eq!(u64_to_dec(1000000), "1000000");
}

#[test]
fn largest_value() {
    assert_eq!(u64_to_dec(u64::MAX), "18446744073709551615");
}
