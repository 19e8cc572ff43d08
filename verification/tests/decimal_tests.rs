use ukhasnet_influxdb::decimal::{push_decimal, push_signed_decimal};

fn unsigned(n: u128) -> String {
    let mut out = String::from(">");
    push_decimal(&mut out, n);
    out
}

fn signed(i: i128) -> String {
    let mut out = String::from(">");
    push_signed_decimal(&mut out, i);
    out
}

#[test]
fn natural_number_is_written_without_sign_or_leading_zero() {
    assert_eq!(unsigned(0), ">0");
    assert_eq!(unsigned(7), ">7");
    assert_eq!(unsigned(10), ">10");
    assert_eq!(unsigned(1234567890), ">1234567890");
    assert_eq!(unsigned(1000000), ">1000000");
    assert_eq!(unsigned(u128::MAX), format!(">{}", u128::MAX));
}

#[test]
fn negative_number_is_written_with_a_minus_sign() {
    assert_eq!(signed(0), ">0");
    assert_eq!(signed(-1), ">-1");
    assert_eq!(signed(42), ">42");
    assert_eq!(signed(-1000), ">-1000");
    assert_eq!(signed(i128::MAX), format!(">{}", i128::MAX));
    assert_eq!(signed(i128::MIN), format!(">{}", i128::MIN));
    assert_eq!(signed(i128::MIN + 1), format!(">{}", i128::MIN + 1));
}
