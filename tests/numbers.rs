use fuzzer_compare::number::{parse_decimal, parse_i32, parse_nat, Decimal};
use fuzzer_compare::render::{decimal_to_text, int_to_text};

#[test]
fn number_parsing() {
    let s = b"x12345y";
    assert_eq!(parse_nat(s, 1, 6), Some(12345));
    assert_eq!(parse_nat(s, 0, 6), None);
    assert_eq!(parse_nat(s, 3, 3), None);
    assert_eq!(parse_i32(b"-17", 0, 3), Some(-17));
    assert_eq!(parse_i32(b"-", 0, 1), None);
    assert_eq!(parse_i32(b"+", 0, 1), None);
    assert_eq!(parse_decimal(b"3.140", 0, 5), Some(Decimal { mantissa: 3140, scale: 3 }));
    assert_eq!(parse_decimal(b"42", 0, 2), Some(Decimal { mantissa: 42, scale: 0 }));
    assert_eq!(parse_decimal(b".5", 0, 2), None);
    assert_eq!(parse_decimal(b"5.", 0, 2), None);
    assert_eq!(parse_decimal(b"1.2.3", 0, 5), None);
}

#[test]
fn number_rendering() {
    assert_eq!(int_to_text(0), "0");
    assert_eq!(int_to_text(-1), "-1");
    assert_eq!(int_to_text(1000), "1000");
    assert_eq!(decimal_to_text(Decimal { mantissa: 1234, scale: 2 }), "12.34");
    assert_eq!(decimal_to_text(Decimal { mantissa: 5, scale: 2 }), "0.05");
    assert_eq!(decimal_to_text(Decimal { mantissa: 9000, scale: 2 }), "90.00");
    assert_eq!(decimal_to_text(Decimal { mantissa: -1, scale: 0 }), "-1");
}
