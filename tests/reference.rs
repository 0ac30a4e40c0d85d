use laskutin::models::MemberType;
use laskutin::reference::{
    calculate_check_digit, decimal_text, generate_reference_number, int_to_text,
    invoice_number_for_household, reference_for_household,
};

#[test]
fn check_digit_of_example_reference() {
    assert_eq!(calculate_check_digit("20240005"), 5);
    assert_eq!(generate_reference_number("20240005"), "202400055");
}

#[test]
fn check_digit_zero_when_sum_is_multiple_of_ten() {
    // 1*7 + 1*3 = 10
    assert_eq!(calculate_check_digit("11"), 0);
    assert_eq!(generate_reference_number("11"), "110");
    assert_eq!(calculate_check_digit(""), 0);
}

#[test]
fn check_digit_counts_non_digits_as_zero() {
    assert_eq!(calculate_check_digit("1a"), calculate_check_digit("10"));
    assert_eq!(calculate_check_digit("123"), 2);
}

#[test]
fn household_reference_pads_id() {
    assert_eq!(reference_for_household(2024, 5), "2024000055");
    assert_eq!(reference_for_household(2024, 1), "2024000013");
    assert_eq!(reference_for_household(2024, 123456), "20241234563");
}

#[test]
fn household_invoice_number_pads_id() {
    assert_eq!(invoice_number_for_household(2024, 5), "2024-005");
    assert_eq!(invoice_number_for_household(2024, 1234), "2024-1234");
}

#[test]
fn integers_as_text() {
    assert_eq!(decimal_text(0), "0");
    assert_eq!(decimal_text(u64::MAX), "18446744073709551615");
    assert_eq!(int_to_text(42, 5), "00042");
    assert_eq!(int_to_text(-3, 5), "-0003");
    assert_eq!(int_to_text(i64::MIN, 1), "-9223372036854775808");
}

#[test]
fn member_type_names_round_trip() {
    assert_eq!(MemberType::Varsinainen.to_string(), "varsinainen");
    assert_eq!(MemberType::Kannatus.to_string(), "kannatus");
    assert_eq!(MemberType::Kunnia.to_string(), "kunnia");
    assert_eq!(MemberType::from_str("Kannatus"), Ok(MemberType::Kannatus));
    assert_eq!(MemberType::from_str("kunnia"), Ok(MemberType::Kunnia));
    assert_eq!(MemberType::from_str("varsinainen"), Ok(MemberType::Varsinainen));
    assert_eq!(
        MemberType::from_str("KUNNIA"),
        Err("Invalid member type: KUNNIA".to_string())
    );
}
