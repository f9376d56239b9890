use insurance_prover::pipeline::{binary_public_inputs_text, prover_inputs_text};
use insurance_prover::response::ProofRequest;
use insurance_prover::text::{parse_u32, push_decimal, push_signed_decimal};

#[test]
fn parses_plain_numbers() {
    assert_eq!(parse_u32("15"), Some(15));
    assert_eq!(parse_u32("0"), Some(0));
    assert_eq!(parse_u32("+7"), Some(7));
    assert_eq!(parse_u32("007"), Some(7));
    assert_eq!(parse_u32("4294967295"), Some(4294967295));
}

#[test]
fn rejects_malformed_numbers() {
    assert_eq!(parse_u32("abc"), None);
    assert_eq!(parse_u32(""), None);
    assert_eq!(parse_u32("+"), None);
    assert_eq!(parse_u32("-1"), None);
    assert_eq!(parse_u32("12a"), None);
    assert_eq!(parse_u32(" 12"), None);
    assert_eq!(parse_u32("4294967296"), None);
    assert_eq!(parse_u32("99999999999999999999"), None);
}

#[test]
fn renders_decimals() {
    let mut s = String::from("n=");
    push_decimal(&mut s, 0);
    assert_eq!(s, "n=0");
    let mut s = String::new();
    push_decimal(&mut s, 1234567890);
    assert_eq!(s, "1234567890");
    let mut s = String::new();
    push_decimal(&mut s, u64::MAX);
    assert_eq!(s, "18446744073709551615");
}

#[test]
fn renders_signed_decimals() {
    let mut s = String::new();
    push_signed_decimal(&mut s, -42);
    assert_eq!(s, "-42");
    let mut s = String::new();
    push_signed_decimal(&mut s, 1700000000);
    assert_eq!(s, "1700000000");
    let mut s = String::new();
    push_signed_decimal(&mut s, i64::MIN);
    assert_eq!(s, "-9223372036854775808");
}

#[test]
fn prover_inputs_hold_request_and_bounds() {
    let text = prover_inputs_text(ProofRequest { age: 15, bmi_multiplied: 200 });
    assert_eq!(
        text,
        "age = \"15\"\nbmi = \"200\"\nmin_age = \"10\"\nmax_age = \"25\"\nmin_bmi = \"185\"\nmax_bmi = \"249\""
    );
}

#[test]
fn binary_inputs_split_into_field_elements() {
    let one = vec![1u8; 32];
    assert_eq!(binary_public_inputs_text(&one), format!("[\"0x{}\"]", "01".repeat(32)));
    let mut two = vec![0u8; 32];
    two.extend(vec![0xabu8; 32]);
    assert_eq!(
        binary_public_inputs_text(&two),
        format!("[\"0x{}\",\"0x{}\"]", "00".repeat(32), "ab".repeat(32))
    );
}

#[test]
fn binary_inputs_of_odd_length_stay_whole() {
    assert_eq!(binary_public_inputs_text(&[0xab, 0x00, 0xff]), "0xab00ff");
    assert_eq!(binary_public_inputs_text(&[]), "0x");
}
