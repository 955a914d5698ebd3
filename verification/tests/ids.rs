use expansion_service::ids::{EntityId, ID_DIGITS};

#[test]
fn short_literal_round_trips() {
    let id = EntityId::from_hex_literal("0x2").unwrap();
    assert_eq!(id.to_hex_literal(), String::from("0x2"));
}

#[test]
fn upper_case_input_formats_lower_case() {
    let id = EntityId::from_hex_literal("0xAB").unwrap();
    assert_eq!(id.to_hex_literal(), String::from("0xab"));
}

#[test]
fn full_width_literal_round_trips() {
    let text = "0x1234567890abcdef1234567890abcdef12345678";
    let id = EntityId::from_hex_literal(text).unwrap();
    assert_eq!(id.to_hex_literal(), String::from(text));
}

#[test]
fn leading_zeros_are_stripped_on_output() {
    let id = EntityId::from_hex_literal("0x000a1").unwrap();
    assert_eq!(id.to_hex_literal(), String::from("0xa1"));
}

#[test]
fn zero_identifier_formats_as_single_digit() {
    let id = EntityId::from_hex_literal("0x000").unwrap();
    assert_eq!(id.to_hex_literal(), String::from("0x0"));
}

#[test]
fn malformed_literals_are_rejected() {
    assert!(EntityId::from_hex_literal("").is_none());
    assert!(EntityId::from_hex_literal("0x").is_none());
    assert!(EntityId::from_hex_literal("2a").is_none());
    assert!(EntityId::from_hex_literal("0xg1").is_none());
    assert!(EntityId::from_hex_literal("0x 1").is_none());
    // one digit over the fixed width
    assert!(EntityId::from_hex_literal("0x12345678901234567890123456789012345678901").is_none());
}

#[test]
fn digit_sequences_are_validated() {
    let ok: Vec<u8> = vec![0; ID_DIGITS];
    assert!(EntityId::new(ok).is_some());

    let wrong_width: Vec<u8> = vec![0; ID_DIGITS - 1];
    assert!(EntityId::new(wrong_width).is_none());

    let mut bad_digit: Vec<u8> = vec![0; ID_DIGITS];
    bad_digit[3] = 16;
    assert!(EntityId::new(bad_digit).is_none());
}

#[test]
fn duplicate_preserves_digits() {
    let id = EntityId::from_hex_literal("0xdeadbeef").unwrap();
    let copy = id.duplicate();
    assert_eq!(copy.to_hex_literal(), String::from("0xdeadbeef"));
    assert_eq!(id, copy);
}
