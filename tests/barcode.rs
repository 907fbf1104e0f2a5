use etiquetas::barcode::{
    calculate_ean13_check_digit, check_product_update, generate_barcode, get_current_sequence,
    get_next_sequence, prepare_new_product, validate_product_code,
};
use etiquetas::error::PrinterError;

fn weighted_sum(s: &str) -> u32 {
    s.chars()
        .enumerate()
        .map(|(i, c)| c.to_digit(10).unwrap() * if i % 2 == 0 { 1 } else { 3 })
        .sum()
}

#[test]
fn check_digit_of_known_ean() {
    assert_eq!(calculate_ean13_check_digit("400638133393"), Ok('1'));
    assert_eq!(calculate_ean13_check_digit("789846581001"), Ok('1'));
    assert_eq!(calculate_ean13_check_digit("000000000000"), Ok('0'));
}

#[test]
fn check_digit_completes_weighted_sum() {
    for payload in ["400638133393", "123456789012", "999999999999", "789846581042", "000000000001"] {
        let d = calculate_ean13_check_digit(payload).unwrap();
        assert!(d.is_ascii_digit());
        let full = format!("{}{}", payload, d);
        assert_eq!(full.len(), 13);
        assert_eq!(weighted_sum(&full) % 10, 0);
    }
}

#[test]
fn check_digit_rejects_bad_payloads() {
    assert_eq!(calculate_ean13_check_digit("12345678901"), Err(PrinterError::InvalidInput));
    assert_eq!(calculate_ean13_check_digit("1234567890123"), Err(PrinterError::InvalidInput));
    assert_eq!(calculate_ean13_check_digit("12345678901a"), Err(PrinterError::InvalidInput));
    assert_eq!(calculate_ean13_check_digit(""), Err(PrinterError::InvalidInput));
    assert_eq!(calculate_ean13_check_digit("12345 678901"), Err(PrinterError::InvalidInput));
    assert_eq!(calculate_ean13_check_digit("1234567890é1"), Err(PrinterError::InvalidInput));
}

#[test]
fn next_sequence_starts_at_one() {
    assert_eq!(get_next_sequence(None), Ok(1));
}

#[test]
fn next_sequence_follows_last_barcode() {
    assert_eq!(get_next_sequence(Some("7898465810420")), Ok(43));
    assert_eq!(get_next_sequence(Some("7898465819987")), Ok(999));
}

#[test]
fn next_sequence_exhausted_after_999() {
    assert_eq!(get_next_sequence(Some("7898465819992")), Err(PrinterError::SequenceExhausted));
}

#[test]
fn next_sequence_of_short_or_odd_barcode() {
    assert_eq!(get_next_sequence(Some("12345")), Ok(1));
    assert_eq!(get_next_sequence(Some("789846581x4a0")), Ok(1));
}

#[test]
fn current_sequence_of_last_barcode() {
    assert_eq!(get_current_sequence(None), 0);
    assert_eq!(get_current_sequence(Some("7898465810420")), 42);
    assert_eq!(get_current_sequence(Some("78984658")), 0);
}

#[test]
fn first_barcode_of_prefix() {
    assert_eq!(generate_barcode(None, "789846581"), Ok("7898465810011".to_string()));
}

#[test]
fn barcode_after_sequence_42() {
    let b = generate_barcode(Some("7898465810420"), "789846581").unwrap();
    assert_eq!(&b[..12], "789846581043");
    assert_eq!(b.len(), 13);
}

#[test]
fn generated_barcode_round_trip() {
    let mut last: Option<String> = None;
    for _ in 0..25 {
        let b = generate_barcode(last.as_deref(), "789846581").unwrap();
        let d = calculate_ean13_check_digit(&b[..12]).unwrap();
        assert_eq!(b.chars().nth(12), Some(d));
        last = Some(b);
    }
    assert_eq!(get_current_sequence(last.as_deref()), 25);
}

#[test]
fn barcode_with_bad_prefix() {
    assert_eq!(generate_barcode(None, "78984658"), Err(PrinterError::InvalidInput));
    assert_eq!(generate_barcode(None, "78984658x"), Err(PrinterError::InvalidInput));
    assert_eq!(
        generate_barcode(Some("7898465819992"), "78984658x"),
        Err(PrinterError::SequenceExhausted)
    );
}

#[test]
fn product_code_rules() {
    assert_eq!(validate_product_code("A12"), Ok(()));
    assert_eq!(validate_product_code("ABCD"), Ok(()));
    assert_eq!(validate_product_code(""), Err(PrinterError::EmptyProductCode));
    assert_eq!(validate_product_code("  \t"), Err(PrinterError::EmptyProductCode));
    assert_eq!(validate_product_code("ABCDE"), Err(PrinterError::ProductCodeTooLong));
    assert_eq!(validate_product_code("ÁÉÍÓ"), Ok(()));
}

#[test]
fn new_product_checks_in_order() {
    assert_eq!(
        prepare_new_product("", true, None, "789846581"),
        Err(PrinterError::EmptyProductCode)
    );
    assert_eq!(
        prepare_new_product("A1", true, None, "789846581"),
        Err(PrinterError::DuplicateProductCode)
    );
    assert_eq!(
        prepare_new_product("A1", false, Some("7898465819992"), "789846581"),
        Err(PrinterError::SequenceExhausted)
    );
    assert_eq!(
        prepare_new_product("A1", false, None, "789846581"),
        Ok("7898465810011".to_string())
    );
}

#[test]
fn product_update_checks_in_order() {
    assert_eq!(check_product_update("ABCDEF", false, true), Err(PrinterError::ProductCodeTooLong));
    assert_eq!(check_product_update("A1", false, true), Err(PrinterError::ProductNotFound));
    assert_eq!(check_product_update("A1", true, true), Err(PrinterError::DuplicateProductCode));
    assert_eq!(check_product_update("A1", true, false), Ok(()));
}
