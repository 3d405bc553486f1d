use comunidad::validate::{format_rut, validate_email, validate_rut, validate_rut_format};

#[test]
fn rut_accepts_seven_digit_bodies() {
    assert!(validate_rut("1234567-K"));
    assert!(validate_rut("1234567-k"));
    assert!(validate_rut("1234567-0"));
}

#[test]
fn rut_accepts_eight_digit_bodies() {
    assert!(validate_rut("12345678-9"));
    assert!(validate_rut("12345678-K"));
}

#[test]
fn rut_rejects_missing_dash() {
    assert!(!validate_rut("12345678"));
}

#[test]
fn rut_rejects_short_body() {
    assert!(!validate_rut("123-45"));
    assert!(!validate_rut("123456-7"));
}

#[test]
fn rut_rejects_bad_check_character() {
    assert!(!validate_rut("12345678-X"));
    assert!(!validate_rut("12345678--"));
}

#[test]
fn rut_rejects_long_body_and_empty() {
    assert!(!validate_rut("123456789-1"));
    assert!(!validate_rut(""));
}

#[test]
fn rut_rejects_letters_in_body() {
    assert!(!validate_rut("1234a678-9"));
}

#[test]
fn rut_format_check_agrees_with_validator() {
    assert!(validate_rut_format("12345678-9"));
    assert!(!validate_rut_format("12345678"));
}

#[test]
fn email_accepts_minimal_address() {
    assert!(validate_email("a@b.co"));
}

#[test]
fn email_accepts_typical_addresses() {
    assert!(validate_email("user.name+tag@example-site.org"));
    assert!(validate_email("x_1%2@sub.domain.cl"));
}

#[test]
fn email_rejects_missing_tld() {
    assert!(!validate_email("a@b"));
}

#[test]
fn email_rejects_missing_at_sign() {
    assert!(!validate_email("noatsign.com"));
}

#[test]
fn email_rejects_empty() {
    assert!(!validate_email(""));
}

#[test]
fn email_rejects_short_tld_and_empty_parts() {
    assert!(!validate_email("a@b.c"));
    assert!(!validate_email("@b.co"));
    assert!(!validate_email("a@.co"));
}

#[test]
fn format_rut_splices_dash_and_upcases_check() {
    assert_eq!(format_rut("123456789"), "12345678-9");
    assert_eq!(format_rut("1234567k"), "1234567-K");
}

#[test]
fn format_rut_strips_foreign_characters() {
    assert_eq!(format_rut("12.345.678-9"), "12345678-9");
}

#[test]
fn format_rut_keeps_short_input() {
    assert_eq!(format_rut(""), "");
    assert_eq!(format_rut("7"), "7");
    assert_eq!(format_rut("--"), "");
}

#[test]
fn format_rut_then_validate() {
    assert!(validate_rut(&format_rut("12345678k")));
}
