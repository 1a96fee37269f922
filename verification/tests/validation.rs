use usage_monitor::error::AppError;
use usage_monitor::validation::{validate_org_id, validate_session_token};

#[test]
fn accepts_valid_alphanumeric_token() {
    assert!(validate_session_token("abc123XYZ").is_ok());
}

#[test]
fn accepts_valid_base64_token() {
    assert!(validate_session_token("abc+def/ghi=").is_ok());
}

#[test]
fn accepts_token_with_allowed_special_chars() {
    assert!(validate_session_token("token-with_dots.and-dashes").is_ok());
}

#[test]
fn rejects_empty_token() {
    assert!(validate_session_token("").is_err());
}

#[test]
fn validation_rejects_token_exceeding_max_length() {
    let long_token = "a".repeat(4097);
    assert!(validate_session_token(&long_token).is_err());
}

#[test]
fn accepts_token_at_max_length() {
    let max_token = "a".repeat(4096);
    assert!(validate_session_token(&max_token).is_ok());
}

#[test]
fn rejects_token_with_newline() {
    assert!(validate_session_token("token\ninjection").is_err());
}

#[test]
fn rejects_token_with_carriage_return() {
    assert!(validate_session_token("token\rinjection").is_err());
}

#[test]
fn rejects_token_with_space() {
    assert!(validate_session_token("token with space").is_err());
}

#[test]
fn rejects_token_with_colon() {
    assert!(validate_session_token("token:injection").is_err());
}

#[test]
fn rejects_token_with_semicolon() {
    assert!(validate_session_token("token;injection").is_err());
}

#[test]
fn accepts_valid_uuid_format() {
    assert!(validate_org_id("550e8400-e29b-41d4-a716-446655440000").is_ok());
}

#[test]
fn accepts_alphanumeric_with_dashes() {
    assert!(validate_org_id("my-org-123").is_ok());
}

#[test]
fn accepts_alphanumeric_with_underscores() {
    assert!(validate_org_id("my_org_123").is_ok());
}

#[test]
fn validation_rejects_empty_org_id() {
    assert!(validate_org_id("").is_err());
}

#[test]
fn validation_rejects_org_id_exceeding_max_length() {
    let long_id = "a".repeat(129);
    assert!(validate_org_id(&long_id).is_err());
}

#[test]
fn accepts_org_id_at_max_length() {
    let max_id = "a".repeat(128);
    assert!(validate_org_id(&max_id).is_ok());
}

#[test]
fn rejects_org_id_with_dots() {
    assert!(validate_org_id("org.with.dots").is_err());
}

#[test]
fn rejects_org_id_with_slashes() {
    assert!(validate_org_id("org/with/slashes").is_err());
}

#[test]
fn rejects_org_id_with_spaces() {
    assert!(validate_org_id("org with spaces").is_err());
}

#[test]
fn token_errors_are_invalid_token() {
    assert_eq!(validate_session_token(""), Err(AppError::InvalidToken));
    assert_eq!(validate_session_token("a b"), Err(AppError::InvalidToken));
    assert_eq!(validate_session_token(&"a".repeat(4097)), Err(AppError::InvalidToken));
    assert_eq!(validate_session_token("abc"), Ok(()));
}

#[test]
fn org_id_errors_name_the_problem() {
    assert_eq!(
        validate_org_id(""),
        Err(AppError::MissingConfig("organization_id".to_string()))
    );
    assert_eq!(
        validate_org_id(&"a".repeat(129)),
        Err(AppError::MissingConfig("organization_id too long".to_string()))
    );
    assert_eq!(
        validate_org_id("org.dots"),
        Err(AppError::MissingConfig("invalid organization_id format".to_string()))
    );
    assert_eq!(validate_org_id("org-1_A"), Ok(()));
}

#[test]
fn org_id_length_is_judged_before_its_characters() {
    let long_and_malformed = format!("{}{}", "a".repeat(128), "!");
    assert_eq!(
        validate_org_id(&long_and_malformed),
        Err(AppError::MissingConfig("organization_id too long".to_string()))
    );
}

#[test]
fn length_is_counted_in_bytes() {
    // 64 two-byte characters are 128 bytes: not too long, but malformed.
    let two_byte = "é".repeat(64);
    assert_eq!(
        validate_org_id(&two_byte),
        Err(AppError::MissingConfig("invalid organization_id format".to_string()))
    );
    // 65 of them are 130 bytes.
    let two_byte = "é".repeat(65);
    assert_eq!(
        validate_org_id(&two_byte),
        Err(AppError::MissingConfig("organization_id too long".to_string()))
    );
}

#[test]
fn every_ascii_character_is_judged_by_the_token_alphabet() {
    for code in 0u8..128 {
        let c = code as char;
        let allowed = c.is_ascii_alphanumeric() || "-_.+/=".contains(c);
        let text = c.to_string();
        assert_eq!(validate_session_token(&text).is_ok(), allowed, "{:?}", c);
    }
    assert!(validate_session_token("ü").is_err());
}

#[test]
fn every_ascii_character_is_judged_by_the_org_id_alphabet() {
    for code in 0u8..128 {
        let c = code as char;
        let allowed = c.is_ascii_alphanumeric() || c == '-' || c == '_';
        let text = c.to_string();
        assert_eq!(validate_org_id(&text).is_ok(), allowed, "{:?}", c);
    }
    assert!(validate_org_id("ü").is_err());
}
