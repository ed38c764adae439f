use orders_core::config::Config;
use orders_core::errors::{error_body_of, AppError};
use orders_core::ports::order_repository::RepoError;
use orders_core::text::{after_prefix, contains_char, is_blank, is_whitespace, same_text};

#[test]
fn each_failure_has_its_status() {
    assert_eq!(AppError::BadRequest("x".into()).status_code(), 400);
    assert_eq!(AppError::NotFound("x".into()).status_code(), 404);
    assert_eq!(AppError::Internal("x".into()).status_code(), 500);
}

#[test]
fn the_caller_is_not_told_the_cause_of_an_internal_failure() {
    assert_eq!(AppError::BadRequest("items empty".into()).public_message(), "items empty");
    assert_eq!(AppError::NotFound("order 7".into()).public_message(), "order 7");
    assert_eq!(AppError::Internal("db error: disk full".into()).public_message(), "internal error");
}

#[test]
fn failure_texts() {
    assert_eq!(AppError::BadRequest("items empty".into()).message(), "Bad request: items empty");
    assert_eq!(AppError::NotFound("order 7".into()).message(), "Order not found: order 7");
    assert_eq!(AppError::Internal("db error: disk full".into()).message(), "Internal error");
    assert_eq!(RepoError::DbError("disk full".into()).message(), "db error: disk full");
    assert_eq!(RepoError::DbError("".into()).message(), "db error: ");
}

#[test]
fn config_defaults_the_port() {
    let config = Config::from_vars(None, None);
    assert_eq!(config.server_port, "3000");
    assert_eq!(config.database_url, None);
    let config = Config::from_vars(Some("8080".into()), Some("sqlite://orders.db".into()));
    assert_eq!(config.server_port, "8080");
    assert_eq!(config.database_url, Some("sqlite://orders.db".to_string()));
}

#[test]
fn blank_texts() {
    assert!(is_blank(""));
    assert!(is_blank(" "));
    assert!(is_blank("\t\r\n \u{85}\u{a0}\u{2003}\u{3000}"));
    assert!(!is_blank("a"));
    assert!(!is_blank("  a  "));
    assert!(!is_blank("\u{200b}"));
    assert!(!is_blank(" \u{8d8a}"));
}

#[test]
fn characters_are_found() {
    assert!(contains_char("a@b.com", '@'));
    assert!(contains_char("@", '@'));
    assert!(contains_char("ab@", '@'));
    assert!(!contains_char("", '@'));
    assert!(!contains_char("invalid", '@'));
    assert!(!contains_char("a\u{ff20}b", '@'));
    assert!(contains_char("\u{8d8a}@", '@'));
}

#[test]
fn texts_are_compared() {
    assert!(same_text("", ""));
    assert!(same_text("Pending", "Pending"));
    assert!(!same_text("Pending", "pending"));
    assert!(!same_text("Pending", "Pendin"));
    assert!(!same_text("", "a"));
    assert!(same_text("\u{8d8a}x", "\u{8d8a}x"));
}

#[test]
fn prefixes_are_taken_off() {
    assert_eq!(after_prefix("sqlite://orders.db", "sqlite://"), Some("orders.db"));
    assert_eq!(after_prefix("sqlite://", "sqlite://"), Some(""));
    assert_eq!(after_prefix("postgres://x", "sqlite://"), None);
    assert_eq!(after_prefix("sqlite:/", "sqlite://"), None);
    assert_eq!(after_prefix("abc", ""), Some("abc"));
}

#[test]
fn the_body_of_a_failure_is_a_json_object() {
    assert_eq!(AppError::BadRequest("items empty".into()).body(), "{\"error\":\"items empty\"}");
    assert_eq!(AppError::NotFound("order 7".into()).body(), "{\"error\":\"order 7\"}");
    assert_eq!(
        AppError::Internal("db error: disk full".into()).body(),
        "{\"error\":\"internal error\"}"
    );
    // what JSON cannot hold as it is, is escaped
    assert_eq!(
        AppError::BadRequest("a \"quoted\"\nline\\".into()).body(),
        "{\"error\":\"a \\\"quoted\\\"\\nline\\\\\"}"
    );
    assert_eq!(error_body_of(Some("\"x\"".into())), "{\"error\":\"x\"}");
    assert_eq!(error_body_of(None), "{\"error\":\"internal serialization\"}");
}

#[test]
fn the_response_to_a_failure() {
    assert_eq!(
        AppError::BadRequest("items empty".into()).response(),
        (400, "application/json", "{\"error\":\"items empty\"}".to_string())
    );
    assert_eq!(
        AppError::NotFound("order 7".into()).response(),
        (404, "application/json", "{\"error\":\"order 7\"}".to_string())
    );
    // the cause never shows
    for cause in ["db error: disk full", "", "locked"] {
        assert_eq!(
            AppError::Internal(cause.into()).response(),
            (500, "application/json", "{\"error\":\"internal error\"}".to_string())
        );
    }
}

#[test]
fn white_space_is_what_the_standard_library_takes_it_to_be() {
    let mut count = 0;
    for n in 0..=0x10ffffu32 {
        if let Some(c) = char::from_u32(n) {
            assert_eq!(is_whitespace(c), c.is_whitespace());
            if is_whitespace(c) {
                count += 1;
            }
        }
    }
    assert_eq!(count, 25);
}

#[test]
fn a_text_is_blank_exactly_when_trimming_leaves_nothing() {
    for text in ["", " ", "\t\n", "a", " a ", "\u{a0}", "\u{200b}", "\u{3000}\u{2028}", " . "] {
        assert_eq!(is_blank(text), text.trim().is_empty());
    }
}
