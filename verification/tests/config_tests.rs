use gpt_relay::auth::bearer_header_value;
use gpt_relay::config::{resolve_prefix, AppConfig};
use gpt_relay::error::AppError;

#[test]
fn requested_prefix_is_kept() {
    assert_eq!(resolve_prefix(Some("?ask".to_owned())), "?ask");
}

#[test]
fn missing_prefix_falls_back_to_the_default() {
    assert_eq!(resolve_prefix(None), "!gpt3");
}

#[test]
fn empty_prefix_falls_back_to_the_default() {
    assert_eq!(resolve_prefix(Some(String::new())), "!gpt3");
}

#[test]
fn config_keeps_its_fields() {
    let c = AppConfig::new(
        "completion-key".to_owned(),
        "gateway-credential".to_owned(),
        "!gpt3".to_owned(),
    );
    assert_eq!(c.bot_prefix, "!gpt3");
    assert_eq!(c.openai_key, "completion-key");
    assert_eq!(c.discord_token, "gateway-credential");
}

#[test]
fn bearer_value_prepends_the_scheme() {
    let r = bearer_header_value("abc123");
    assert_eq!(r, Ok("Bearer abc123".to_owned()));
}

#[test]
fn key_with_a_newline_is_refused() {
    let r = bearer_header_value("abc\n123");
    assert_eq!(r, Err(AppError::InvalidAuthHeader));
}

#[test]
fn key_with_del_is_refused() {
    let r = bearer_header_value("abc\u{7f}");
    assert_eq!(r, Err(AppError::InvalidAuthHeader));
}

#[test]
fn key_with_a_tab_is_accepted() {
    let r = bearer_header_value("a\tb");
    assert_eq!(r, Ok("Bearer a\tb".to_owned()));
}

#[test]
fn empty_key_builds_a_bare_scheme() {
    let r = bearer_header_value("");
    assert_eq!(r, Ok("Bearer ".to_owned()));
}

#[test]
fn error_messages_name_their_cause() {
    assert_eq!(
        AppError::EmptyChoices.describe(),
        "the completion response held no choices"
    );
    assert_eq!(
        AppError::Network { detail: "timed out".to_owned() }.describe(),
        "network error on the completion call: timed out"
    );
    assert_eq!(
        AppError::Decode { detail: "bad json".to_owned() }.describe(),
        "cannot decode the completion response: bad json"
    );
    assert_eq!(
        AppError::InvalidAuthHeader.describe(),
        "cannot build an authorization header from the configured key"
    );
    assert_eq!(
        AppError::HttpStatus { code: 500 }.describe(),
        "the completion endpoint answered with an error status"
    );
}
