//! Configuration documents: both formats, their defaults, and their
//! rejections.

use hook_relay::config::{
    select_backend, select_backend_required, BackendKind, Config, DiscordConfig, TelegramConfig,
};

#[test]
fn test_legacy_config_with_string_chat_id() {
    let content = r#"{"telegram_bot_token":"test_token","telegram_chat_id":"123456"}"#;

    let config = Config::from_json_str(content).unwrap();
    let telegram = config.telegram.expect("telegram should be configured");
    assert_eq!(telegram.bot_token, "test_token");
    assert_eq!(telegram.chat_id, 123456);
    assert_eq!(config.timeout_seconds, 300); // Default
}

#[test]
fn test_legacy_config_with_int_chat_id() {
    let content = r#"{"telegram_bot_token":"test_token","telegram_chat_id":123456}"#;

    let config = Config::from_json_str(content).unwrap();
    let telegram = config.telegram.expect("telegram should be configured");
    assert_eq!(telegram.bot_token, "test_token");
    assert_eq!(telegram.chat_id, 123456);
}

#[test]
fn test_legacy_config_missing_token() {
    let content = r#"{"telegram_chat_id":"123456"}"#;

    let result = Config::from_json_str(content);
    assert!(result.is_err());
}

#[test]
fn test_new_config_telegram_only() {
    let content = r#"{
                "messengers": {
                    "telegram": {
                        "bot_token": "new_token",
                        "chat_id": "789012"
                    }
                }
            }"#;

    let config = Config::from_json_str(content).unwrap();
    let telegram = config.telegram.expect("telegram should be configured");
    assert_eq!(telegram.bot_token, "new_token");
    assert_eq!(telegram.chat_id, 789012);
    assert_eq!(config.timeout_seconds, 300); // Default
}

#[test]
fn test_new_config_with_preferences() {
    let content = r#"{
                "messengers": {
                    "telegram": {
                        "enabled": true,
                        "bot_token": "token123",
                        "chat_id": 111222
                    }
                },
                "preferences": {
                    "primary_messenger": "telegram",
                    "timeout_seconds": 600
                }
            }"#;

    let config = Config::from_json_str(content).unwrap();
    let telegram = config.telegram.expect("telegram should be configured");
    assert_eq!(telegram.bot_token, "token123");
    assert_eq!(telegram.chat_id, 111222);
    assert_eq!(config.timeout_seconds, 600);
}

#[test]
fn test_new_config_missing_telegram() {
    let content = r#"{
                "messengers": {}
            }"#;

    let result = Config::from_json_str(content);
    assert!(result.is_err());
}

// Backward compatibility aliases for existing tests
#[test]
fn test_config_from_json_with_string_chat_id() {
    test_legacy_config_with_string_chat_id();
}

#[test]
fn test_config_from_json_with_int_chat_id() {
    test_legacy_config_with_int_chat_id();
}

#[test]
fn test_config_from_json_missing_token() {
    test_legacy_config_missing_token();
}

#[test]
fn test_invalid_chat_id_text_is_rejected() {
    let content = r#"{"telegram_bot_token":"test_token","telegram_chat_id":"not-a-number"}"#;
    let result = Config::from_json_str(content);
    assert!(result.is_err());
}

#[test]
fn test_invalid_document_is_rejected() {
    let result = Config::from_json_str("definitely not json");
    assert!(matches!(result, Err(hook_relay::config::ConfigError::InvalidJson(_))));
}

#[test]
fn test_backend_selection_prefers_primary_then_falls_back() {
    let base = Config {
        hostname: "h".to_string(),
        timeout_seconds: 300,
        primary_messenger: "discord".to_string(),
        telegram: Some(TelegramConfig { bot_token: "t".to_string(), chat_id: 1 }),
        signal: None,
        discord: Some(DiscordConfig {
            enabled: true,
            bot_token: "d".to_string(),
            user_id: 2,
        }),
    };
    assert_eq!(select_backend(&base), Some(BackendKind::Discord));

    let no_discord = Config { discord: None, ..base.clone() };
    assert_eq!(select_backend(&no_discord), Some(BackendKind::Telegram));

    let none = Config { telegram: None, ..no_discord };
    assert_eq!(select_backend(&none), None);
    assert!(select_backend_required(&none).is_err());
}
