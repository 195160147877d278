use deploy_notify::notifier::{Language, NotifierConfig};

#[test]
fn english_codes_select_english() {
    assert_eq!(Language::from_env("en"), Language::English);
    assert_eq!(Language::from_env("english"), Language::English);
}

#[test]
fn language_codes_are_compared_without_regard_to_case() {
    assert_eq!(Language::from_env("EN"), Language::English);
    assert_eq!(Language::from_env("English"), Language::English);
    assert_eq!(Language::from_env("ENGLISH"), Language::English);
}

#[test]
fn other_codes_fall_back_to_korean() {
    assert_eq!(Language::from_env("ko"), Language::Korean);
    assert_eq!(Language::from_env(""), Language::Korean);
    assert_eq!(Language::from_env("fr"), Language::Korean);
    assert_eq!(Language::from_env("en-US"), Language::Korean);
}

#[test]
fn missing_language_setting_falls_back_to_korean() {
    let cfg = NotifierConfig::from_settings(None, None, None);
    assert_eq!(cfg.language, Language::Korean);
}

#[test]
fn slack_config_needs_both_token_and_channel() {
    let both = NotifierConfig::from_settings(
        Some("en".to_string()),
        Some("SECRET-REDACTED".to_string()),
        Some("#deploys".to_string()),
    );
    assert!(both.has_slack_config());
    assert_eq!(both.language, Language::English);

    let token_only = NotifierConfig::from_settings(
        None,
        Some("SECRET-REDACTED".to_string()),
        None,
    );
    assert!(!token_only.has_slack_config());

    let channel_only = NotifierConfig::from_settings(
        None,
        None,
        Some("#deploys".to_string()),
    );
    assert!(!channel_only.has_slack_config());

    let neither = NotifierConfig::from_settings(None, None, None);
    assert!(!neither.has_slack_config());
}
