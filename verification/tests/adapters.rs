//! Tests for the Discord and Slack adapters.

use notify_engine::config::{NotificationMessage, TriggerTypeConfig};
use notify_engine::discord::DiscordNotifier;
use notify_engine::error::NotificationError;
use notify_engine::retry::RetryPolicy;
use notify_engine::slack::SlackNotifier;
use notify_engine::template::VariableMap;

fn create_test_discord_notifier(body_template: &str) -> DiscordNotifier {
    DiscordNotifier::new(
        "https://non-existent-url-discord-webhook.com".to_string(),
        "Alert".to_string(),
        body_template.to_string(),
    )
    .unwrap()
}

fn create_test_slack_notifier(body_template: &str) -> SlackNotifier {
    SlackNotifier::new(
        "https://non-existent-url-slack-webhook.com".to_string(),
        "Alert".to_string(),
        body_template.to_string(),
    )
    .unwrap()
}

fn create_test_discord_config() -> TriggerTypeConfig {
    TriggerTypeConfig::Discord {
        discord_url: "https://discord.example.com".to_string(),
        message: NotificationMessage {
            title: "Test Alert".to_string(),
            body: "Test message ${value}".to_string(),
        },
        retry_policy: RetryPolicy::default(),
    }
}

fn create_test_slack_config() -> TriggerTypeConfig {
    TriggerTypeConfig::Slack {
        slack_url: "https://slack.example.com".to_string(),
        message: NotificationMessage {
            title: "Test Alert".to_string(),
            body: "Test message ${value}".to_string(),
        },
        retry_policy: RetryPolicy::default(),
    }
}

#[test]
fn discord_test_format_message() {
    let notifier = create_test_discord_notifier("Value is ${value} and status is ${status}");

    let mut variables = VariableMap::new();
    variables.insert("value".to_string(), "100".to_string());
    variables.insert("status".to_string(), "critical".to_string());

    let result = notifier.format_message(&variables);
    assert_eq!(result, "*Alert*\n\nValue is 100 and status is critical");
}

#[test]
fn discord_test_format_message_with_missing_variables() {
    let notifier = create_test_discord_notifier("Value is ${value} and status is ${status}");

    let mut variables = VariableMap::new();
    variables.insert("value".to_string(), "100".to_string());
    // status variable is not provided

    let result = notifier.format_message(&variables);
    assert_eq!(result, "*Alert*\n\nValue is 100 and status is ${status}");
}

#[test]
fn discord_test_format_message_with_empty_template() {
    let notifier = create_test_discord_notifier("");

    let variables = VariableMap::new();
    let result = notifier.format_message(&variables);
    assert_eq!(result, "*Alert*\n\n");
}

#[test]
fn test_from_config_with_discord_config() {
    let config = create_test_discord_config();
    let notifier = DiscordNotifier::from_config(&config);
    assert!(notifier.is_ok());

    let notifier = notifier.unwrap();
    assert_eq!(notifier.inner.url, "https://discord.example.com");
    assert_eq!(notifier.inner.title, "Test Alert");
    assert_eq!(notifier.inner.body_template, "Test message ${value}");
}

#[test]
fn slack_test_format_message() {
    let notifier = create_test_slack_notifier("Value is ${value} and status is ${status}");

    let mut variables = VariableMap::new();
    variables.insert("value".to_string(), "100".to_string());
    variables.insert("status".to_string(), "critical".to_string());

    let result = notifier.format_message(&variables);
    assert_eq!(result, "*Alert*\n\nValue is 100 and status is critical");
}

#[test]
fn slack_test_format_message_with_missing_variables() {
    let notifier = create_test_slack_notifier("Value is ${value} and status is ${status}");

    let mut variables = VariableMap::new();
    variables.insert("value".to_string(), "100".to_string());
    // status variable is not provided

    let result = notifier.format_message(&variables);
    assert_eq!(result, "*Alert*\n\nValue is 100 and status is ${status}");
}

#[test]
fn slack_test_format_message_with_empty_template() {
    let notifier = create_test_slack_notifier("");

    let variables = VariableMap::new();
    let result = notifier.format_message(&variables);
    assert_eq!(result, "*Alert*\n\n");
}

#[test]
fn test_from_config_with_slack_config() {
    let config = create_test_slack_config();
    let notifier = SlackNotifier::from_config(&config);
    assert!(notifier.is_ok());

    let notifier = notifier.unwrap();
    assert_eq!(notifier.inner.url, "https://slack.example.com");
    assert_eq!(notifier.inner.title, "Test Alert");
    assert_eq!(notifier.inner.body_template, "Test message ${value}");
}

#[test]
fn from_config_rejects_other_channel_type() {
    let discord_config = create_test_discord_config();
    let err = SlackNotifier::from_config(&discord_config).unwrap_err();
    assert!(matches!(err, NotificationError::ConfigError { .. }));
}

#[test]
fn new_rejects_non_http_url() {
    let err = DiscordNotifier::new(
        "ftp://example.com".to_string(),
        "Alert".to_string(),
        "body".to_string(),
    )
    .unwrap_err();
    assert!(matches!(err, NotificationError::ConfigError { .. }));
}

#[test]
fn discord_end_to_end_request_body() {
    let notifier = DiscordNotifier::new(
        "https://discord.example.com".to_string(),
        "Test Alert".to_string(),
        "Test message with value ${value}".to_string(),
    )
    .unwrap();

    let mut variables = VariableMap::new();
    variables.insert("value".to_string(), "42".to_string());
    let message = notifier.format_message(&variables);
    assert_eq!(message, "*Test Alert*\n\nTest message with value 42");

    let request = notifier.notify_request(&message);
    assert_eq!(request.url, "https://discord.example.com");
    assert_eq!(request.method, "POST");
    assert_eq!(
        request.body,
        "{\"content\":\"*Test Alert*\\n\\nTest message with value 42\"}"
    );
    assert!(request.headers.is_empty());
}

#[test]
fn slack_request_body_wraps_blocks() {
    let notifier = SlackNotifier::new(
        "https://slack.example.com".to_string(),
        "Alert".to_string(),
        "hello".to_string(),
    )
    .unwrap();

    let request = notifier.notify_request("msg");
    assert_eq!(
        request.body,
        "{\"blocks\":[{\"type\":\"section\",\"text\":{\"type\":\"mrkdwn\",\"text\":\"msg\"}}]}"
    );
}
