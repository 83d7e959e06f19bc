//! Tests for the email adapter.

use notify_engine::config::{NotificationMessage, TriggerTypeConfig};
use notify_engine::email::{EmailAddr, EmailContent, EmailNotifier, SmtpConfig};
use notify_engine::error::NotificationError;
use notify_engine::template::VariableMap;

fn create_test_notifier() -> EmailNotifier {
    let email_content = EmailContent {
        subject: "Test Subject".to_string(),
        body_template: "Hello ${name}, your balance is ${balance}".to_string(),
        sender: EmailAddr::parse("sender@test.com".to_string()).unwrap(),
        recipients: vec![EmailAddr::parse("recipient@test.com".to_string()).unwrap()],
    };

    EmailNotifier::new(email_content).unwrap()
}

fn create_test_email_config(port: Option<u16>) -> TriggerTypeConfig {
    TriggerTypeConfig::Email {
        host: "smtp.test.com".to_string(),
        port,
        username: "testuser".to_string(),
        password: "testpass".to_string(),
        message: NotificationMessage {
            title: "Test Subject".to_string(),
            body: "Hello ${name}".to_string(),
        },
        sender: EmailAddr::parse("sender@test.com".to_string()).unwrap(),
        recipients: vec![EmailAddr::parse("recipient@test.com".to_string()).unwrap()],
    }
}

#[test]
fn test_format_message_basic_substitution() {
    let notifier = create_test_notifier();
    let mut variables = VariableMap::new();
    variables.insert("name".to_string(), "Alice".to_string());
    variables.insert("balance".to_string(), "100".to_string());

    let result = notifier.format_message(&variables);
    let expected_result = "<p>Hello Alice, your balance is 100</p>\n";
    assert_eq!(result, expected_result);
}

#[test]
fn test_format_message_missing_variable() {
    let notifier = create_test_notifier();
    let mut variables = VariableMap::new();
    variables.insert("name".to_string(), "Bob".to_string());

    let result = notifier.format_message(&variables);
    let expected_result = "<p>Hello Bob, your balance is ${balance}</p>\n";
    assert_eq!(result, expected_result);
}

#[test]
fn test_format_message_empty_variables() {
    let notifier = create_test_notifier();
    let variables = VariableMap::new();

    let result = notifier.format_message(&variables);
    let expected_result = "<p>Hello ${name}, your balance is ${balance}</p>\n";
    assert_eq!(result, expected_result);
}

#[test]
fn test_format_message_with_empty_values() {
    let notifier = create_test_notifier();
    let mut variables = VariableMap::new();
    variables.insert("name".to_string(), "".to_string());
    variables.insert("balance".to_string(), "".to_string());

    let result = notifier.format_message(&variables);
    let expected_result = "<p>Hello , your balance is</p>\n";
    assert_eq!(result, expected_result);
}

#[test]
fn test_from_config_valid_email_config() {
    let config = create_test_email_config(Some(587));
    let smtp_config = match &config {
        TriggerTypeConfig::Email { host, port, username, password, .. } => SmtpConfig {
            host: host.clone(),
            port: port.unwrap_or(587),
            username: username.clone(),
            password: password.clone(),
        },
        _ => panic!("Expected Email config"),
    };
    assert_eq!(smtp_config.port, 587);
    let notifier = EmailNotifier::from_config(&config);
    assert!(notifier.is_ok());

    let notifier = notifier.unwrap();
    assert_eq!(notifier.subject, "Test Subject");
    assert_eq!(notifier.body_template, "Hello ${name}");
    assert_eq!(notifier.sender.as_str(), "sender@test.com");
    assert_eq!(notifier.recipients.len(), 1);
    assert_eq!(notifier.recipients[0].as_str(), "recipient@test.com");
}

#[test]
fn test_from_config_default_port() {
    let config = create_test_email_config(None);
    let smtp_config = match &config {
        TriggerTypeConfig::Email { host, port, username, password, .. } => SmtpConfig {
            host: host.clone(),
            port: port.unwrap_or(587),
            username: username.clone(),
            password: password.clone(),
        },
        _ => panic!("Expected Email config"),
    };
    assert_eq!(smtp_config.port, 587);
    let notifier = EmailNotifier::from_config(&config);
    assert!(notifier.is_ok());
}

#[test]
fn email_address_validation() {
    assert!(EmailAddr::parse("user@example.com".to_string()).is_ok());
    let err = EmailAddr::parse("not an address".to_string()).unwrap_err();
    assert!(matches!(err, NotificationError::ConfigError { .. }));
}

#[test]
fn recipients_line_joins_addresses() {
    let email_content = EmailContent {
        subject: "s".to_string(),
        body_template: "b".to_string(),
        sender: EmailAddr::parse("sender@test.com".to_string()).unwrap(),
        recipients: vec![
            EmailAddr::parse("one@test.com".to_string()).unwrap(),
            EmailAddr::parse("two@test.com".to_string()).unwrap(),
        ],
    };
    let notifier = EmailNotifier::new(email_content).unwrap();
    assert_eq!(notifier.recipients_line(), "one@test.com, two@test.com");
}

#[test]
fn markdown_formatting_reaches_html() {
    let email_content = EmailContent {
        subject: "s".to_string(),
        body_template: "value is *${value}*".to_string(),
        sender: EmailAddr::parse("sender@test.com".to_string()).unwrap(),
        recipients: vec![EmailAddr::parse("recipient@test.com".to_string()).unwrap()],
    };
    let notifier = EmailNotifier::new(email_content).unwrap();
    let mut variables = VariableMap::new();
    variables.insert("value".to_string(), "9".to_string());
    assert_eq!(
        notifier.format_message(&variables),
        "<p>value is <em>9</em></p>\n"
    );
}
