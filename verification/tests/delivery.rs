//! Tests for payload composition, serialization, signing, the retry
//! decision and the dispatch boundary.

use notify_engine::channel::ChannelNotifier;
use notify_engine::config::{NotificationMessage, TriggerTypeConfig};
use notify_engine::email::EmailAddr;
use notify_engine::error::NotificationError;
use notify_engine::payload::{compose, serialize_payload, FieldValue, Payload};
use notify_engine::retry::{
    classify_outcome, retry_decision, run_delivery, AttemptOutcome, Disposition, NextStep,
    RetryPolicy,
};
use notify_engine::signing::{bytes_to_hex, sign_payload};
use notify_engine::template::VariableMap;
use notify_engine::webhook::{WebhookConfig, WebhookNotifier};

#[test]
fn serialize_payload_fields_in_order() {
    let mut p = Payload::new();
    p.push_field("a".to_string(), FieldValue::Text("x".to_string()));
    p.push_field("b".to_string(), FieldValue::Flag(true));
    p.push_field("c".to_string(), FieldValue::Flag(false));
    assert_eq!(serialize_payload(&p), "{\"a\":\"x\",\"b\":true,\"c\":false}");
}

#[test]
fn serialize_payload_escapes_json() {
    let mut p = Payload::new();
    p.push_field(
        "text".to_string(),
        FieldValue::Text("a\"b\\c\nd\re\tf\u{1}g".to_string()),
    );
    assert_eq!(
        serialize_payload(&p),
        "{\"text\":\"a\\\"b\\\\c\\nd\\re\\tf\\u0001g\"}"
    );
}

#[test]
fn compose_dynamic_field_wins_on_collision() {
    let mut stat = Payload::new();
    stat.push_field("chat_id".to_string(), FieldValue::Text("42".to_string()));
    stat.push_field("mode".to_string(), FieldValue::Text("a".to_string()));
    let mut dynf = Payload::new();
    dynf.push_field("mode".to_string(), FieldValue::Text("b".to_string()));
    dynf.push_field("text".to_string(), FieldValue::Text("hi".to_string()));
    let merged = compose(&stat, &dynf);
    assert_eq!(
        serialize_payload(&merged),
        "{\"chat_id\":\"42\",\"mode\":\"b\",\"text\":\"hi\"}"
    );
}

#[test]
fn set_field_replaces_in_place() {
    let mut p = Payload::new();
    p.push_field("k".to_string(), FieldValue::Text("old".to_string()));
    p.push_field("other".to_string(), FieldValue::Flag(true));
    p.set_field("k".to_string(), FieldValue::Text("new".to_string()));
    assert_eq!(serialize_payload(&p), "{\"k\":\"new\",\"other\":true}");
}

#[test]
fn hex_encoding_of_bytes() {
    let bytes: Vec<u8> = vec![0x00, 0x0f, 0xa5, 0xff];
    assert_eq!(bytes_to_hex(&bytes), "000fa5ff");
}

#[test]
fn signature_is_hex_and_depends_on_inputs() {
    let one = sign_payload("secret", "{\"a\":1}");
    let two = sign_payload("secret", "{\"a\":1}");
    let other_body = sign_payload("secret", "{\"a\":2}");
    let other_key = sign_payload("other", "{\"a\":1}");
    assert_eq!(one, two);
    assert_eq!(one.len(), 64);
    assert!(one.chars().all(|c| c.is_ascii_hexdigit()));
    assert_ne!(one, other_body);
    assert_ne!(one, other_key);
    assert_ne!(one, "{\"a\":1}");
}

#[test]
fn signed_request_carries_signature_header() {
    let config = WebhookConfig {
        url: "https://hooks.example.com/x".to_string(),
        url_params: None,
        title: "T".to_string(),
        body_template: "b".to_string(),
        method: None,
        secret: Some("top-secret".to_string()),
        signature_header: None,
        headers: Some(vec![("X-Custom".to_string(), "yes".to_string())]),
        payload_fields: None,
    };
    let notifier = WebhookNotifier::new(config).unwrap();
    assert_eq!(notifier.method, "POST");

    let mut extra = Payload::new();
    extra.push_field("content".to_string(), FieldValue::Text("hi".to_string()));
    let request = notifier.prepare_request(&extra);

    assert_eq!(request.headers.len(), 2);
    assert_eq!(request.headers[0].0, "X-Custom");
    assert_eq!(request.headers[0].1, "yes");
    assert_eq!(request.headers[1].0, "X-Signature");
    assert_eq!(request.headers[1].1.len(), 64);
    assert_eq!(
        request.headers[1].1,
        sign_payload("top-secret", &request.body)
    );
}

#[test]
fn classification_of_outcomes() {
    assert_eq!(
        classify_outcome(&AttemptOutcome::Status(200)),
        Disposition::Delivered
    );
    assert_eq!(
        classify_outcome(&AttemptOutcome::Status(204)),
        Disposition::Delivered
    );
    assert_eq!(
        classify_outcome(&AttemptOutcome::Status(500)),
        Disposition::Retryable
    );
    assert_eq!(
        classify_outcome(&AttemptOutcome::Status(503)),
        Disposition::Retryable
    );
    assert_eq!(
        classify_outcome(&AttemptOutcome::Status(400)),
        Disposition::Permanent
    );
    assert_eq!(
        classify_outcome(&AttemptOutcome::Status(404)),
        Disposition::Permanent
    );
    assert_eq!(
        classify_outcome(&AttemptOutcome::TransportFailure("refused".to_string())),
        Disposition::Retryable
    );
}

#[test]
fn retry_decision_respects_budget() {
    let policy = RetryPolicy::default();
    assert_eq!(
        retry_decision(&policy, 1, &AttemptOutcome::Status(200)),
        NextStep::Succeed
    );
    assert_eq!(
        retry_decision(&policy, 1, &AttemptOutcome::Status(400)),
        NextStep::Fail
    );
    assert_eq!(
        retry_decision(&policy, 3, &AttemptOutcome::Status(500)),
        NextStep::Retry
    );
    assert_eq!(
        retry_decision(&policy, 4, &AttemptOutcome::Status(500)),
        NextStep::Fail
    );
}

#[test]
fn repeated_server_errors_use_all_attempts() {
    let policy = RetryPolicy::default();
    let outcomes = vec![
        AttemptOutcome::Status(500),
        AttemptOutcome::Status(500),
        AttemptOutcome::Status(500),
        AttemptOutcome::Status(500),
        AttemptOutcome::Status(500),
    ];
    let (attempts, result) = run_delivery(&policy, &outcomes);
    assert_eq!(attempts, 1 + policy.max_retries as u64);
    let error = result.unwrap_err();
    assert!(matches!(error, NotificationError::NotifyFailed { .. }));
}

#[test]
fn client_error_fails_after_one_attempt() {
    let policy = RetryPolicy::default();
    let outcomes = vec![
        AttemptOutcome::Status(400),
        AttemptOutcome::Status(200),
        AttemptOutcome::Status(200),
        AttemptOutcome::Status(200),
    ];
    let (attempts, result) = run_delivery(&policy, &outcomes);
    assert_eq!(attempts, 1);
    let error = result.unwrap_err();
    assert!(matches!(error, NotificationError::NotifyFailed { .. }));
}

#[test]
fn transient_failure_then_success() {
    let policy = RetryPolicy::default();
    let outcomes = vec![
        AttemptOutcome::Status(500),
        AttemptOutcome::TransportFailure("reset".to_string()),
        AttemptOutcome::Status(200),
        AttemptOutcome::Status(200),
    ];
    let (attempts, result) = run_delivery(&policy, &outcomes);
    assert_eq!(attempts, 3);
    assert!(result.is_ok());
}

#[test]
fn channel_dispatch_matches_config_variant() {
    let discord = TriggerTypeConfig::Discord {
        discord_url: "https://discord.example.com".to_string(),
        message: NotificationMessage { title: "T".to_string(), body: "b".to_string() },
        retry_policy: RetryPolicy::default(),
    };
    let email = TriggerTypeConfig::Email {
        host: "smtp.test.com".to_string(),
        port: None,
        username: "u".to_string(),
        password: "p".to_string(),
        message: NotificationMessage { title: "T".to_string(), body: "b".to_string() },
        sender: EmailAddr::parse("sender@test.com".to_string()).unwrap(),
        recipients: vec![EmailAddr::parse("recipient@test.com".to_string()).unwrap()],
    };

    let discord_notifier = ChannelNotifier::from_config(&discord).unwrap();
    assert!(matches!(discord_notifier, ChannelNotifier::Discord(_)));
    let request = discord_notifier.notify_request("hi").unwrap();
    assert_eq!(request.body, "{\"content\":\"hi\"}");

    let email_notifier = ChannelNotifier::from_config(&email).unwrap();
    assert!(matches!(email_notifier, ChannelNotifier::Email(_)));
    assert!(email_notifier.notify_request("hi").is_none());

    let mut variables = VariableMap::new();
    variables.insert("x".to_string(), "1".to_string());
    assert_eq!(discord_notifier.format_message(&variables), "*T*\n\nb");
}

#[test]
fn error_constructors_keep_their_parts() {
    let config_err = NotificationError::config_error("bad config".to_string());
    assert_eq!(config_err.message(), "bad config");
    assert!(matches!(config_err, NotificationError::ConfigError { .. }));

    let notify_err =
        NotificationError::notify_failed("send failed".to_string(), Some("timeout".to_string()));
    assert_eq!(notify_err.message(), "send failed");
    assert!(matches!(notify_err, NotificationError::NotifyFailed { .. }));
}
