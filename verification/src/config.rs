//! Trigger configuration.
//!
//! A trigger names the channel it fires on and carries the message template
//! and the channel's parameters. Each adapter is built from the matching
//! variant; handing it another variant is a configuration error.

use vstd::prelude::*;
use crate::email::EmailAddr;
use crate::retry::RetryPolicy;

verus! {

/// An immutable message template: a title and a body with `${name}` tokens.
pub struct NotificationMessage {
    pub title: String,
    pub body: String,
}

/// The per-channel parameters a trigger carries.
pub enum TriggerTypeConfig {
    Discord { discord_url: String, message: NotificationMessage, retry_policy: RetryPolicy },
    Slack { slack_url: String, message: NotificationMessage, retry_policy: RetryPolicy },
    Telegram {
        token: String,
        chat_id: String,
        disable_web_preview: Option<bool>,
        message: NotificationMessage,
        retry_policy: RetryPolicy,
    },
    Email {
        host: String,
        port: Option<u16>,
        username: String,
        password: String,
        message: NotificationMessage,
        sender: EmailAddr,
        recipients: Vec<EmailAddr>,
    },
}

} // verus!
