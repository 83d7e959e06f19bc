//! The dispatch boundary.
//!
//! A higher-level service resolves a trigger's channel type to one adapter
//! and invokes it with the rendered text. The adapters form a closed tagged
//! variant: formatting is owned by the adapter, retrying by the transport,
//! and the dispatcher does neither.

use vstd::prelude::*;
use crate::config::TriggerTypeConfig;
use crate::discord::{discord_fields, DiscordNotifier};
use crate::email::{html_of, EmailNotifier};
use crate::error::NotificationError;
use crate::payload::{json_of_payload, merge_fields};
use crate::slack::{slack_fields, SlackNotifier};
use crate::telegram::{telegram_fields, telegram_formatted, TelegramNotifier};
use crate::template::{render_spec, VariableMap};
use crate::webhook::{is_http_url, star_wrapped, DeliveryRequest};

verus! {

/// One channel's notifier, behind a closed tagged variant.
pub enum ChannelNotifier {
    Discord(DiscordNotifier),
    Slack(SlackNotifier),
    Telegram(TelegramNotifier),
    Email(EmailNotifier),
}

impl ChannelNotifier {
    /// Builds the adapter that matches the trigger's channel type. The
    /// variant always matches, so the only error left is an invalid
    /// endpoint.
    pub fn from_config(config: &TriggerTypeConfig) -> (r: Result<
        ChannelNotifier,
        NotificationError,
    >)
        ensures
            r matches Ok(n) ==> match config {
                TriggerTypeConfig::Discord { .. } => n is Discord,
                TriggerTypeConfig::Slack { .. } => n is Slack,
                TriggerTypeConfig::Telegram { .. } => n is Telegram,
                TriggerTypeConfig::Email { .. } => n is Email,
            },
            config matches TriggerTypeConfig::Discord { discord_url, .. } ==> (r is Ok
                <==> is_http_url(discord_url@)),
            config matches TriggerTypeConfig::Slack { slack_url, .. } ==> (r is Ok <==> is_http_url(
                slack_url@,
            )),
            config is Telegram ==> r is Ok,
            config is Email ==> r is Ok,
            r is Err ==> r->Err_0 is ConfigError,
    {
        match config {
            TriggerTypeConfig::Discord { .. } => match DiscordNotifier::from_config(config) {
                Ok(n) => Ok(ChannelNotifier::Discord(n)),
                Err(e) => Err(e),
            },
            TriggerTypeConfig::Slack { .. } => match SlackNotifier::from_config(config) {
                Ok(n) => Ok(ChannelNotifier::Slack(n)),
                Err(e) => Err(e),
            },
            TriggerTypeConfig::Telegram { .. } => match TelegramNotifier::from_config(config) {
                Ok(n) => Ok(ChannelNotifier::Telegram(n)),
                Err(e) => Err(e),
            },
            TriggerTypeConfig::Email { .. } => match EmailNotifier::from_config(config) {
                Ok(n) => Ok(ChannelNotifier::Email(n)),
                Err(e) => Err(e),
            },
        }
    }

    /// Formats a message for the channel: each adapter's own wrapping and
    /// escaping over the shared renderer.
    pub fn format_message(&self, variables: &VariableMap) -> (r: String)
        ensures
            r@ == match self {
                ChannelNotifier::Discord(d) => star_wrapped(
                    d.inner.title@,
                    render_spec(d.inner.body_template@, variables@),
                ),
                ChannelNotifier::Slack(s) => star_wrapped(
                    s.inner.title@,
                    render_spec(s.inner.body_template@, variables@),
                ),
                ChannelNotifier::Telegram(t) => telegram_formatted(
                    t.inner.title@,
                    t.inner.body_template@,
                    variables@,
                ),
                ChannelNotifier::Email(e) => html_of(
                    render_spec(e.body_template@, variables@),
                ),
            },
    {
        match self {
            ChannelNotifier::Discord(d) => d.format_message(variables),
            ChannelNotifier::Slack(s) => s.format_message(variables),
            ChannelNotifier::Telegram(t) => t.format_message(variables),
            ChannelNotifier::Email(e) => e.format_message(variables),
        }
    }

    /// The one outbound request that delivers `message` over a webhook
    /// channel; an email delivery has no webhook request and is built by the
    /// mail transport instead.
    pub fn notify_request(&self, message: &str) -> (r: Option<DeliveryRequest>)
        ensures
            r is Some <==> !(self is Email),
            r matches Some(req) ==> match self {
                ChannelNotifier::Discord(d) => req.url@ == d.inner.url@ && req.body@
                    == json_of_payload(
                    merge_fields(d.inner.payload_fields@, discord_fields(message@)),
                ),
                ChannelNotifier::Slack(s) => req.url@ == s.inner.url@ && req.body@
                    == json_of_payload(
                    merge_fields(s.inner.payload_fields@, slack_fields(message@)),
                ),
                ChannelNotifier::Telegram(t) => req.url@ == t.inner.url@ && req.body@
                    == json_of_payload(
                    merge_fields(
                        t.inner.payload_fields@,
                        telegram_fields(message@, t.disable_web_preview),
                    ),
                ),
                ChannelNotifier::Email(_) => false,
            },
    {
        match self {
            ChannelNotifier::Discord(d) => Some(d.notify_request(message)),
            ChannelNotifier::Slack(s) => Some(s.notify_request(message)),
            ChannelNotifier::Telegram(t) => Some(t.notify_request(message)),
            ChannelNotifier::Email(_) => None,
        }
    }
}

} // verus!
