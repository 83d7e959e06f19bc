//! The Telegram adapter.
//!
//! Renders the body, escapes the rendered body and the title independently
//! for MarkdownV2 — strictly after substitution, so values injected from
//! monitored data are escaped too — and delivers the text to the bot API's
//! `sendMessage` endpoint, built from a base url and the bot token.

use vstd::prelude::*;
use vstd::string::*;
use crate::config::TriggerTypeConfig;
use crate::error::NotificationError;
use crate::markdown::{escape_markdown, escape_spec};
use crate::payload::{json_of_payload, merge_fields, FieldValue, FieldValueModel, Payload};
use crate::signing::signature_of;
use crate::template::{render_spec, VariableMap};
use crate::webhook::{is_http_url, pairs_view, DeliveryRequest, WebhookConfig, WebhookNotifier};

verus! {

/// Telegram notifications via the bot HTTP API.
#[derive(Debug)]
pub struct TelegramNotifier {
    pub inner: WebhookNotifier,
    /// Disable the web page preview on sent messages.
    pub disable_web_preview: bool,
}

/// The bot API base url used when none is configured.
pub open spec fn default_api_base() -> Seq<char> {
    "https://api.telegram.org"@
}

/// The base url a configuration resolves to.
pub open spec fn resolved_base(base_url: Option<String>) -> Seq<char> {
    match base_url {
        Some(b) => b@,
        None => default_api_base(),
    }
}

/// The `sendMessage` endpoint of a bot under a base url.
pub open spec fn telegram_url(base: Seq<char>, token: Seq<char>) -> Seq<char> {
    base + "/bot"@ + token + "/sendMessage"@
}

/// The static payload fields every Telegram request carries: the chat and
/// the MarkdownV2 parse mode.
pub open spec fn telegram_static_fields(chat_id: Seq<char>) -> Seq<(Seq<char>, FieldValueModel)> {
    seq![
        ("chat_id"@, FieldValueModel::Text(chat_id)),
        ("parse_mode"@, FieldValueModel::Text("MarkdownV2"@)),
    ]
}

/// The dynamic fields of one Telegram delivery: the escaped text and the
/// web preview toggle.
pub open spec fn telegram_fields(message: Seq<char>, disable_web_preview: bool) -> Seq<
    (Seq<char>, FieldValueModel),
> {
    seq![
        ("text"@, FieldValueModel::Text(message)),
        ("disable_web_page_preview"@, FieldValueModel::Flag(disable_web_preview)),
    ]
}

/// What a formatted Telegram message looks like: the escaped title starred,
/// a space, a blank line, the escaped rendered body.
pub open spec fn telegram_formatted(
    title: Seq<char>,
    body_template: Seq<char>,
    vars: Map<Seq<char>, Seq<char>>,
) -> Seq<char> {
    seq!['*'] + escape_spec(title) + seq!['*', ' ', '\n', '\n'] + escape_spec(
        render_spec(body_template, vars),
    )
}

impl TelegramNotifier {
    /// Builds a Telegram notifier. The endpoint is the base url (the bot
    /// API's when none is given) joined with the bot token and
    /// `sendMessage`; a base url that is not an HTTP or HTTPS endpoint is a
    /// configuration error. An absent web preview toggle means the preview
    /// stays on.
    pub fn new(
        base_url: Option<String>,
        token: String,
        chat_id: String,
        disable_web_preview: Option<bool>,
        title: String,
        body_template: String,
    ) -> (r: Result<TelegramNotifier, NotificationError>)
        ensures
            r is Ok <==> is_http_url(telegram_url(resolved_base(base_url), token@)),
            r is Err ==> r->Err_0 is ConfigError,
            r matches Ok(t) ==> {
                &&& t.inner.url@ == telegram_url(resolved_base(base_url), token@)
                &&& t.inner.title@ == title@
                &&& t.inner.body_template@ == body_template@
                &&& t.inner.method@ == "POST"@
                &&& t.inner.secret is None
                &&& t.inner.payload_fields@ == telegram_static_fields(chat_id@)
                &&& t.disable_web_preview == (disable_web_preview is Some
                    && disable_web_preview->0)
            },
    {
        let mut url = match base_url {
            Some(b) => b,
            None => String::from_str("https://api.telegram.org"),
        };
        url.append("/bot");
        url.append(token.as_str());
        url.append("/sendMessage");
        let mut payload_fields = Payload::new();
        payload_fields.push_field(String::from_str("chat_id"), FieldValue::Text(chat_id));
        payload_fields.push_field(
            String::from_str("parse_mode"),
            FieldValue::Text(String::from_str("MarkdownV2")),
        );
        proof {
            assert(payload_fields@ =~~= telegram_static_fields(chat_id@));
        }
        let config = WebhookConfig {
            url,
            url_params: None,
            title,
            body_template,
            method: Some(String::from_str("POST")),
            secret: None,
            signature_header: None,
            headers: None,
            payload_fields: Some(payload_fields),
        };
        let disable = match disable_web_preview {
            Some(b) => b,
            None => false,
        };
        match WebhookNotifier::new(config) {
            Ok(inner) => Ok(TelegramNotifier { inner, disable_web_preview: disable }),
            Err(e) => Err(e),
        }
    }

    /// Renders the body, escapes the rendered body and the title
    /// independently, and wraps them as a starred title over the body.
    pub fn format_message(&self, variables: &VariableMap) -> (r: String)
        ensures
            r@ == telegram_formatted(self.inner.title@, self.inner.body_template@, variables@),
    {
        let message = self.inner.format_message(variables);
        let escaped_message = Self::escape_markdown_v2(message.as_str());
        let escaped_title = Self::escape_markdown_v2(self.inner.title.as_str());
        proof {
            reveal_strlit("*");
            reveal_strlit("* \n\n");
        }
        let mut out = String::from_str("*");
        out.append(escaped_title.as_str());
        out.append("* \n\n");
        out.append(escaped_message.as_str());
        proof {
            assert(out@ =~= telegram_formatted(
                self.inner.title@,
                self.inner.body_template@,
                variables@,
            ));
        }
        out
    }

    /// Escapes a full MarkdownV2 message, preserving formatting entities and
    /// escaping every metacharacter of the plain text, link labels and link
    /// urls included.
    pub fn escape_markdown_v2(text: &str) -> (r: String)
        ensures
            r@ == escape_spec(text@),
    {
        escape_markdown(text)
    }

    /// The request that delivers `message`: its body is the serialized
    /// payload holding the chat, the parse mode, the text and the web
    /// preview toggle.
    pub fn notify_request(&self, message: &str) -> (req: DeliveryRequest)
        ensures
            req.url@ == self.inner.url@,
            req.method@ == self.inner.method@,
            req.body@ == json_of_payload(
                merge_fields(
                    self.inner.payload_fields@,
                    telegram_fields(message@, self.disable_web_preview),
                ),
            ),
            pairs_view(req.headers@) == pairs_view(self.inner.headers@) + (
            match self.inner.secret {
                Some(sec) => seq![(self.inner.signature_header@, signature_of(sec@, req.body@))],
                None => Seq::<(Seq<char>, Seq<char>)>::empty(),
            }),
    {
        let mut extra = Payload::new();
        extra.push_field(String::from_str("text"), FieldValue::Text(String::from_str(message)));
        extra.push_field(
            String::from_str("disable_web_page_preview"),
            FieldValue::Flag(self.disable_web_preview),
        );
        proof {
            assert(extra@ =~~= telegram_fields(message@, self.disable_web_preview));
        }
        self.inner.prepare_request(&extra)
    }

    /// Builds a Telegram notifier from a trigger configuration, on the bot
    /// API's base url; a trigger of any other channel type is a
    /// configuration error.
    pub fn from_config(config: &TriggerTypeConfig) -> (r: Result<
        TelegramNotifier,
        NotificationError,
    >)
        ensures
            r is Ok <==> config is Telegram,
            r is Err ==> r->Err_0 is ConfigError,
            r matches Ok(t) ==> (config matches TriggerTypeConfig::Telegram {
                token,
                chat_id,
                disable_web_preview,
                message,
                ..
            } && {
                &&& t.inner.url@ == telegram_url(default_api_base(), token@)
                &&& t.inner.title@ == message.title@
                &&& t.inner.body_template@ == message.body@
                &&& t.inner.method@ == "POST"@
                &&& t.inner.secret is None
                &&& t.inner.payload_fields@ == telegram_static_fields(chat_id@)
                &&& t.disable_web_preview == (disable_web_preview is Some
                    && disable_web_preview->0)
            }),
    {
        if let TriggerTypeConfig::Telegram {
            token,
            chat_id,
            disable_web_preview,
            message,
            ..
        } = config {
            let r = Self::new(
                None,
                token.clone(),
                chat_id.clone(),
                *disable_web_preview,
                message.title.clone(),
                message.body.clone(),
            );
            proof {
                lemma_default_base_is_http(token@);
            }
            r
        } else {
            Err(
                NotificationError::config_error(
                    String::from_str("invalid telegram configuration"),
                ),
            )
        }
    }
}

/// The endpoint built on the bot API's base url is an HTTPS endpoint.
proof fn lemma_default_base_is_http(token: Seq<char>)
    ensures
        is_http_url(telegram_url(default_api_base(), token)),
{
    reveal_strlit("https://api.telegram.org");
    reveal_strlit("https://");
    let u = telegram_url(default_api_base(), token);
    assert(u.subrange(0, 8) =~= "https://"@);
}

} // verus!
