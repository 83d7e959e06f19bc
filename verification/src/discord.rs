//! The Discord adapter.
//!
//! Formats a message as a starred title over the rendered body and delivers
//! it to a Discord webhook, whose API expects the full text in one `content`
//! field.

use vstd::prelude::*;
use vstd::string::*;
use crate::config::TriggerTypeConfig;
use crate::error::NotificationError;
use crate::payload::{json_of_payload, merge_fields, FieldValue, FieldValueModel, Payload};
use crate::signing::signature_of;
use crate::template::{render_spec, VariableMap};
use crate::webhook::{
    is_http_url,
    pairs_view,
    star_wrapped,
    wrap_title_body,
    DeliveryRequest,
    WebhookConfig,
    WebhookNotifier,
};

verus! {

/// Discord notifications via webhooks.
#[derive(Debug)]
pub struct DiscordNotifier {
    pub inner: WebhookNotifier,
}

/// The dynamic fields of one Discord delivery: the full text under
/// `content`.
pub open spec fn discord_fields(message: Seq<char>) -> Seq<(Seq<char>, FieldValueModel)> {
    seq![("content"@, FieldValueModel::Text(message))]
}

impl DiscordNotifier {
    /// Builds a Discord notifier; a url that is not an HTTP or HTTPS
    /// endpoint is a configuration error.
    pub fn new(url: String, title: String, body_template: String) -> (r: Result<
        DiscordNotifier,
        NotificationError,
    >)
        ensures
            r is Ok <==> is_http_url(url@),
            r is Err ==> r->Err_0 is ConfigError,
            r matches Ok(d) ==> {
                &&& d.inner.url@ == url@
                &&& d.inner.title@ == title@
                &&& d.inner.body_template@ == body_template@
                &&& d.inner.method@ == "POST"@
                &&& d.inner.secret is None
                &&& d.inner.headers@ == Seq::<(String, String)>::empty()
                &&& d.inner.payload_fields@ == Seq::<(Seq<char>, FieldValueModel)>::empty()
            },
    {
        let config = WebhookConfig {
            url,
            url_params: None,
            title,
            body_template,
            method: Some(String::from_str("POST")),
            secret: None,
            signature_header: None,
            headers: None,
            payload_fields: None,
        };
        match WebhookNotifier::new(config) {
            Ok(inner) => Ok(DiscordNotifier { inner }),
            Err(e) => Err(e),
        }
    }

    /// Renders the body and wraps it under the starred title.
    pub fn format_message(&self, variables: &VariableMap) -> (r: String)
        ensures
            r@ == star_wrapped(
                self.inner.title@,
                render_spec(self.inner.body_template@, variables@),
            ),
    {
        let message = self.inner.format_message(variables);
        wrap_title_body(self.inner.title.as_str(), message.as_str())
    }

    /// The request that delivers `message`: its body is the serialized
    /// payload with the full text in the `content` field.
    pub fn notify_request(&self, message: &str) -> (req: DeliveryRequest)
        ensures
            req.url@ == self.inner.url@,
            req.method@ == self.inner.method@,
            req.body@ == json_of_payload(
                merge_fields(self.inner.payload_fields@, discord_fields(message@)),
            ),
            pairs_view(req.headers@) == pairs_view(self.inner.headers@) + (
            match self.inner.secret {
                Some(sec) => seq![(self.inner.signature_header@, signature_of(sec@, req.body@))],
                None => Seq::<(Seq<char>, Seq<char>)>::empty(),
            }),
    {
        let mut extra = Payload::new();
        extra.push_field(String::from_str("content"), FieldValue::Text(String::from_str(message)));
        proof {
            assert(extra@ =~~= discord_fields(message@));
        }
        self.inner.prepare_request(&extra)
    }

    /// Builds a Discord notifier from a trigger configuration; a trigger of
    /// any other channel type is a configuration error.
    pub fn from_config(config: &TriggerTypeConfig) -> (r: Result<
        DiscordNotifier,
        NotificationError,
    >)
        ensures
            r is Ok <==> (config matches TriggerTypeConfig::Discord { discord_url, .. }
                && is_http_url(discord_url@)),
            r is Err ==> r->Err_0 is ConfigError,
            r matches Ok(d) ==> (config matches TriggerTypeConfig::Discord {
                discord_url,
                message,
                ..
            } && {
                &&& d.inner.url@ == discord_url@
                &&& d.inner.title@ == message.title@
                &&& d.inner.body_template@ == message.body@
                &&& d.inner.method@ == "POST"@
                &&& d.inner.secret is None
                &&& d.inner.payload_fields@ == Seq::<(Seq<char>, FieldValueModel)>::empty()
            }),
    {
        if let TriggerTypeConfig::Discord { discord_url, message, .. } = config {
            Self::new(discord_url.clone(), message.title.clone(), message.body.clone())
        } else {
            Err(
                NotificationError::config_error(
                    String::from_str("invalid discord configuration"),
                ),
            )
        }
    }
}

} // verus!
