//! The Slack adapter.
//!
//! Formats a message as a starred title over the rendered body and delivers
//! it to a Slack webhook, whose API expects the full text inside a
//! one-section mrkdwn block list under `blocks`.

use vstd::prelude::*;
use vstd::string::*;
use crate::config::TriggerTypeConfig;
use crate::error::NotificationError;
use crate::payload::{json_of_payload, merge_fields, FieldValue, FieldValueModel, Payload};
use crate::signing::signature_of;
use crate::template::{render_spec, VariableMap};
use crate::webhook::{
    is_http_url,
    pairs_view,
    star_wrapped,
    wrap_title_body,
    DeliveryRequest,
    WebhookConfig,
    WebhookNotifier,
};

verus! {

/// Slack notifications via webhooks.
#[derive(Debug)]
pub struct SlackNotifier {
    pub inner: WebhookNotifier,
}

/// The dynamic fields of one Slack delivery: the full text inside a
/// one-section mrkdwn block list under `blocks`.
pub open spec fn slack_fields(message: Seq<char>) -> Seq<(Seq<char>, FieldValueModel)> {
    seq![("blocks"@, FieldValueModel::SectionBlocks(message))]
}

impl SlackNotifier {
    /// Builds a Slack notifier; a url that is not an HTTP or HTTPS endpoint
    /// is a configuration error.
    pub fn new(url: String, title: String, body_template: String) -> (r: Result<
        SlackNotifier,
        NotificationError,
    >)
        ensures
            r is Ok <==> is_http_url(url@),
            r is Err ==> r->Err_0 is ConfigError,
            r matches Ok(s) ==> {
                &&& s.inner.url@ == url@
                &&& s.inner.title@ == title@
                &&& s.inner.body_template@ == body_template@
                &&& s.inner.method@ == "POST"@
                &&& s.inner.secret is None
                &&& s.inner.headers@ == Seq::<(String, String)>::empty()
                &&& s.inner.payload_fields@ == Seq::<(Seq<char>, FieldValueModel)>::empty()
            },
    {
        let config = WebhookConfig {
            url,
            url_params: None,
            title,
            body_template,
            method: Some(String::from_str("POST")),
            secret: None,
            signature_header: None,
            headers: None,
            payload_fields: None,
        };
        match WebhookNotifier::new(config) {
            Ok(inner) => Ok(SlackNotifier { inner }),
            Err(e) => Err(e),
        }
    }

    /// Renders the body and wraps it under the starred title.
    pub fn format_message(&self, variables: &VariableMap) -> (r: String)
        ensures
            r@ == star_wrapped(
                self.inner.title@,
                render_spec(self.inner.body_template@, variables@),
            ),
    {
        let message = self.inner.format_message(variables);
        wrap_title_body(self.inner.title.as_str(), message.as_str())
    }

    /// The request that delivers `message`: its body is the serialized
    /// payload with the full text inside the block list under `blocks`.
    pub fn notify_request(&self, message: &str) -> (req: DeliveryRequest)
        ensures
            req.url@ == self.inner.url@,
            req.method@ == self.inner.method@,
            req.body@ == json_of_payload(
                merge_fields(self.inner.payload_fields@, slack_fields(message@)),
            ),
            pairs_view(req.headers@) == pairs_view(self.inner.headers@) + (
            match self.inner.secret {
                Some(sec) => seq![(self.inner.signature_header@, signature_of(sec@, req.body@))],
                None => Seq::<(Seq<char>, Seq<char>)>::empty(),
            }),
    {
        let mut extra = Payload::new();
        extra.push_field(
            String::from_str("blocks"),
            FieldValue::SectionBlocks(String::from_str(message)),
        );
        proof {
            assert(extra@ =~~= slack_fields(message@));
        }
        self.inner.prepare_request(&extra)
    }

    /// Builds a Slack notifier from a trigger configuration; a trigger of
    /// any other channel type is a configuration error.
    pub fn from_config(config: &TriggerTypeConfig) -> (r: Result<SlackNotifier, NotificationError>)
        ensures
            r is Ok <==> (config matches TriggerTypeConfig::Slack { slack_url, .. } && is_http_url(
                slack_url@,
            )),
            r is Err ==> r->Err_0 is ConfigError,
            r matches Ok(s) ==> (config matches TriggerTypeConfig::Slack { slack_url, message, .. }
                && {
                &&& s.inner.url@ == slack_url@
                &&& s.inner.title@ == message.title@
                &&& s.inner.body_template@ == message.body@
                &&& s.inner.method@ == "POST"@
                &&& s.inner.secret is None
                &&& s.inner.payload_fields@ == Seq::<(Seq<char>, FieldValueModel)>::empty()
            }),
    {
        if let TriggerTypeConfig::Slack { slack_url, message, .. } = config {
            Self::new(slack_url.clone(), message.title.clone(), message.body.clone())
        } else {
            Err(
                NotificationError::config_error(String::from_str("invalid slack configuration")),
            )
        }
    }
}

} // verus!
