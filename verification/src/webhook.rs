//! The generic webhook delivery engine.
//!
//! A webhook notifier holds one channel's endpoint and message
//! configuration. Per notification it renders the template, composes the
//! outbound payload from the configured static fields and the adapter's
//! dynamic fields, serializes it, signs it when a secret is configured, and
//! hands one ready request to the transport.

use vstd::prelude::*;
use vstd::string::*;
use crate::chars::str_to_chars;
use crate::error::NotificationError;
use crate::payload::{compose, json_of_payload, merge_fields, serialize_payload, Payload};
use crate::signing::{sign_payload, signature_of};
use crate::template::{render, render_spec, VariableMap};

verus! {

/// Whether a url names an HTTP or HTTPS endpoint, the only endpoints a
/// webhook can be delivered to.
pub open spec fn is_http_url(s: Seq<char>) -> bool {
    ||| (s.len() >= 7 && s.subrange(0, 7) == "http://"@)
    ||| (s.len() >= 8 && s.subrange(0, 8) == "https://"@)
}

/// Checks that a url names an HTTP or HTTPS endpoint.
pub fn check_http_url(url: &str) -> (r: bool)
    ensures
        r == is_http_url(url@),
{
    proof {
        reveal_strlit("http://");
        reveal_strlit("https://");
    }
    let t = str_to_chars(url);
    let n = t.len();
    if n >= 7 && t[0] == 'h' && t[1] == 't' && t[2] == 't' && t[3] == 'p' {
        if t[4] == ':' && t[5] == '/' && t[6] == '/' {
            proof {
                assert(t@.subrange(0, 7) =~= "http://"@);
            }
            return true;
        }
        if n >= 8 && t[4] == 's' && t[5] == ':' && t[6] == '/' && t[7] == '/' {
            proof {
                assert(t@.subrange(0, 8) =~= "https://"@);
            }
            return true;
        }
    }
    proof {
        let s = t@;
        if s.len() >= 7 && s.subrange(0, 7) == "http://"@ {
            assert(s.subrange(0, 7)[0] == s[0]);
            assert(s.subrange(0, 7)[1] == s[1]);
            assert(s.subrange(0, 7)[2] == s[2]);
            assert(s.subrange(0, 7)[3] == s[3]);
            assert(s.subrange(0, 7)[4] == s[4]);
            assert(s.subrange(0, 7)[5] == s[5]);
            assert(s.subrange(0, 7)[6] == s[6]);
        }
        if s.len() >= 8 && s.subrange(0, 8) == "https://"@ {
            assert(s.subrange(0, 8)[0] == s[0]);
            assert(s.subrange(0, 8)[1] == s[1]);
            assert(s.subrange(0, 8)[2] == s[2]);
            assert(s.subrange(0, 8)[3] == s[3]);
            assert(s.subrange(0, 8)[4] == s[4]);
            assert(s.subrange(0, 8)[5] == s[5]);
            assert(s.subrange(0, 8)[6] == s[6]);
            assert(s.subrange(0, 8)[7] == s[7]);
        }
        assert(!is_http_url(url@));
    }
    false
}

/// The configuration of one webhook channel. An absent method means POST;
/// an absent signature header name means `X-Signature`.
pub struct WebhookConfig {
    pub url: String,
    pub url_params: Option<Vec<(String, String)>>,
    pub title: String,
    pub body_template: String,
    pub method: Option<String>,
    pub secret: Option<String>,
    pub signature_header: Option<String>,
    pub headers: Option<Vec<(String, String)>>,
    pub payload_fields: Option<Payload>,
}

/// The name/value pairs that a header or parameter list denotes.
pub open spec fn pairs_view(s: Seq<(String, String)>) -> Seq<(Seq<char>, Seq<char>)> {
    s.map_values(|p: (String, String)| (p.0@, p.1@))
}

/// The method a configuration resolves to: the configured one, or POST.
pub open spec fn resolved_method(m: Option<String>) -> Seq<char> {
    match m {
        Some(s) => s@,
        None => "POST"@,
    }
}

/// The signature header name a configuration resolves to.
pub open spec fn resolved_signature_header(h: Option<String>) -> Seq<char> {
    match h {
        Some(s) => s@,
        None => "X-Signature"@,
    }
}

/// One ready outbound request: everything the transport needs to perform
/// the call.
#[derive(Debug)]
pub struct DeliveryRequest {
    pub url: String,
    pub method: String,
    pub headers: Vec<(String, String)>,
    pub body: String,
}

/// A webhook notifier: one channel's validated endpoint and message
/// configuration, immutable for its lifetime.
#[derive(Debug)]
pub struct WebhookNotifier {
    /// The endpoint url.
    pub url: String,
    /// Optional url parameters; kept as configured.
    pub url_params: Option<Vec<(String, String)>>,
    /// The message title.
    pub title: String,
    /// The message body template.
    pub body_template: String,
    /// The HTTP method, POST unless configured otherwise.
    pub method: String,
    /// The signing secret, if the channel signs its requests.
    pub secret: Option<String>,
    /// The header the signature is sent in.
    pub signature_header: String,
    /// Static headers sent with every request.
    pub headers: Vec<(String, String)>,
    /// Static payload fields copied into every request body.
    pub payload_fields: Payload,
}

impl WebhookNotifier {
    /// Builds a notifier from a configuration. A url that is not an HTTP or
    /// HTTPS endpoint is a configuration error; an absent method means
    /// POST.
    pub fn new(config: WebhookConfig) -> (r: Result<WebhookNotifier, NotificationError>)
        ensures
            r is Ok <==> is_http_url(config.url@),
            r is Err ==> r->Err_0 is ConfigError,
            r matches Ok(w) ==> {
                &&& w.url@ == config.url@
                &&& w.url_params == config.url_params
                &&& w.title@ == config.title@
                &&& w.body_template@ == config.body_template@
                &&& w.method@ == resolved_method(config.method)
                &&& w.secret == config.secret
                &&& w.signature_header@ == resolved_signature_header(config.signature_header)
                &&& w.headers@ == (match config.headers {
                    Some(h) => h@,
                    None => Seq::<(String, String)>::empty(),
                })
                &&& w.payload_fields@ == (match config.payload_fields {
                    Some(p) => p@,
                    None => Seq::<(Seq<char>, crate::payload::FieldValueModel)>::empty(),
                })
            },
    {
        if !check_http_url(config.url.as_str()) {
            return Err(
                NotificationError::config_error(String::from_str("invalid webhook url")),
            );
        }
        let method = match config.method {
            Some(m) => m,
            None => String::from_str("POST"),
        };
        let signature_header = match config.signature_header {
            Some(h) => h,
            None => String::from_str("X-Signature"),
        };
        let headers = match config.headers {
            Some(h) => h,
            None => Vec::new(),
        };
        let payload_fields = match config.payload_fields {
            Some(p) => p,
            None => Payload::new(),
        };
        Ok(
            WebhookNotifier {
                url: config.url,
                url_params: config.url_params,
                title: config.title,
                body_template: config.body_template,
                method,
                secret: config.secret,
                signature_header,
                headers,
                payload_fields,
            },
        )
    }

    /// Substitutes the variables into the body template.
    pub fn format_message(&self, variables: &VariableMap) -> (r: String)
        ensures
            r@ == render_spec(self.body_template@, variables@),
    {
        render(self.body_template.as_str(), variables)
    }

    /// Composes, serializes and (when a secret is configured) signs the
    /// outbound request that delivers the given dynamic payload fields: the
    /// body is the canonical JSON of the configured static fields overlaid
    /// by `extra`, and the signature over that body is appended to the
    /// configured headers.
    pub fn prepare_request(&self, extra: &Payload) -> (req: DeliveryRequest)
        ensures
            req.url@ == self.url@,
            req.method@ == self.method@,
            req.body@ == json_of_payload(merge_fields(self.payload_fields@, extra@)),
            pairs_view(req.headers@) == pairs_view(self.headers@) + (match self.secret {
                Some(sec) => seq![
                    (
                        self.signature_header@,
                        signature_of(sec@, json_of_payload(merge_fields(self.payload_fields@, extra@))),
                    ),
                ],
                None => Seq::<(Seq<char>, Seq<char>)>::empty(),
            }),
    {
        let merged = compose(&self.payload_fields, extra);
        let body = serialize_payload(&merged);
        let mut headers = clone_pairs(&self.headers);
        match &self.secret {
            Some(sec) => {
                let signature = sign_payload(sec.as_str(), body.as_str());
                let ghost hv = headers@;
                headers.push((self.signature_header.clone(), signature));
                proof {
                    assert(pairs_view(headers@) =~~= pairs_view(hv) + seq![
                        (
                            self.signature_header@,
                            signature_of(
                                self.secret->0@,
                                json_of_payload(merge_fields(self.payload_fields@, extra@)),
                            ),
                        ),
                    ]);
                }
            },
            None => {
                proof {
                    assert(pairs_view(headers@) =~~= pairs_view(self.headers@)
                        + Seq::<(Seq<char>, Seq<char>)>::empty());
                }
            },
        }
        DeliveryRequest { url: self.url.clone(), method: self.method.clone(), headers, body }
    }
}

/// A copy of a header list.
fn clone_pairs(s: &Vec<(String, String)>) -> (r: Vec<(String, String)>)
    ensures
        r@ == s@,
{
    let n = s.len();
    let mut r: Vec<(String, String)> = Vec::new();
    let mut i: usize = 0;
    while i < n
        invariant
            n == s@.len(),
            i <= n,
            r@ == s@.subrange(0, i as int),
        decreases n - i,
    {
        r.push((s[i].0.clone(), s[i].1.clone()));
        i = i + 1;
        proof {
            assert(r@ =~= s@.subrange(0, i as int));
        }
    }
    proof {
        assert(r@ =~= s@);
    }
    r
}

/// The text Discord and Slack messages wrap the title and rendered body in:
/// a starred title, a blank line, the body.
pub open spec fn star_wrapped(title: Seq<char>, body: Seq<char>) -> Seq<char> {
    seq!['*'] + title + seq!['*', '\n', '\n'] + body
}

/// Wraps a title and a rendered body as `*title*`, a blank line, the body.
pub fn wrap_title_body(title: &str, body: &str) -> (r: String)
    ensures
        r@ == star_wrapped(title@, body@),
{
    proof {
        reveal_strlit("*");
        reveal_strlit("*\n\n");
    }
    let mut out = String::from_str("*");
    out.append(title);
    out.append("*\n\n");
    out.append(body);
    proof {
        assert(out@ =~= star_wrapped(title@, body@));
    }
    out
}

} // verus!
