//! The email adapter.
//!
//! Email notifications render the same templates as the chat channels, then
//! convert the rendered Markdown to HTML; building the mail message and the
//! SMTP handoff belong to the mail transport outside this crate.

use vstd::prelude::*;
use vstd::string::*;
use crate::chars::{chars_to_string, str_to_chars};
use crate::config::TriggerTypeConfig;
use crate::error::NotificationError;
use crate::template::{render, render_spec, VariableMap};

verus! {

/// Whether a string is a well-formed email address.
pub uninterp spec fn is_email_address(s: Seq<char>) -> bool;

/// Relies on `email_address::EmailAddress::is_valid`: validity is a function
/// of the string alone.
#[verifier::external_body]
fn check_email_address(s: &str) -> (r: bool)
    ensures
        r == is_email_address(s@),
{
    email_address::EmailAddress::is_valid(s)
}

/// A validated email address.
#[derive(Debug)]
pub struct EmailAddr {
    address: String,
}

impl View for EmailAddr {
    type V = Seq<char>;

    closed spec fn view(&self) -> Seq<char> {
        self.address@
    }
}

impl EmailAddr {
    /// Whether the held string is a well-formed address; every constructed
    /// value satisfies it.
    pub closed spec fn wf(&self) -> bool {
        is_email_address(self.address@)
    }

    /// Validates a string as an email address; a string the validator
    /// rejects yields a configuration error.
    pub fn parse(address: String) -> (r: Result<EmailAddr, NotificationError>)
        ensures
            r is Ok <==> is_email_address(address@),
            r is Ok ==> r->Ok_0@ == address@ && r->Ok_0.wf(),
            r is Err ==> r->Err_0 is ConfigError,
    {
        if check_email_address(address.as_str()) {
            Ok(EmailAddr { address })
        } else {
            Err(
                NotificationError::config_error(
                    String::from_str("invalid email address"),
                ),
            )
        }
    }

    /// The address as text.
    pub fn as_str(&self) -> (s: &str)
        ensures
            s@ == self@,
    {
        self.address.as_str()
    }
}

impl Clone for EmailAddr {
    /// A copy of the same address.
    fn clone(&self) -> (r: Self)
        ensures
            r == *self,
    {
        EmailAddr { address: self.address.clone() }
    }
}

/// Configuration for an SMTP connection; the connection itself lives with
/// the mail transport.
#[derive(Clone, Debug, Hash, Eq, PartialEq)]
pub struct SmtpConfig {
    pub host: String,
    pub port: u16,
    pub username: String,
    pub password: String,
}

/// Configuration for the content of email notifications.
pub struct EmailContent {
    pub subject: String,
    pub body_template: String,
    pub sender: EmailAddr,
    pub recipients: Vec<EmailAddr>,
}

/// The email notifier: subject, template and addressing. The SMTP client
/// that delivers the built message is the mail transport's, outside this
/// crate.
#[derive(Debug)]
pub struct EmailNotifier {
    /// Email subject.
    pub subject: String,
    /// Message template with variable placeholders.
    pub body_template: String,
    /// Email sender.
    pub sender: EmailAddr,
    /// Email recipients.
    pub recipients: Vec<EmailAddr>,
}

/// The HTML that the Markdown converter yields for a text.
pub uninterp spec fn html_of(md: Seq<char>) -> Seq<char>;

/// The addresses of a recipient list, in order.
pub open spec fn addrs_view(s: Seq<EmailAddr>) -> Seq<Seq<char>> {
    s.map_values(|a: EmailAddr| a@)
}

/// The recipient addresses from `pos` on, joined with a comma and a space.
pub open spec fn joined_from(rs: Seq<Seq<char>>, pos: int) -> Seq<char>
    decreases rs.len() - pos,
        when 0 <= pos <= rs.len()
{
    if pos >= rs.len() {
        Seq::empty()
    } else {
        (if pos > 0 {
            ", "@
        } else {
            Seq::<char>::empty()
        }) + rs[pos] + joined_from(rs, pos + 1)
    }
}

impl EmailNotifier {
    /// Builds a notifier from its content configuration.
    pub fn new(email_content: EmailContent) -> (r: Result<EmailNotifier, NotificationError>)
        ensures
            r is Ok,
            r->Ok_0.subject@ == email_content.subject@,
            r->Ok_0.body_template@ == email_content.body_template@,
            r->Ok_0.sender@ == email_content.sender@,
            addrs_view(r->Ok_0.recipients@) == addrs_view(email_content.recipients@),
    {
        Ok(
            EmailNotifier {
                subject: email_content.subject,
                body_template: email_content.body_template,
                sender: email_content.sender,
                recipients: email_content.recipients,
            },
        )
    }

    /// Renders the body template and converts the result to HTML.
    pub fn format_message(&self, variables: &VariableMap) -> (r: String)
        ensures
            r@ == html_of(render_spec(self.body_template@, variables@)),
    {
        let formatted_message = render(self.body_template.as_str(), variables);
        Self::markdown_to_html(formatted_message.as_str())
    }

    /// Relies on `pulldown_cmark::Parser::new_ext` and
    /// `pulldown_cmark::html::push_html`: the conversion of a Markdown text
    /// to HTML, with all extensions enabled, is a function of the text
    /// alone.
    #[verifier::external_body]
    pub fn markdown_to_html(md: &str) -> (r: String)
        ensures
            r@ == html_of(md@),
    {
        let opts = pulldown_cmark::Options::all();
        let parser = pulldown_cmark::Parser::new_ext(md, opts);
        let mut html_out = String::new();
        pulldown_cmark::html::push_html(&mut html_out, parser);
        html_out
    }

    /// Builds an email notifier from a trigger configuration; a trigger of
    /// any other channel type is a configuration error.
    pub fn from_config(config: &TriggerTypeConfig) -> (r: Result<EmailNotifier, NotificationError>)
        ensures
            r is Ok <==> config is Email,
            r is Err ==> r->Err_0 is ConfigError,
            config matches TriggerTypeConfig::Email { message, sender, recipients, .. } ==> {
                &&& r->Ok_0.subject@ == message.title@
                &&& r->Ok_0.body_template@ == message.body@
                &&& r->Ok_0.sender@ == sender@
                &&& addrs_view(r->Ok_0.recipients@) == addrs_view(recipients@)
            },
    {
        if let TriggerTypeConfig::Email { message, sender, recipients, .. } = config {
            let email_content = EmailContent {
                subject: message.title.clone(),
                body_template: message.body.clone(),
                sender: sender.clone(),
                recipients: clone_addrs(recipients),
            };
            Self::new(email_content)
        } else {
            Err(
                NotificationError::config_error(
                    String::from_str("invalid email configuration"),
                ),
            )
        }
    }

    /// The recipient addresses joined with a comma and a space, the line a
    /// mail header lists them on.
    pub fn recipients_line(&self) -> (r: String)
        ensures
            r@ == joined_from(addrs_view(self.recipients@), 0),
    {
        let ghost rs = addrs_view(self.recipients@);
        let n = self.recipients.len();
        let mut out: Vec<char> = Vec::new();
        let mut i: usize = 0;
        while i < n
            invariant
                n == self.recipients@.len(),
                rs == addrs_view(self.recipients@),
                rs.len() == n,
                i <= n,
                joined_from(rs, 0) == out@ + joined_from(rs, i as int),
            decreases n - i,
        {
            proof {
                assert(rs[i as int] == self.recipients@[i as int]@);
            }
            let ghost base = out@;
            if i > 0 {
                let mut sep = str_to_chars(", ");
                out.append(&mut sep);
            }
            let mut addr = str_to_chars(self.recipients[i].as_str());
            out.append(&mut addr);
            proof {
                assert(out@ =~= base + (if i > 0 {
                    ", "@
                } else {
                    Seq::<char>::empty()
                }) + rs[i as int]);
                assert(joined_from(rs, 0) =~= out@ + joined_from(rs, i + 1 as int));
            }
            i = i + 1;
        }
        proof {
            assert(joined_from(rs, 0) =~= out@);
        }
        chars_to_string(&out)
    }
}

/// A copy of a recipient list.
fn clone_addrs(s: &Vec<EmailAddr>) -> (r: Vec<EmailAddr>)
    ensures
        r@ == s@,
{
    let n = s.len();
    let mut r: Vec<EmailAddr> = Vec::new();
    let mut i: usize = 0;
    while i < n
        invariant
            n == s@.len(),
            i <= n,
            r@ == s@.subrange(0, i as int),
        decreases n - i,
    {
        r.push(s[i].clone());
        i = i + 1;
        proof {
            assert(r@ =~= s@.subrange(0, i as int));
        }
    }
    proof {
        assert(r@ =~= s@);
    }
    r
}

} // verus!
