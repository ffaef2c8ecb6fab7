//! The dispatch pipeline: template lookup, variable extraction,
//! substitution, rendering to HTML and plain text, and composition of a
//! deliverable multi-part message.
//!
//! Delivery itself is network I/O and stays with the caller: the
//! transport handle built here is handed out read-only, and a prepared
//! message carries everything a transport needs.

use vstd::prelude::*;

use crate::mail::{subject_spec, template_spec, variables_spec, Mail};
use crate::substitute::{substitute, substitute_spec, GlobalValues};

verus! {

/// What can go wrong between a notification variant and a deliverable
/// message, and, for a delivering caller, during delivery itself.
#[derive(Debug, Clone, PartialEq)]
pub enum MailError {
    /// A variant without a template: unreachable, since the registry is
    /// total, but representable.
    TemplateLookupFailure,
    /// The substituted markup did not render.
    RenderFailure(String),
    /// The rendered HTML could not be converted to plain text.
    TextConversionFailure(String),
    /// Structurally invalid sender or recipient address, or a malformed
    /// multi-part assembly.
    MessageBuildFailure(String),
    /// A transport-level delivery error, including timeouts.
    DeliveryFailure(String),
    /// The transport connection URL could not be understood at
    /// construction time.
    TransportInitFailure(String),
}

/// A display name and an email address, both plain strings. The address
/// is validated structurally when a message is composed, not earlier.
pub struct Contact {
    pub name: Option<String>,
    pub address: String,
}

#[verifier::external_type_specification]
#[verifier::external_body]
pub struct ExMessage(lettre::Message);

#[verifier::external_type_specification]
#[verifier::external_body]
pub struct ExSmtpTransport(lettre::SmtpTransport);

#[verifier::external_type_specification]
#[verifier::external_body]
pub struct ExAddress(lettre::Address);

/// Whether the markup renderer accepts this markup.
pub uninterp spec fn mjml_renders(markup: Seq<char>) -> bool;

/// The HTML document the markup renderer produces for this markup.
pub uninterp spec fn mjml_html(markup: Seq<char>) -> Seq<char>;

/// Whether the HTML-to-text converter accepts this HTML.
pub uninterp spec fn to_text_ok(html: Seq<char>) -> bool;

/// The plain-text rendition of this HTML at a wrap width of 80 columns.
pub uninterp spec fn text_of(html: Seq<char>) -> Seq<char>;

/// Whether this string is a structurally valid email address.
pub uninterp spec fn address_ok(addr: Seq<char>) -> bool;

/// Whether this string is a well-formed transport connection URL.
pub uninterp spec fn smtp_url_ok(url: Seq<char>) -> bool;

/// Relies on `mrml::parse` and `mrml::mjml::Mjml::render`, both with
/// default options: parsing and rendering are deterministic in the
/// markup text alone, and the default include loader resolves nothing,
/// so no outside content is read.
#[verifier::external_body]
fn render_markup(markup: &str) -> (r: Result<String, String>)
    ensures
        r is Ok <==> mjml_renders(markup@),
        r is Ok ==> r->Ok_0@ == mjml_html(markup@),
{
    match mrml::parse(markup) {
        Ok(parsed) => {
            match parsed.element.render(&mrml::prelude::render::RenderOptions::default()) {
                Ok(html) => Ok(html),
                Err(e) => Err(format!("{e}")),
            }
        },
        Err(e) => Err(format!("{e}")),
    }
}

/// Relies on `html2text::from_read` at a fixed wrap width of 80 columns:
/// the conversion is deterministic in the HTML input alone.
#[verifier::external_body]
fn html_to_text(html: &str) -> (r: Result<String, String>)
    ensures
        r is Ok <==> to_text_ok(html@),
        r is Ok ==> r->Ok_0@ == text_of(html@),
{
    match html2text::from_read(html.as_bytes(), 80) {
        Ok(text) => Ok(text),
        Err(e) => Err(format!("{e}")),
    }
}

/// Relies on `lettre::Address`'s `FromStr`: a pure structural check of
/// the `user@domain` shape, deterministic in the string alone.
#[verifier::external_body]
fn parse_address(addr: &str) -> (r: Result<lettre::Address, String>)
    ensures
        r is Ok <==> address_ok(addr@),
{
    match addr.parse::<lettre::Address>() {
        Ok(a) => Ok(a),
        Err(e) => Err(format!("{e}")),
    }
}

/// Relies on `lettre::message::Mailbox::new`,
/// `lettre::message::MultiPart::alternative_plain_html` and the
/// `lettre::Message` builder: with one `from` mailbox, one `to` mailbox
/// and a subject set, assembly of a two-part alternative message always
/// succeeds (its only failure modes are a missing or duplicated
/// originator and a missing recipient).
#[verifier::external_body]
fn compose_message(
    sender_name: &str,
    sender: lettre::Address,
    recipient_name: &Option<String>,
    recipient: lettre::Address,
    subject: &str,
    text: &str,
    html: &str,
) -> (r: Result<lettre::Message, String>)
    ensures
        r is Ok,
{
    let from = lettre::message::Mailbox::new(Some(sender_name.to_owned()), sender);
    let to = lettre::message::Mailbox::new(recipient_name.clone(), recipient);
    let part = lettre::message::MultiPart::alternative_plain_html(text.to_owned(), html.to_owned());
    match lettre::Message::builder().from(from).to(to).subject(subject).multipart(part) {
        Ok(m) => Ok(m),
        Err(e) => Err(format!("{e}")),
    }
}

/// Relies on `lettre::SmtpTransport::from_url`, a deterministic parse of
/// the connection URL, and on the builder's `timeout` and `build`, which
/// only record configuration and open no connection.
#[verifier::external_body]
fn build_transport(url: &str, timeout_ms: u64) -> (r: Result<lettre::SmtpTransport, String>)
    ensures
        r is Ok <==> smtp_url_ok(url@),
{
    match lettre::SmtpTransport::from_url(url) {
        Ok(b) => Ok(b.timeout(Some(std::time::Duration::from_millis(timeout_ms))).build()),
        Err(e) => Err(format!("{e}")),
    }
}

/// The two renditions of a substituted markup document.
pub struct Rendered {
    pub html: String,
    pub text: String,
}

/// Feeds substituted markup through the markup renderer, then derives the
/// plain-text rendition from the HTML at a fixed wrap width of 80
/// columns. A render failure is propagated unchanged, never retried or
/// repaired.
pub fn render(markup: &str) -> (r: Result<Rendered, MailError>)
    ensures
        !mjml_renders(markup@) ==> r is Err && r->Err_0 is RenderFailure,
        mjml_renders(markup@) && !to_text_ok(mjml_html(markup@)) ==> r is Err
            && r->Err_0 is TextConversionFailure,
        mjml_renders(markup@) && to_text_ok(mjml_html(markup@)) ==> r is Ok && r->Ok_0.html@
            == mjml_html(markup@) && r->Ok_0.text@ == text_of(mjml_html(markup@)),
{
    match render_markup(markup) {
        Ok(html) => {
            match html_to_text(html.as_str()) {
                Ok(text) => Ok(Rendered { html, text }),
                Err(e) => Err(MailError::TextConversionFailure(e)),
            }
        },
        Err(e) => Err(MailError::RenderFailure(e)),
    }
}

/// A fully prepared outgoing email: the subject and both body renditions
/// as the contracts speak of them, plus the assembled message a transport
/// can deliver.
pub struct PreparedEmail {
    pub subject: String,
    pub text: String,
    pub html: String,
    pub message: lettre::Message,
}

/// Owns the transport handle, the sender identity and the three global
/// template values; read-only once constructed.
pub struct Mailer {
    pub transport: lettre::SmtpTransport,
    pub sender_name: String,
    pub sender_address: String,
    pub globals: GlobalValues,
}

impl Mailer {
    /// Builds a dispatcher from a transport connection URL, a delivery
    /// timeout, a sender identity and the three global template values.
    /// Construction fails only on a connection URL the transport cannot
    /// be configured from; it opens no connection and performs no probe,
    /// so a connectivity check is purely diagnostic and left to the
    /// caller.
    pub fn new(
        smtp_connection_url: &str,
        smtp_timeout_ms: u64,
        sender_name: String,
        sender_address: String,
        logo_url: String,
        website_url: String,
        app_url: String,
    ) -> (r: Result<Mailer, MailError>)
        ensures
            r is Ok <==> smtp_url_ok(smtp_connection_url@),
            r is Err ==> r->Err_0 is TransportInitFailure,
            r is Ok ==> r->Ok_0.sender_name@ == sender_name@ && r->Ok_0.sender_address@
                == sender_address@ && r->Ok_0.globals.logo_url@ == logo_url@
                && r->Ok_0.globals.website_url@ == website_url@ && r->Ok_0.globals.app_url@
                == app_url@,
    {
        match build_transport(smtp_connection_url, smtp_timeout_ms) {
            Ok(transport) => Ok(
                Mailer {
                    transport,
                    sender_name,
                    sender_address,
                    globals: GlobalValues { logo_url, website_url, app_url },
                },
            ),
            Err(e) => Err(MailError::TransportInitFailure(e)),
        }
    }

    /// The markup that `prepare_mail` renders for a variant: its template
    /// with the variant's variables and the dispatcher's global values
    /// substituted in.
    pub open spec fn substituted_spec(&self, mail: Mail) -> Seq<char> {
        substitute_spec(
            template_spec(mail),
            variables_spec(mail),
            self.globals.logo_url@,
            self.globals.website_url@,
            self.globals.app_url@,
        )
    }

    /// Runs the pipeline short of delivery: template lookup, variable and
    /// subject extraction, substitution, rendering and message
    /// composition, in that order. The first failing step short-circuits
    /// the rest and is returned as its typed error; sender and recipient
    /// addresses are validated here, at the composition step.
    pub fn prepare_mail(&self, mail: &Mail, recipient: &Contact) -> (r: Result<
        PreparedEmail,
        MailError,
    >)
        ensures
            ({
                let sub = self.substituted_spec(*mail);
                &&& (!mjml_renders(sub) ==> r is Err && r->Err_0 is RenderFailure)
                &&& (mjml_renders(sub) && !to_text_ok(mjml_html(sub)) ==> r is Err
                    && r->Err_0 is TextConversionFailure)
                &&& (mjml_renders(sub) && to_text_ok(mjml_html(sub)) && !(address_ok(
                    self.sender_address@,
                ) && address_ok(recipient.address@)) ==> r is Err
                    && r->Err_0 is MessageBuildFailure)
                &&& (mjml_renders(sub) && to_text_ok(mjml_html(sub)) && address_ok(
                    self.sender_address@,
                ) && address_ok(recipient.address@) ==> r is Ok && r->Ok_0.subject@ == subject_spec(
                    *mail,
                ) && r->Ok_0.html@ == mjml_html(sub) && r->Ok_0.text@ == text_of(mjml_html(sub)))
            }),
    {
        let template = mail.template();
        let vars = mail.variables();
        let subject = mail.subject();
        let substituted = substitute(template, &vars, &self.globals);
        match render(substituted.as_str()) {
            Err(e) => Err(e),
            Ok(rendered) => {
                let sender = match parse_address(self.sender_address.as_str()) {
                    Ok(a) => a,
                    Err(e) => {
                        return Err(MailError::MessageBuildFailure(e));
                    },
                };
                let to = match parse_address(recipient.address.as_str()) {
                    Ok(a) => a,
                    Err(e) => {
                        return Err(MailError::MessageBuildFailure(e));
                    },
                };
                match compose_message(
                    self.sender_name.as_str(),
                    sender,
                    &recipient.name,
                    to,
                    subject.as_str(),
                    rendered.text.as_str(),
                    rendered.html.as_str(),
                ) {
                    Ok(message) => Ok(
                        PreparedEmail { subject, text: rendered.text, html: rendered.html, message },
                    ),
                    Err(e) => Err(MailError::MessageBuildFailure(e)),
                }
            },
        }
    }
}

} // verus!
