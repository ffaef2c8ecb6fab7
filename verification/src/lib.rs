//! Templated transactional-email preparation.
//!
//! A notification variant selects a markup template and a subject line;
//! named placeholders in the template are substituted with values drawn
//! from the variant's payload and from process-wide global values; the
//! substituted markup is rendered to HTML and plain text and assembled
//! into a deliverable multi-part message.

pub mod mail;
pub mod mailer;
pub mod numbers;
pub mod strings;
pub mod substitute;

pub use mail::Mail;
pub use mailer::{MailError, Mailer, Contact, PreparedEmail, Rendered};
