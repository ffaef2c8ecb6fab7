//! The closed set of notification variants, their templates, subject lines
//! and placeholder variables.

use vstd::prelude::*;

use crate::numbers::{dec_int, i32_dec_chars};
use crate::strings::chars_to_string;

verus! {

/// Markup template for the email-verification notification.
pub const VERIFY_USER_EMAIL_MJML: &'static str = "<mjml><mj-body><mj-section><mj-column><mj-image width='100px' src='{ $logo_url }' /><mj-text>Welcome to Hook0! Please confirm your email address by opening this link: { $url }</mj-text><mj-text>Sent by { $website_url } - manage your account at { $app_url }</mj-text></mj-column></mj-section></mj-body></mjml>";

/// Markup template for the password-reset notification.
pub const RESET_PASSWORD_MJML: &'static str = "<mjml><mj-body><mj-section><mj-column><mj-image width='100px' src='{ $logo_url }' /><mj-text>A password reset was requested for your Hook0 account. Open this link to choose a new password: { $url }</mj-text><mj-text>Sent by { $website_url } - manage your account at { $app_url }</mj-text></mj-column></mj-section></mj-body></mjml>";

/// Markup template for the daily-events quota warning notification.
pub const QUOTA_EVENTS_PER_DAY_WARNING_MJML: &'static str = "<mjml><mj-body><mj-section><mj-column><mj-image width='100px' src='{ $logo_url }' /><mj-text>You have used { $actual_consumption_percent } percent of your daily events quota: { $current_events_per_day } events out of { $events_per_days_limit } allowed per day.</mj-text><mj-text>To raise your limit, see the pricing page: { $app_url }/pricing#{ $pricing_url_hash }</mj-text><mj-text>Sent by { $website_url }</mj-text></mj-column></mj-section></mj-body></mjml>";

/// Markup template for the daily-events quota reached notification.
pub const QUOTA_EVENTS_PER_DAY_REACHED_MJML: &'static str = "<mjml><mj-body><mj-section><mj-column><mj-image width='100px' src='{ $logo_url }' /><mj-text>You have reached your daily events quota: { $current_events_per_day } events out of { $events_per_days_limit } allowed per day. Further events will be rejected until tomorrow.</mj-text><mj-text>To raise your limit, see the pricing page: { $app_url }/pricing#{ $pricing_url_hash }</mj-text><mj-text>Sent by { $website_url }</mj-text></mj-column></mj-section></mj-body></mjml>";

/// A notification to be turned into one outgoing email.
///
/// Each variant carries exactly the payload of that notification kind; the
/// quota variants additionally carry an append-only list of ad-hoc
/// placeholder pairs.
#[derive(Debug, Clone)]
pub enum Mail {
    VerifyUserEmail {
        url: String,
    },
    ResetPassword {
        url: String,
    },
    QuotaEventsPerDayWarning {
        pricing_url_hash: String,
        actual_consumption_percent: i32,
        current_events_per_day: i32,
        events_per_days_limit: i32,
        extra_variables: Vec<(String, String)>,
    },
    QuotaEventsPerDayReached {
        pricing_url_hash: String,
        current_events_per_day: i32,
        events_per_days_limit: i32,
        extra_variables: Vec<(String, String)>,
    },
}

/// The raw markup that the template registry assigns to a variant.
pub open spec fn template_spec(m: Mail) -> Seq<char> {
    match m {
        Mail::VerifyUserEmail { .. } => VERIFY_USER_EMAIL_MJML@,
        Mail::ResetPassword { .. } => RESET_PASSWORD_MJML@,
        Mail::QuotaEventsPerDayWarning { .. } => QUOTA_EVENTS_PER_DAY_WARNING_MJML@,
        Mail::QuotaEventsPerDayReached { .. } => QUOTA_EVENTS_PER_DAY_REACHED_MJML@,
    }
}

/// The subject line that belongs to a variant.
pub open spec fn subject_spec(m: Mail) -> Seq<char> {
    match m {
        Mail::VerifyUserEmail { .. } => "[Hook0] Verify your email address"@,
        Mail::ResetPassword { .. } => "[Hook0] Reset your password"@,
        Mail::QuotaEventsPerDayWarning { .. } => "[Hook0] Quota Warning"@,
        Mail::QuotaEventsPerDayReached { .. } => "[Hook0] Quota Reached"@,
    }
}

/// The view of an executable list of (name, value) pairs.
pub open spec fn pairs_view(v: Seq<(String, String)>) -> Seq<(Seq<char>, Seq<char>)> {
    v.map_values(|p: (String, String)| (p.0@, p.1@))
}

/// The ordered placeholder variables extracted from a variant's payload:
/// intrinsic fields in declaration order, numeric fields in canonical
/// decimal form, then any appended extra pairs in append order.
pub open spec fn variables_spec(m: Mail) -> Seq<(Seq<char>, Seq<char>)> {
    match m {
        Mail::VerifyUserEmail { url } => seq![("url"@, url@)],
        Mail::ResetPassword { url } => seq![("url"@, url@)],
        Mail::QuotaEventsPerDayWarning {
            pricing_url_hash,
            actual_consumption_percent,
            current_events_per_day,
            events_per_days_limit,
            extra_variables,
        } => seq![
            ("pricing_url_hash"@, pricing_url_hash@),
            ("actual_consumption_percent"@, dec_int(actual_consumption_percent as int)),
            ("current_events_per_day"@, dec_int(current_events_per_day as int)),
            ("events_per_days_limit"@, dec_int(events_per_days_limit as int)),
        ] + pairs_view(extra_variables@),
        Mail::QuotaEventsPerDayReached {
            pricing_url_hash,
            current_events_per_day,
            events_per_days_limit,
            extra_variables,
        } => seq![
            ("pricing_url_hash"@, pricing_url_hash@),
            ("current_events_per_day"@, dec_int(current_events_per_day as int)),
            ("events_per_days_limit"@, dec_int(events_per_days_limit as int)),
        ] + pairs_view(extra_variables@),
    }
}

/// Whether a variant carries an `extra_variables` list.
pub open spec fn is_quota_variant(m: Mail) -> bool {
    match m {
        Mail::QuotaEventsPerDayWarning { .. } => true,
        Mail::QuotaEventsPerDayReached { .. } => true,
        _ => false,
    }
}

impl Mail {
    /// Template registry lookup: total, every variant resolves to its fixed
    /// markup document.
    pub fn template(&self) -> (r: &'static str)
        ensures
            r@ == template_spec(*self),
    {
        match self {
            Mail::VerifyUserEmail { .. } => VERIFY_USER_EMAIL_MJML,
            Mail::ResetPassword { .. } => RESET_PASSWORD_MJML,
            Mail::QuotaEventsPerDayWarning { .. } => QUOTA_EVENTS_PER_DAY_WARNING_MJML,
            Mail::QuotaEventsPerDayReached { .. } => QUOTA_EVENTS_PER_DAY_REACHED_MJML,
        }
    }

    /// Subject-line lookup: total, every variant resolves to its fixed
    /// subject.
    pub fn subject(&self) -> (r: String)
        ensures
            r@ == subject_spec(*self),
    {
        match self {
            Mail::VerifyUserEmail { .. } => "[Hook0] Verify your email address".to_owned(),
            Mail::ResetPassword { .. } => "[Hook0] Reset your password".to_owned(),
            Mail::QuotaEventsPerDayWarning { .. } => "[Hook0] Quota Warning".to_owned(),
            Mail::QuotaEventsPerDayReached { .. } => "[Hook0] Quota Reached".to_owned(),
        }
    }

    /// Extracts the ordered (name, value) placeholder pairs of this variant.
    pub fn variables(&self) -> (v: Vec<(String, String)>)
        ensures
            pairs_view(v@) == variables_spec(*self),
    {
        match self {
            Mail::VerifyUserEmail { url } => {
                let mut v: Vec<(String, String)> = Vec::new();
                v.push(("url".to_owned(), url.clone()));
                proof {
                    assert(pairs_view(v@) =~~= variables_spec(*self));
                }
                v
            },
            Mail::ResetPassword { url } => {
                let mut v: Vec<(String, String)> = Vec::new();
                v.push(("url".to_owned(), url.clone()));
                proof {
                    assert(pairs_view(v@) =~~= variables_spec(*self));
                }
                v
            },
            Mail::QuotaEventsPerDayWarning {
                pricing_url_hash,
                actual_consumption_percent,
                current_events_per_day,
                events_per_days_limit,
                extra_variables,
            } => {
                let mut v: Vec<(String, String)> = Vec::new();
                v.push(("pricing_url_hash".to_owned(), pricing_url_hash.clone()));
                v.push((
                    "actual_consumption_percent".to_owned(),
                    i32_dec_string(*actual_consumption_percent),
                ));
                v.push(("current_events_per_day".to_owned(), i32_dec_string(*current_events_per_day)));
                v.push(("events_per_days_limit".to_owned(), i32_dec_string(*events_per_days_limit)));
                push_pairs(&mut v, extra_variables);
                proof {
                    assert(pairs_view(v@) =~~= variables_spec(*self));
                }
                v
            },
            Mail::QuotaEventsPerDayReached {
                pricing_url_hash,
                current_events_per_day,
                events_per_days_limit,
                extra_variables,
            } => {
                let mut v: Vec<(String, String)> = Vec::new();
                v.push(("pricing_url_hash".to_owned(), pricing_url_hash.clone()));
                v.push(("current_events_per_day".to_owned(), i32_dec_string(*current_events_per_day)));
                v.push(("events_per_days_limit".to_owned(), i32_dec_string(*events_per_days_limit)));
                push_pairs(&mut v, extra_variables);
                proof {
                    assert(pairs_view(v@) =~~= variables_spec(*self));
                }
                v
            },
        }
    }

    /// Appends an ad-hoc placeholder pair to a quota variant's
    /// `extra_variables` list; on the other variants this is a documented
    /// no-op, not an error.
    pub fn add_variable(&mut self, key: String, value: String)
        ensures
            template_spec(*final(self)) == template_spec(*old(self)),
            subject_spec(*final(self)) == subject_spec(*old(self)),
            is_quota_variant(*old(self)) ==> variables_spec(*final(self)) == variables_spec(
                *old(self),
            ).push((key@, value@)),
            !is_quota_variant(*old(self)) ==> *final(self) == *old(self),
    {
        match self {
            Mail::QuotaEventsPerDayWarning { extra_variables, .. } => {
                extra_variables.push((key, value));
                proof {
                    assert(variables_spec(*final(self)) =~~= variables_spec(*old(self)).push(
                        (key@, value@),
                    ));
                }
            },
            Mail::QuotaEventsPerDayReached { extra_variables, .. } => {
                extra_variables.push((key, value));
                proof {
                    assert(variables_spec(*final(self)) =~~= variables_spec(*old(self)).push(
                        (key@, value@),
                    ));
                }
            },
            _ => {},
        }
    }
}

/// The canonical decimal string of a 32-bit integer.
pub fn i32_dec_string(i: i32) -> (s: String)
    ensures
        s@ == dec_int(i as int),
{
    let chars = i32_dec_chars(i);
    chars_to_string(&chars)
}

/// `pairs_view` maps an appended pair to its appended view.
proof fn lemma_pairs_view_push(s: Seq<(String, String)>, p: (String, String))
    ensures
        pairs_view(s.push(p)) == pairs_view(s).push((p.0@, p.1@)),
{
    assert(pairs_view(s.push(p)) =~= pairs_view(s).push((p.0@, p.1@)));
}

/// Appends clones of all pairs in `extra` to `v`, in order.
fn push_pairs(v: &mut Vec<(String, String)>, extra: &Vec<(String, String)>)
    ensures
        pairs_view(final(v)@) == pairs_view(old(v)@) + pairs_view(extra@),
{
    let mut i: usize = 0;
    while i < extra.len()
        invariant
            i <= extra.len(),
            pairs_view(v@) == pairs_view(old(v)@) + pairs_view(extra@.take(i as int)),
        decreases extra.len() - i,
    {
        let ghost u = v@;
        let pair = (extra[i].0.clone(), extra[i].1.clone());
        v.push(pair);
        proof {
            lemma_pairs_view_push(u, pair);
            lemma_pairs_view_push(extra@.take(i as int), extra@[i as int]);
            assert(extra@.take(i + 1) =~= extra@.take(i as int).push(extra@[i as int]));
            assert(pairs_view(u).push((pair.0@, pair.1@)) =~= pairs_view(old(v)@) + pairs_view(
                extra@.take(i + 1),
            ));
        }
        i = i + 1;
    }
    proof {
        assert(extra@.take(extra@.len() as int) =~= extra@);
    }
}

/// Totality of the template registry and the subject mapping: every variant
/// resolves to non-empty markup and a non-empty subject line.
pub proof fn lemma_registry_total(m: Mail)
    ensures
        template_spec(m).len() > 0,
        subject_spec(m).len() > 0,
{
    reveal_strlit(
        "<mjml><mj-body><mj-section><mj-column><mj-image width='100px' src='{ $logo_url }' /><mj-text>Welcome to Hook0! Please confirm your email address by opening this link: { $url }</mj-text><mj-text>Sent by { $website_url } - manage your account at { $app_url }</mj-text></mj-column></mj-section></mj-body></mjml>",
    );
    reveal_strlit(
        "<mjml><mj-body><mj-section><mj-column><mj-image width='100px' src='{ $logo_url }' /><mj-text>A password reset was requested for your Hook0 account. Open this link to choose a new password: { $url }</mj-text><mj-text>Sent by { $website_url } - manage your account at { $app_url }</mj-text></mj-column></mj-section></mj-body></mjml>",
    );
    reveal_strlit(
        "<mjml><mj-body><mj-section><mj-column><mj-image width='100px' src='{ $logo_url }' /><mj-text>You have used { $actual_consumption_percent } percent of your daily events quota: { $current_events_per_day } events out of { $events_per_days_limit } allowed per day.</mj-text><mj-text>To raise your limit, see the pricing page: { $app_url }/pricing#{ $pricing_url_hash }</mj-text><mj-text>Sent by { $website_url }</mj-text></mj-column></mj-section></mj-body></mjml>",
    );
    reveal_strlit(
        "<mjml><mj-body><mj-section><mj-column><mj-image width='100px' src='{ $logo_url }' /><mj-text>You have reached your daily events quota: { $current_events_per_day } events out of { $events_per_days_limit } allowed per day. Further events will be rejected until tomorrow.</mj-text><mj-text>To raise your limit, see the pricing page: { $app_url }/pricing#{ $pricing_url_hash }</mj-text><mj-text>Sent by { $website_url }</mj-text></mj-column></mj-section></mj-body></mjml>",
    );
    reveal_strlit("[Hook0] Verify your email address");
    reveal_strlit("[Hook0] Reset your password");
    reveal_strlit("[Hook0] Quota Warning");
    reveal_strlit("[Hook0] Quota Reached");
}

} // verus!

