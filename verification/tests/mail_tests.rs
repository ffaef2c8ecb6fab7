use hook0_mailer::mail::{
    QUOTA_EVENTS_PER_DAY_REACHED_MJML, QUOTA_EVENTS_PER_DAY_WARNING_MJML, RESET_PASSWORD_MJML,
    VERIFY_USER_EMAIL_MJML,
};
use hook0_mailer::Mail;

fn all_variants() -> Vec<Mail> {
    vec![
        Mail::VerifyUserEmail {
            url: "https://example.test/verify/1".to_string(),
        },
        Mail::ResetPassword {
            url: "https://example.test/reset/1".to_string(),
        },
        Mail::QuotaEventsPerDayWarning {
            pricing_url_hash: "h".to_string(),
            actual_consumption_percent: 80,
            current_events_per_day: 800,
            events_per_days_limit: 1000,
            extra_variables: vec![],
        },
        Mail::QuotaEventsPerDayReached {
            pricing_url_hash: "h".to_string(),
            current_events_per_day: 1000,
            events_per_days_limit: 1000,
            extra_variables: vec![],
        },
    ]
}

#[test]
fn every_variant_has_nonempty_template_and_subject() {
    for m in all_variants() {
        assert!(!m.template().is_empty());
        assert!(!m.subject().is_empty());
    }
}

#[test]
fn templates_are_distinct_per_variant() {
    let variants = all_variants();
    assert_eq!(variants[0].template(), VERIFY_USER_EMAIL_MJML);
    assert_eq!(variants[1].template(), RESET_PASSWORD_MJML);
    assert_eq!(variants[2].template(), QUOTA_EVENTS_PER_DAY_WARNING_MJML);
    assert_eq!(variants[3].template(), QUOTA_EVENTS_PER_DAY_REACHED_MJML);
}

#[test]
fn subjects_are_the_fixed_lines() {
    let variants = all_variants();
    assert_eq!(variants[0].subject(), "[Hook0] Verify your email address");
    assert_eq!(variants[1].subject(), "[Hook0] Reset your password");
    assert_eq!(variants[2].subject(), "[Hook0] Quota Warning");
    assert_eq!(variants[3].subject(), "[Hook0] Quota Reached");
}

#[test]
fn verify_user_email_variables() {
    let m = Mail::VerifyUserEmail {
        url: "https://example.test/verify/abc".to_string(),
    };
    assert_eq!(
        m.variables(),
        vec![(
            "url".to_string(),
            "https://example.test/verify/abc".to_string()
        )]
    );
}

#[test]
fn quota_warning_variables_are_ordered_and_decimal() {
    let m = Mail::QuotaEventsPerDayWarning {
        pricing_url_hash: "h1".to_string(),
        actual_consumption_percent: 80,
        current_events_per_day: 800,
        events_per_days_limit: 1000,
        extra_variables: vec![("plan".to_string(), "pro".to_string())],
    };
    assert_eq!(
        m.variables(),
        vec![
            ("pricing_url_hash".to_string(), "h1".to_string()),
            ("actual_consumption_percent".to_string(), "80".to_string()),
            ("current_events_per_day".to_string(), "800".to_string()),
            ("events_per_days_limit".to_string(), "1000".to_string()),
            ("plan".to_string(), "pro".to_string()),
        ]
    );
}

#[test]
fn quota_reached_variables_are_ordered_and_decimal() {
    let m = Mail::QuotaEventsPerDayReached {
        pricing_url_hash: "h2".to_string(),
        current_events_per_day: 1000,
        events_per_days_limit: 1000,
        extra_variables: vec![],
    };
    assert_eq!(
        m.variables(),
        vec![
            ("pricing_url_hash".to_string(), "h2".to_string()),
            ("current_events_per_day".to_string(), "1000".to_string()),
            ("events_per_days_limit".to_string(), "1000".to_string()),
        ]
    );
}

#[test]
fn negative_and_extreme_numbers_are_canonical_decimal() {
    let m = Mail::QuotaEventsPerDayWarning {
        pricing_url_hash: "h".to_string(),
        actual_consumption_percent: -5,
        current_events_per_day: i32::MAX,
        events_per_days_limit: i32::MIN,
        extra_variables: vec![],
    };
    let vars = m.variables();
    assert_eq!(vars[1].1, "-5");
    assert_eq!(vars[2].1, "2147483647");
    assert_eq!(vars[3].1, "-2147483648");
}

#[test]
fn add_variable_on_non_quota_variant_is_a_no_op() {
    let mut m = Mail::VerifyUserEmail {
        url: "https://example.test/v".to_string(),
    };
    let before = m.variables();
    m.add_variable("extra".to_string(), "value".to_string());
    assert_eq!(m.variables(), before);
}

#[test]
fn add_variable_on_reset_password_is_a_no_op() {
    let mut m = Mail::ResetPassword {
        url: "https://example.test/r".to_string(),
    };
    let before = m.variables();
    m.add_variable("extra".to_string(), "value".to_string());
    assert_eq!(m.variables(), before);
}

#[test]
fn add_variable_on_quota_variant_appends_exactly_one_pair_at_the_end() {
    let mut m = Mail::QuotaEventsPerDayWarning {
        pricing_url_hash: "h".to_string(),
        actual_consumption_percent: 10,
        current_events_per_day: 100,
        events_per_days_limit: 1000,
        extra_variables: vec![("first".to_string(), "1".to_string())],
    };
    let before = m.variables();
    m.add_variable("second".to_string(), "2".to_string());
    let after = m.variables();
    assert_eq!(after.len(), before.len() + 1);
    assert_eq!(&after[..before.len()], &before[..]);
    assert_eq!(
        after.last().unwrap(),
        &("second".to_string(), "2".to_string())
    );
}

#[test]
fn i32_dec_string_exact_values() {
    assert_eq!(hook0_mailer::mail::i32_dec_string(0), "0");
    assert_eq!(hook0_mailer::mail::i32_dec_string(7), "7");
    assert_eq!(hook0_mailer::mail::i32_dec_string(-1), "-1");
    assert_eq!(hook0_mailer::mail::i32_dec_string(120), "120");
}
