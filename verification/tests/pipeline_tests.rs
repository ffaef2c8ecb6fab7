use hook0_mailer::{Contact, Mail, MailError, Mailer};

fn mailer() -> Mailer {
    Mailer::new(
        "smtp://mail.example.test:2525",
        5000,
        "Hook0".to_string(),
        "noreply@example.test".to_string(),
        "https://cdn.example.test/logo.png".to_string(),
        "https://example.test".to_string(),
        "https://app.example.test".to_string(),
    )
    .expect("a well-formed connection URL configures a transport")
}

fn recipient() -> Contact {
    Contact {
        name: Some("Jo".to_string()),
        address: "jo@example.test".to_string(),
    }
}

#[test]
fn verify_user_email_end_to_end() {
    let mail = Mail::VerifyUserEmail {
        url: "https://x/verify/abc".to_string(),
    };
    let prepared = mailer().prepare_mail(&mail, &recipient()).unwrap();
    assert!(prepared.html.contains("https://x/verify/abc"));
    assert_eq!(prepared.subject, "[Hook0] Verify your email address");
    // The HTML is a rendered document, not the markup passed through.
    assert!(prepared.html.contains("<html"));
    assert!(!prepared.html.contains("<mj-text"));
    // The plain text is a conversion of the HTML, not the HTML itself.
    assert!(!prepared.text.contains("<html"));
    assert!(prepared.text.contains("https://x/verify/abc"));
}

#[test]
fn quota_warning_end_to_end() {
    let mail = Mail::QuotaEventsPerDayWarning {
        pricing_url_hash: "h1".to_string(),
        actual_consumption_percent: 80,
        current_events_per_day: 800,
        events_per_days_limit: 1000,
        extra_variables: vec![],
    };
    let prepared = mailer().prepare_mail(&mail, &recipient()).unwrap();
    assert!(prepared.text.contains("800"));
    assert!(prepared.text.contains("1000"));
    assert!(prepared.text.contains("80"));
}

#[test]
fn quota_reached_end_to_end() {
    let mail = Mail::QuotaEventsPerDayReached {
        pricing_url_hash: "h2".to_string(),
        current_events_per_day: 1000,
        events_per_days_limit: 1000,
        extra_variables: vec![],
    };
    let prepared = mailer().prepare_mail(&mail, &recipient()).unwrap();
    assert!(prepared.text.contains("1000"));
}

#[test]
fn reset_password_end_to_end() {
    let mail = Mail::ResetPassword {
        url: "https://x/reset/xyz".to_string(),
    };
    let prepared = mailer().prepare_mail(&mail, &recipient()).unwrap();
    assert!(prepared.html.contains("https://x/reset/xyz"));
    assert_eq!(prepared.subject, "[Hook0] Reset your password");
}

#[test]
fn global_values_reach_the_rendered_html() {
    let mail = Mail::VerifyUserEmail {
        url: "https://x/verify/abc".to_string(),
    };
    let prepared = mailer().prepare_mail(&mail, &recipient()).unwrap();
    assert!(prepared.html.contains("https://cdn.example.test/logo.png"));
    assert!(prepared.html.contains("https://example.test"));
}

#[test]
fn malformed_markup_is_a_render_failure() {
    let r = hook0_mailer::mailer::render("this is not a markup document");
    assert!(matches!(r, Err(MailError::RenderFailure(_))));
}

#[test]
fn malformed_substituted_markup_is_a_render_failure_and_no_message_exists() {
    // A substituted value that breaks the document structure surfaces as a
    // RenderFailure from prepare_mail; no message is composed, so there is
    // nothing a transport could deliver.
    let broken = hook0_mailer::substitute::substitute(
        "{ $body }",
        &vec![("body".to_string(), "<no-such-root>".to_string())],
        &hook0_mailer::substitute::GlobalValues {
            logo_url: "l".to_string(),
            website_url: "w".to_string(),
            app_url: "a".to_string(),
        },
    );
    let r = hook0_mailer::mailer::render(&broken);
    assert!(matches!(r, Err(MailError::RenderFailure(_))));
}

#[test]
fn invalid_recipient_address_is_a_message_build_failure() {
    let mail = Mail::VerifyUserEmail {
        url: "https://x/verify/abc".to_string(),
    };
    let bad = Contact {
        name: None,
        address: "not-an-address".to_string(),
    };
    let r = mailer().prepare_mail(&mail, &bad);
    assert!(matches!(r, Err(MailError::MessageBuildFailure(_))));
}

#[test]
fn invalid_sender_address_is_a_message_build_failure() {
    let m = Mailer::new(
        "smtp://mail.example.test:2525",
        5000,
        "Hook0".to_string(),
        "broken sender".to_string(),
        "l".to_string(),
        "w".to_string(),
        "a".to_string(),
    )
    .unwrap();
    let mail = Mail::VerifyUserEmail {
        url: "https://x/verify/abc".to_string(),
    };
    let r = m.prepare_mail(&mail, &recipient());
    assert!(matches!(r, Err(MailError::MessageBuildFailure(_))));
}

#[test]
fn bad_connection_url_is_a_transport_init_failure() {
    let r = Mailer::new(
        "::not a url::",
        5000,
        "Hook0".to_string(),
        "noreply@example.test".to_string(),
        "l".to_string(),
        "w".to_string(),
        "a".to_string(),
    );
    assert!(matches!(r, Err(MailError::TransportInitFailure(_))));
}

#[test]
fn construction_needs_no_reachable_transport() {
    // The construction step only configures the transport: an unreachable
    // host still yields a usable dispatcher, and preparation runs the full
    // pipeline successfully.
    let m = Mailer::new(
        "smtp://unreachable.invalid:1",
        1,
        "Hook0".to_string(),
        "noreply@example.test".to_string(),
        "l".to_string(),
        "w".to_string(),
        "a".to_string(),
    )
    .unwrap();
    let mail = Mail::VerifyUserEmail {
        url: "https://x/verify/abc".to_string(),
    };
    assert!(m.prepare_mail(&mail, &recipient()).is_ok());
}

#[test]
fn extra_variables_reach_the_rendered_output() {
    let mut mail = Mail::QuotaEventsPerDayWarning {
        pricing_url_hash: "h1".to_string(),
        actual_consumption_percent: 80,
        current_events_per_day: 800,
        events_per_days_limit: 1000,
        extra_variables: vec![],
    };
    mail.add_variable("website_url".to_string(), "ignored".to_string());
    let prepared = mailer().prepare_mail(&mail, &recipient()).unwrap();
    // The extra pair replaces the global token before the global pass runs:
    // the appended value wins over the global one.
    assert!(prepared.html.contains("ignored"));
}

#[test]
fn delivery_failure_is_representable() {
    let e = MailError::DeliveryFailure("connection timed out".to_string());
    assert!(matches!(e, MailError::DeliveryFailure(_)));
    let t = MailError::TemplateLookupFailure;
    assert!(matches!(t, MailError::TemplateLookupFailure));
}
