use podmonitor::crd::TlsOption;
use podmonitor::mail::ContentKind;
use podmonitor::notify::{
    checked_compose_email, compose_email, is_valid_mailbox, plan_email, plan_transport, ComposeError,
    SmtpTransportPlan,
};

#[test]
fn credentials_without_tls_use_plain_transport() {
    let u = "user".to_string();
    let p = "pw".to_string();
    match plan_transport(None, Some(&u), Some(&p)) {
        SmtpTransportPlan::Plain { username, password } => {
            assert_eq!(username, "user");
            assert_eq!(password, "pw");
        }
        other => panic!("unexpected {:?}", other),
    }
    assert!(matches!(
        plan_transport(Some(&TlsOption::False), Some(&u), Some(&p)),
        SmtpTransportPlan::Plain { .. }
    ));
}

#[test]
fn credentials_with_tls_require_tls() {
    let u = "user".to_string();
    let p = "pw".to_string();
    match plan_transport(Some(&TlsOption::True), Some(&u), Some(&p)) {
        SmtpTransportPlan::RequiredTls { username, password } => {
            assert_eq!(username, "user");
            assert_eq!(password, "pw");
        }
        other => panic!("unexpected {:?}", other),
    }
}

#[test]
fn no_credentials_is_anonymous_even_with_tls() {
    assert!(matches!(plan_transport(Some(&TlsOption::True), None, None), SmtpTransportPlan::Anonymous));
}

#[test]
fn half_credentials_send_nothing() {
    let u = "user".to_string();
    assert!(matches!(
        plan_transport(None, Some(&u), None),
        SmtpTransportPlan::IncompleteCredentials
    ));
    assert!(matches!(
        plan_transport(None, None, Some(&u)),
        SmtpTransportPlan::IncompleteCredentials
    ));
}

#[test]
fn email_plan_fields() {
    let e = plan_email("ops@x.org", "mon@x.org", "pod web failed", "smtp.x.org", 2525, None, None, None);
    assert_eq!(e.from, "mon@x.org");
    assert_eq!(e.to, "ops@x.org");
    assert_eq!(e.reply_to, "ops@x.org");
    assert_eq!(e.subject, "Alert: Pod Status Not Running");
    assert_eq!(e.body, "pod web failed");
    assert_eq!(e.server, "smtp.x.org");
    assert_eq!(e.port, 2525);
    assert!(matches!(e.transport, SmtpTransportPlan::Anonymous));
}

#[test]
fn compose_valid_mail() {
    let e = plan_email("ops@x.org", "mon@x.org", "pod web failed", "smtp.x.org", 25, None, None, None);
    assert_eq!(e.content, ContentKind::PlainText);
    let m = compose_email(&e).expect("valid addresses compose");
    assert_eq!(m.from(), "mon@x.org");
    assert_eq!(m.reply_to(), "ops@x.org");
    assert_eq!(m.to(), "ops@x.org");
    assert_eq!(m.subject(), "Alert: Pod Status Not Running");
    assert_eq!(m.body(), "pod web failed");
    assert_eq!(m.content(), ContentKind::PlainText);
    let text = String::from_utf8(m.message().formatted()).unwrap();
    let lines: Vec<&str> = text.split("\r\n").collect();
    assert!(lines.contains(&"From: mon@x.org"), "{}", text);
    assert!(lines.contains(&"To: ops@x.org"), "{}", text);
    assert!(lines.contains(&"Reply-To: ops@x.org"), "{}", text);
    assert!(lines.contains(&"Subject: Alert: Pod Status Not Running"), "{}", text);
    assert!(lines.iter().any(|l| l.starts_with("Content-Type: text/plain")), "{}", text);
    assert!(lines.contains(&"pod web failed"), "{}", text);
}

#[test]
fn compose_keeps_sender_and_recipient_apart() {
    let mut e = plan_email("ops@x.org", "mon@x.org", "b", "smtp.x.org", 25, None, None, None);
    e.reply_to = "replies@x.org".to_string();
    let m = checked_compose_email(&e).expect("valid addresses compose");
    let text = String::from_utf8(m.message().formatted()).unwrap();
    let lines: Vec<&str> = text.split("\r\n").collect();
    assert!(lines.contains(&"From: mon@x.org"), "{}", text);
    assert!(lines.contains(&"To: ops@x.org"), "{}", text);
    assert!(lines.contains(&"Reply-To: replies@x.org"), "{}", text);
    assert_eq!(m.reply_to(), "replies@x.org");
}

#[test]
fn compose_rejects_bad_addresses() {
    let e = plan_email("ops@x.org", "not a mailbox", "body", "smtp.x.org", 25, None, None, None);
    assert!(!is_valid_mailbox("not a mailbox"));
    assert_eq!(checked_compose_email(&e).err(), Some(ComposeError::InvalidFrom));
    let e = plan_email("nobody", "mon@x.org", "body", "smtp.x.org", 25, None, None, None);
    assert_eq!(checked_compose_email(&e).err(), Some(ComposeError::InvalidReplyTo));
    let mut e = plan_email("ops@x.org", "mon@x.org", "body", "smtp.x.org", 25, None, None, None);
    e.to = "broken".to_string();
    assert_eq!(checked_compose_email(&e).err(), Some(ComposeError::InvalidTo));
}

#[test]
fn mailbox_that_lettre_cannot_build_with() {
    let odd = "\"\\\"a b\\\"\"@x.com";
    assert!(is_valid_mailbox(odd));
    let e = plan_email(odd, "mon@x.org", "body", "smtp.x.org", 25, None, None, None);
    assert_eq!(checked_compose_email(&e).err(), Some(ComposeError::Unbuildable));
    assert_eq!(compose_email(&e).err(), Some(ComposeError::Unbuildable));
    let e = plan_email("ops@x.org", odd, "body", "smtp.x.org", 25, None, None, None);
    assert_eq!(checked_compose_email(&e).err(), Some(ComposeError::Unbuildable));
}
