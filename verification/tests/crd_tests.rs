use podmonitor::crd::{MailDetails, PodMonitorSpec, PodMonitorStatus, TlsOption, WebHook};

fn mail(username: Option<&str>, password: Option<&str>) -> MailDetails {
    MailDetails {
        smtp_server: "smtp.example.org".to_string(),
        smtp_port: 587,
        to: "ops@example.org".to_string(),
        from: "monitor@example.org".to_string(),
        tls: TlsOption::True,
        username: username.map(|s| s.to_string()),
        password: password.map(|s| s.to_string()),
    }
}

fn spec(mail: Option<MailDetails>, webhook: Option<&str>) -> PodMonitorSpec {
    PodMonitorSpec {
        name: "monitor".to_string(),
        target_namespace: "default".to_string(),
        target_pods: None,
        mail,
        webhook: webhook.map(|u| WebHook { url: u.to_string() }),
    }
}

#[test]
fn tls_option_as_str() {
    assert_eq!(TlsOption::True.as_str(), "true");
    assert_eq!(TlsOption::False.as_str(), "false");
}

#[test]
fn getters_read_mail_details() {
    let s = spec(Some(mail(Some("user"), Some("secret"))), Some("http://hook.example.org"));
    assert_eq!(s.get_mail_to().map(|x| x.as_str()), Some("ops@example.org"));
    assert_eq!(s.get_mail_from().map(|x| x.as_str()), Some("monitor@example.org"));
    assert_eq!(s.get_smtp_server().map(|x| x.as_str()), Some("smtp.example.org"));
    assert_eq!(s.get_smtp_port(), Some(&587));
    assert_eq!(s.get_tls(), Some(&TlsOption::True));
    assert_eq!(s.get_mail_username().map(|x| x.as_str()), Some("user"));
    assert_eq!(s.get_mail_password().map(|x| x.as_str()), Some("secret"));
    assert_eq!(s.get_webhook_url().map(|x| x.as_str()), Some("http://hook.example.org"));
}

#[test]
fn getters_without_mail_or_webhook() {
    let s = spec(None, None);
    assert_eq!(s.get_mail_to(), None);
    assert_eq!(s.get_mail_from(), None);
    assert_eq!(s.get_smtp_server(), None);
    assert_eq!(s.get_smtp_port(), None);
    assert_eq!(s.get_tls(), None);
    assert_eq!(s.get_mail_username(), None);
    assert_eq!(s.get_mail_password(), None);
    assert_eq!(s.get_webhook_url(), None);
}

#[test]
fn credentials_absent_in_mail() {
    let s = spec(Some(mail(None, Some("secret"))), None);
    assert_eq!(s.get_mail_username(), None);
    assert_eq!(s.get_mail_password().map(|x| x.as_str()), Some("secret"));
    assert!(s.get_mail_to().is_some());
}

#[test]
fn status_defaults_to_not_ok() {
    assert!(!PodMonitorStatus::default().is_ok);
}
