use vstd::prelude::*;

verus! {

/// Whether the SMTP connection of a [`MailDetails`] uses TLS.
#[derive(Debug, Clone, Copy, PartialEq, Eq, Structural)]
pub enum TlsOption {
    True,
    False,
}

impl TlsOption {
    /// The textual form of the option, as it is written in the resource.
    pub open spec fn spec_text(self) -> Seq<char> {
        match self {
            TlsOption::True => "true"@,
            TlsOption::False => "false"@,
        }
    }

    pub fn as_str(&self) -> (s: &str)
        ensures
            s@ == self.spec_text(),
            *self == TlsOption::True ==> s@ == "true"@,
            *self == TlsOption::False ==> s@ == "false"@,
    {
        match self {
            TlsOption::True => "true",
            TlsOption::False => "false",
        }
    }
}

/// Where and how alert mails are sent.
#[derive(Debug, Clone, PartialEq)]
pub struct MailDetails {
    pub smtp_server: String,
    pub smtp_port: u16,
    pub to: String,
    pub from: String,
    pub tls: TlsOption,
    pub username: Option<String>,
    pub password: Option<String>,
}

/// The endpoint that alerts are posted to.
#[derive(Debug, Clone, PartialEq)]
pub struct WebHook {
    pub url: String,
}

/// The specification of a `PodMonitor` resource (group `kk.dev`, version `v1`).
#[derive(Debug, Clone, PartialEq)]
pub struct PodMonitorSpec {
    pub name: String,
    pub target_namespace: String,
    pub target_pods: Option<Vec<String>>,
    pub mail: Option<MailDetails>,
    pub webhook: Option<WebHook>,
}

/// The status of a `PodMonitor` resource.
#[derive(Debug, Clone, PartialEq, Default)]
pub struct PodMonitorStatus {
    pub is_ok: bool,
}

impl PodMonitorSpec {
    pub fn get_mail_to(&self) -> (r: Option<&String>)
        ensures
            r is Some <==> self.mail is Some,
            r is Some ==> *r->0 == self.mail->0.to,
    {
        match &self.mail {
            Some(mail) => Some(&mail.to),
            None => None,
        }
    }

    pub fn get_mail_from(&self) -> (r: Option<&String>)
        ensures
            r is Some <==> self.mail is Some,
            r is Some ==> *r->0 == self.mail->0.from,
    {
        match &self.mail {
            Some(mail) => Some(&mail.from),
            None => None,
        }
    }

    pub fn get_smtp_server(&self) -> (r: Option<&String>)
        ensures
            r is Some <==> self.mail is Some,
            r is Some ==> *r->0 == self.mail->0.smtp_server,
    {
        match &self.mail {
            Some(mail) => Some(&mail.smtp_server),
            None => None,
        }
    }

    pub fn get_smtp_port(&self) -> (r: Option<&u16>)
        ensures
            r is Some <==> self.mail is Some,
            r is Some ==> *r->0 == self.mail->0.smtp_port,
    {
        match &self.mail {
            Some(mail) => Some(&mail.smtp_port),
            None => None,
        }
    }

    pub fn get_tls(&self) -> (r: Option<&TlsOption>)
        ensures
            r is Some <==> self.mail is Some,
            r is Some ==> *r->0 == self.mail->0.tls,
    {
        match &self.mail {
            Some(mail) => Some(&mail.tls),
            None => None,
        }
    }

    pub fn get_mail_username(&self) -> (r: Option<&String>)
        ensures
            r is Some <==> (self.mail is Some && self.mail->0.username is Some),
            r is Some ==> *r->0 == self.mail->0.username->0,
    {
        match &self.mail {
            Some(mail) => match &mail.username {
                Some(username) => Some(username),
                None => None,
            },
            None => None,
        }
    }

    pub fn get_mail_password(&self) -> (r: Option<&String>)
        ensures
            r is Some <==> (self.mail is Some && self.mail->0.password is Some),
            r is Some ==> *r->0 == self.mail->0.password->0,
    {
        match &self.mail {
            Some(mail) => match &mail.password {
                Some(password) => Some(password),
                None => None,
            },
            None => None,
        }
    }

    pub fn get_webhook_url(&self) -> (r: Option<&String>)
        ensures
            r is Some <==> self.webhook is Some,
            r is Some ==> *r->0 == self.webhook->0.url,
    {
        match &self.webhook {
            Some(webhook) => Some(&webhook.url),
            None => None,
        }
    }
}

} // verus!
