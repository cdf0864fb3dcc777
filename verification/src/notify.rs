use vstd::prelude::*;
use crate::crd::TlsOption;
use crate::mail::{
    build_message, is_mailbox, message_builds, parse_mailbox, ComposedMail, ComposedMailView,
    ContentKind,
};

verus! {

/// How the SMTP transport for an alert mail is set up.
#[derive(Debug, Clone)]
pub enum SmtpTransportPlan {
    /// Unencrypted connection, logging in with the credentials (PLAIN or LOGIN).
    Plain { username: String, password: String },
    /// Connection that requires TLS (certificates are not checked), logging in with the credentials.
    RequiredTls { username: String, password: String },
    /// Unencrypted connection without credentials.
    Anonymous,
    /// Only one of username and password is given: no mail is sent.
    IncompleteCredentials,
}

/// Everything needed to send one alert mail.
#[derive(Debug, Clone)]
pub struct EmailPlan {
    pub from: String,
    pub reply_to: String,
    pub to: String,
    pub subject: String,
    pub body: String,
    pub server: String,
    pub port: u16,
    pub content: ContentKind,
    pub transport: SmtpTransportPlan,
}

pub open spec fn alert_subject() -> Seq<char> {
    "Alert: Pod Status Not Running"@
}

/// TLS is used only where it is asked for; it is off where the option is missing.
pub open spec fn tls_requested(tls: Option<TlsOption>) -> bool {
    tls == Some(TlsOption::True)
}

/// The transport chosen for the given TLS option and credentials.
pub open spec fn transport_fits(
    t: SmtpTransportPlan,
    tls: Option<TlsOption>,
    username: Option<String>,
    password: Option<String>,
) -> bool {
    match (username, password) {
        (Some(u), Some(p)) => if tls_requested(tls) {
            t matches SmtpTransportPlan::RequiredTls { username, password } && username@ == u@
                && password@ == p@
        } else {
            t matches SmtpTransportPlan::Plain { username, password } && username@ == u@
                && password@ == p@
        },
        (None, None) => t is Anonymous,
        _ => t is IncompleteCredentials,
    }
}

pub open spec fn deref_option<T>(o: Option<&T>) -> Option<T> {
    match o {
        Some(x) => Some(*x),
        None => None,
    }
}

/// Without username and password the mail goes out anonymously, whatever the TLS option.
pub proof fn law_no_credentials_anonymous(t: SmtpTransportPlan, tls: Option<TlsOption>)
    requires
        transport_fits(t, tls, None, None),
    ensures
        t is Anonymous,
{
}

/// With one of username and password missing, no mail goes out, whatever the TLS option.
pub proof fn law_half_credentials_refused(
    t: SmtpTransportPlan,
    tls: Option<TlsOption>,
    username: Option<String>,
    password: Option<String>,
)
    requires
        transport_fits(t, tls, username, password),
        username is Some != password is Some,
    ensures
        t is IncompleteCredentials,
{
}

/// With both username and password, they are the credentials the transport logs in with;
/// TLS is required exactly when the option is `true`, and the connection is unencrypted
/// when the option is `false` or missing.
pub proof fn law_credentials_used(
    t: SmtpTransportPlan,
    tls: Option<TlsOption>,
    username: String,
    password: String,
)
    requires
        transport_fits(t, tls, Some(username), Some(password)),
    ensures
        tls == Some(TlsOption::True) ==> (t matches SmtpTransportPlan::RequiredTls { username: u, password: p }
            && u@ == username@ && p@ == password@),
        tls != Some(TlsOption::True) ==> (t matches SmtpTransportPlan::Plain { username: u, password: p }
            && u@ == username@ && p@ == password@),
{
}

/// Chooses the SMTP transport: credentials are used only when both username and
/// password are given, and TLS only when it is asked for.
pub fn plan_transport(
    tls: Option<&TlsOption>,
    username: Option<&String>,
    password: Option<&String>,
) -> (t: SmtpTransportPlan)
    ensures
        transport_fits(t, deref_option(tls), deref_option(username), deref_option(password)),
{
    match (username, password) {
        (Some(user), Some(pass)) => {
            let with_tls = match tls {
                Some(TlsOption::True) => true,
                _ => false,
            };
            if with_tls {
                SmtpTransportPlan::RequiredTls { username: user.clone(), password: pass.clone() }
            } else {
                SmtpTransportPlan::Plain { username: user.clone(), password: pass.clone() }
            }
        },
        (None, None) => SmtpTransportPlan::Anonymous,
        _ => SmtpTransportPlan::IncompleteCredentials,
    }
}

/// Plans the alert mail with body `msg` from `from` to `to` (replies go to `to`),
/// sent through `server` on `port`.
pub fn plan_email(
    to: &str,
    from: &str,
    msg: &str,
    server: &str,
    port: u16,
    tls: Option<&TlsOption>,
    username: Option<&String>,
    password: Option<&String>,
) -> (e: EmailPlan)
    ensures
        e.from@ == from@,
        e.reply_to@ == to@,
        e.to@ == to@,
        e.subject@ == alert_subject(),
        e.subject@ == "Alert: Pod Status Not Running"@,
        e.body@ == msg@,
        e.server@ == server@,
        e.port == port,
        e.content == ContentKind::PlainText,
        transport_fits(e.transport, deref_option(tls), deref_option(username), deref_option(password)),
{
    EmailPlan {
        from: from.to_owned(),
        reply_to: to.to_owned(),
        to: to.to_owned(),
        subject: String::from_str("Alert: Pod Status Not Running"),
        body: msg.to_owned(),
        server: server.to_owned(),
        port,
        content: ContentKind::PlainText,
        transport: plan_transport(tls, username, password),
    }
}

/// Why a planned mail cannot be composed.
#[derive(Debug, Clone, Copy, PartialEq, Eq, Structural)]
pub enum ComposeError {
    /// The sender is not a mailbox.
    InvalidFrom,
    /// The reply-to address is not a mailbox.
    InvalidReplyTo,
    /// The recipient is not a mailbox.
    InvalidTo,
    /// All addresses are mailboxes, but lettre refuses to build a message from the sender
    /// and recipient (see `message_builds`).
    Unbuildable,
}

/// The mail composed from the plan: its addresses, subject, body and content kind, each in its place.
pub open spec fn composed_from(plan: EmailPlan) -> ComposedMailView {
    ComposedMailView {
        from: plan.from@,
        reply_to: plan.reply_to@,
        to: plan.to@,
        subject: plan.subject@,
        body: plan.body@,
        content: plan.content,
    }
}

/// Whether lettre reads the text as a mailbox.
pub fn is_valid_mailbox(text: &str) -> (b: bool)
    ensures
        b == is_mailbox(text@),
{
    parse_mailbox(text).is_ok()
}

/// Composes the planned mail, whose three addresses must be mailboxes. The mail is composed
/// exactly when lettre builds a message from the sender and recipient.
pub fn compose_email(plan: &EmailPlan) -> (r: Result<ComposedMail, ComposeError>)
    requires
        is_mailbox(plan.from@),
        is_mailbox(plan.reply_to@),
        is_mailbox(plan.to@),
    ensures
        r is Ok <==> message_builds(plan.from@, plan.to@),
        r matches Err(e) ==> e == ComposeError::Unbuildable,
        r matches Ok(m) ==> m@ == composed_from(*plan),
        r matches Ok(m) ==> {
            &&& m@.from == plan.from@
            &&& m@.reply_to == plan.reply_to@
            &&& m@.to == plan.to@
            &&& m@.subject == plan.subject@
            &&& m@.body == plan.body@
            &&& m@.content == plan.content
        },
{
    let from = match parse_mailbox(plan.from.as_str()) {
        Ok(m) => m,
        Err(_) => {
            return Err(ComposeError::InvalidFrom);
        },
    };
    let reply_to = match parse_mailbox(plan.reply_to.as_str()) {
        Ok(m) => m,
        Err(_) => {
            return Err(ComposeError::InvalidReplyTo);
        },
    };
    let to = match parse_mailbox(plan.to.as_str()) {
        Ok(m) => m,
        Err(_) => {
            return Err(ComposeError::InvalidTo);
        },
    };
    match build_message(from, reply_to, to, plan.subject.clone(), plan.body.clone(), plan.content) {
        Ok(mail) => Ok(mail),
        Err(_) => Err(ComposeError::Unbuildable),
    }
}

/// Composes the planned mail, checking its addresses first. The first address that is not
/// a mailbox, in the order sender, reply-to, recipient, is reported; with all three valid,
/// the mail is composed exactly when lettre builds a message from the sender and recipient.
pub fn checked_compose_email(plan: &EmailPlan) -> (r: Result<ComposedMail, ComposeError>)
    ensures
        r is Ok <==> (is_mailbox(plan.from@) && is_mailbox(plan.reply_to@) && is_mailbox(plan.to@)
            && message_builds(plan.from@, plan.to@)),
        r matches Err(e) ==> (e == ComposeError::InvalidFrom <==> !is_mailbox(plan.from@)),
        r matches Err(e) ==> (e == ComposeError::InvalidReplyTo <==> (is_mailbox(plan.from@)
            && !is_mailbox(plan.reply_to@))),
        r matches Err(e) ==> (e == ComposeError::InvalidTo <==> (is_mailbox(plan.from@)
            && is_mailbox(plan.reply_to@) && !is_mailbox(plan.to@))),
        r matches Err(e) ==> (e == ComposeError::Unbuildable <==> (is_mailbox(plan.from@)
            && is_mailbox(plan.reply_to@) && is_mailbox(plan.to@))),
        r matches Ok(m) ==> m@ == composed_from(*plan),
        r matches Ok(m) ==> {
            &&& m@.from == plan.from@
            &&& m@.reply_to == plan.reply_to@
            &&& m@.to == plan.to@
            &&& m@.subject == plan.subject@
            &&& m@.body == plan.body@
            &&& m@.content == plan.content
        },
{
    if !is_valid_mailbox(plan.from.as_str()) {
        return Err(ComposeError::InvalidFrom);
    }
    if !is_valid_mailbox(plan.reply_to.as_str()) {
        return Err(ComposeError::InvalidReplyTo);
    }
    if !is_valid_mailbox(plan.to.as_str()) {
        return Err(ComposeError::InvalidTo);
    }
    compose_email(plan)
}

} // verus!
