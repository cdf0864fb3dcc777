use vstd::prelude::*;
use lettre::message::header::ContentType;

verus! {

/// lettre's mailbox (an address with an optional display name), carried through opaquely.
#[verifier::external_type_specification]
#[verifier::external_body]
pub struct ExMailbox(lettre::message::Mailbox);

/// lettre's error for a text that is not a mailbox, carried through opaquely.
#[verifier::external_type_specification]
#[verifier::external_body]
pub struct ExAddressError(lettre::address::AddressError);

/// lettre's composed mail, carried through opaquely.
#[verifier::external_type_specification]
#[verifier::external_body]
pub struct ExMessage(lettre::Message);

/// lettre's error for a mail that cannot be built, carried through opaquely.
#[verifier::external_type_specification]
#[verifier::external_body]
pub struct ExLettreError(lettre::error::Error);

/// Whether lettre reads the text as a mailbox (`user@domain`, optionally with a display name).
pub uninterp spec fn is_mailbox(text: Seq<char>) -> bool;

/// Whether lettre builds a message whose sender and recipient are the mailboxes parsed from
/// these texts. lettre stores each address in its header in display form and reads it back
/// when it builds the message; some mailboxes do not survive that round trip.
pub uninterp spec fn message_builds(from: Seq<char>, to: Seq<char>) -> bool;

/// The kind of content of an alert mail.
#[derive(Debug, Clone, Copy, PartialEq, Eq, Structural)]
pub enum ContentKind {
    /// `text/plain` (UTF-8).
    PlainText,
}

/// A mailbox as lettre parsed it, inseparable from the text it was parsed from.
#[derive(Debug)]
pub struct ParsedMailbox {
    mailbox: lettre::message::Mailbox,
    text: String,
}

impl View for ParsedMailbox {
    type V = Seq<char>;

    /// The text the mailbox was parsed from.
    closed spec fn view(&self) -> Seq<char> {
        self.text@
    }
}

/// What a composed mail was composed from.
pub struct ComposedMailView {
    pub from: Seq<char>,
    pub reply_to: Seq<char>,
    pub to: Seq<char>,
    pub subject: Seq<char>,
    pub body: Seq<char>,
    pub content: ContentKind,
}

/// A mail as lettre composed it, inseparable from the addresses, subject, body and content
/// kind it was composed from.
#[derive(Debug)]
pub struct ComposedMail {
    message: lettre::Message,
    from: String,
    reply_to: String,
    to: String,
    subject: String,
    body: String,
    content: ContentKind,
}

impl View for ComposedMail {
    type V = ComposedMailView;

    closed spec fn view(&self) -> ComposedMailView {
        ComposedMailView {
            from: self.from@,
            reply_to: self.reply_to@,
            to: self.to@,
            subject: self.subject@,
            body: self.body@,
            content: self.content,
        }
    }
}

impl ComposedMail {
    pub fn from(&self) -> (r: &String)
        ensures
            r@ == self@.from,
    {
        &self.from
    }

    pub fn reply_to(&self) -> (r: &String)
        ensures
            r@ == self@.reply_to,
    {
        &self.reply_to
    }

    pub fn to(&self) -> (r: &String)
        ensures
            r@ == self@.to,
    {
        &self.to
    }

    pub fn subject(&self) -> (r: &String)
        ensures
            r@ == self@.subject,
    {
        &self.subject
    }

    pub fn body(&self) -> (r: &String)
        ensures
            r@ == self@.body,
    {
        &self.body
    }

    pub fn content(&self) -> (r: ContentKind)
        ensures
            r == self@.content,
    {
        self.content
    }

    /// The message lettre composed, to be sent.
    pub fn message(&self) -> &lettre::Message {
        &self.message
    }
}

/// Parses a mailbox with lettre's `FromStr for Mailbox`; the parse succeeds exactly
/// on the texts named by `is_mailbox`, a function of the text alone, and the result
/// keeps the text it was parsed from.
#[verifier::external_body]
pub(crate) fn parse_mailbox(text: &str) -> (r: Result<ParsedMailbox, lettre::address::AddressError>)
    ensures
        r is Ok <==> is_mailbox(text@),
        r matches Ok(m) ==> m@ == text@,
{
    match text.parse::<lettre::message::Mailbox>() {
        Ok(mailbox) => Ok(ParsedMailbox { mailbox, text: text.to_owned() }),
        Err(e) => Err(e),
    }
}

/// Builds a message with lettre's `MessageBuilder` (`from`, `reply_to`, `to`, `subject`,
/// the `Content-Type` header of `content`, then `body`) and keeps beside it what it was
/// built from. lettre's build (`MessageBuilder::build`, `Envelope::try_from`) reads the
/// sender and recipient back from their headers and fails where one of them does not
/// survive that; whether it succeeds is named by `message_builds` over the two texts. The
/// message also carries a `Date` header set to the current time, which is left unsaid.
#[verifier::external_body]
pub(crate) fn build_message(
    from: ParsedMailbox,
    reply_to: ParsedMailbox,
    to: ParsedMailbox,
    subject: String,
    body: String,
    content: ContentKind,
) -> (r: Result<ComposedMail, lettre::error::Error>)
    ensures
        r is Ok <==> message_builds(from@, to@),
        r matches Ok(m) ==> m@ == (ComposedMailView {
            from: from@,
            reply_to: reply_to@,
            to: to@,
            subject: subject@,
            body: body@,
            content,
        }),
{
    let content_type = match content {
        ContentKind::PlainText => ContentType::TEXT_PLAIN,
    };
    let message = lettre::Message::builder().from(from.mailbox).reply_to(reply_to.mailbox).to(
        to.mailbox,
    ).subject(subject.clone()).header(content_type).body(body.clone())?;
    Ok(ComposedMail { message, from: from.text, reply_to: reply_to.text, to: to.text, subject, body, content })
}

} // verus!
