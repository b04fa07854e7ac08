//! The notifier: it decides what is sent and to whom, and queues it. The
//! transport that delivers the queue lives outside this library.

use crate::email::types::{EmailMessage, EmailMessageView, SmtpConfig, SmtpConfigView};
use crate::text::str_eq;
use vstd::prelude::*;
use vstd::string::*;

verus! {

/// Address of the front end used where none is configured.
pub const DEFAULT_FRONTEND_URL: &'static str = "http://localhost:1420";

/// Path under the front end at which a token is redeemed.
pub const VERIFY_EMAIL_PATH: &'static str = "/verify-email/";

/// What a verification email says before the link.
pub const VERIFICATION_BODY_OPENING: &'static str =
    "こんにちは、\n\n以下のリンクをクリックしてメールアドレスを確認してください:\n\n";

/// What a verification email says after the link.
pub const VERIFICATION_BODY_CLOSING: &'static str =
    "\n\nこのリンクは24時間有効です。\n\nよろしくお願いします。";

/// Subject line of a verification email.
pub const VERIFICATION_SUBJECT: &'static str = "メールアドレスを確認してください";

/// Host names of relays that are spoken to without encryption.
pub const LOCAL_RELAY: &'static str = "localhost";

pub const MAILHOG_RELAY: &'static str = "mailhog";

/// The text of a verification email: the link `frontend_url/verify-email/token`
/// between the fixed opening and closing.
pub open spec fn spec_verification_email_body(frontend_url: Seq<char>, token: Seq<char>) -> Seq<
    char,
> {
    VERIFICATION_BODY_OPENING@ + frontend_url + VERIFY_EMAIL_PATH@ + token
        + VERIFICATION_BODY_CLOSING@
}

/// The message that carries `token` to `recipient`.
pub open spec fn spec_verification_email(
    recipient: Seq<char>,
    frontend_url: Seq<char>,
    token: Seq<char>,
) -> EmailMessageView {
    EmailMessageView {
        to: seq![recipient],
        subject: VERIFICATION_SUBJECT@,
        body: spec_verification_email_body(frontend_url, token),
    }
}

pub struct EmailServiceView {
    pub smtp_config: SmtpConfigView,
    pub frontend_url: Seq<char>,
    /// The messages waiting for delivery, oldest first.
    pub outbox: Seq<EmailMessageView>,
}

/// The notifier of the identity service.
pub struct EmailService {
    smtp_config: SmtpConfig,
    frontend_url: String,
    outbox: Vec<EmailMessage>,
}

impl View for EmailService {
    type V = EmailServiceView;

    closed spec fn view(&self) -> EmailServiceView {
        EmailServiceView {
            smtp_config: self.smtp_config@,
            frontend_url: self.frontend_url@,
            outbox: self.outbox@.map_values(|m: EmailMessage| m@),
        }
    }
}

impl EmailService {
    /// A notifier with an empty queue that links to the default front end.
    pub fn new(smtp_config: SmtpConfig) -> (service: Self)
        ensures
            service@.smtp_config == smtp_config@,
            service@.frontend_url == DEFAULT_FRONTEND_URL@,
            service@.outbox.len() == 0,
    {
        EmailService {
            smtp_config,
            frontend_url: String::from_str(DEFAULT_FRONTEND_URL),
            outbox: Vec::new(),
        }
    }

    /// The same notifier, linking to `frontend_url` from now on.
    pub fn with_frontend_url(self, frontend_url: String) -> (service: Self)
        ensures
            service@ == (EmailServiceView { frontend_url: frontend_url@, ..self@ }),
    {
        EmailService { smtp_config: self.smtp_config, frontend_url, outbox: self.outbox }
    }

    /// The relay's configuration.
    pub fn smtp_config(&self) -> (config: &SmtpConfig)
        ensures
            config@ == self@.smtp_config,
    {
        &self.smtp_config
    }

    /// The address of the front end that verification links point to.
    pub fn frontend_url(&self) -> (url: &str)
        ensures
            url@ == self@.frontend_url,
    {
        self.frontend_url.as_str()
    }

    /// Whether the relay is a local one, reached without encryption.
    pub fn uses_local_relay(&self) -> (local: bool)
        ensures
            local == (self@.smtp_config.host == LOCAL_RELAY@ || self@.smtp_config.host
                == MAILHOG_RELAY@),
    {
        str_eq(self.smtp_config.host.as_str(), LOCAL_RELAY) || str_eq(
            self.smtp_config.host.as_str(),
            MAILHOG_RELAY,
        )
    }

    /// Queues `message` for delivery.
    pub fn send_email(&mut self, message: &EmailMessage)
        ensures
            final(self)@ == (EmailServiceView {
                outbox: old(self)@.outbox.push(message@),
                ..old(self)@
            }),
    {
        let copy = message.clone();
        self.outbox.push(copy);
        assert(self.outbox@.map_values(|m: EmailMessage| m@) =~= old(self).outbox@.map_values(
            |m: EmailMessage| m@,
        ).push(message@));
    }

    /// Queues a plain-text message to one recipient.
    pub fn send_simple_text_email(&mut self, to: &str, subject: &str, body: &str)
        ensures
            final(self)@ == (EmailServiceView {
                outbox: old(self)@.outbox.push(
                    EmailMessageView { to: seq![to@], subject: subject@, body: body@ },
                ),
                ..old(self)@
            }),
    {
        let mut recipients: Vec<String> = Vec::new();
        recipients.push(String::from_str(to));
        let message = EmailMessage::new(
            recipients,
            String::from_str(subject),
            String::from_str(body),
        );
        assert(message@.to =~= seq![to@]);
        self.send_email(&message);
    }

    /// Hands the queued messages over, oldest first, and empties the queue.
    pub fn take_outbox(&mut self) -> (messages: Vec<EmailMessage>)
        ensures
            messages@.map_values(|m: EmailMessage| m@) == old(self)@.outbox,
            final(self)@ == (EmailServiceView { outbox: Seq::empty(), ..old(self)@ }),
    {
        let mut messages: Vec<EmailMessage> = Vec::new();
        core::mem::swap(&mut self.outbox, &mut messages);
        assert(self.outbox@.map_values(|m: EmailMessage| m@) =~= Seq::empty());
        messages
    }

    /// The message that carries `token` to `recipient`, linking to
    /// `frontend_url`.
    pub fn verification_email(recipient: &str, frontend_url: &str, token: &str) -> (message:
        EmailMessage)
        ensures
            message@ == spec_verification_email(recipient@, frontend_url@, token@),
    {
        let mut to: Vec<String> = Vec::new();
        to.push(String::from_str(recipient));
        let message = EmailMessage::new(
            to,
            String::from_str(VERIFICATION_SUBJECT),
            Self::build_verification_email_body(frontend_url, token),
        );
        assert(message@.to =~= seq![recipient@]);
        message
    }

    /// The text of the email that carries `token`, linking to `frontend_url`.
    pub fn build_verification_email_body(frontend_url: &str, token: &str) -> (body: String)
        ensures
            body@ == spec_verification_email_body(frontend_url@, token@),
    {
        let mut body = String::from_str(VERIFICATION_BODY_OPENING);
        body.append(frontend_url);
        body.append(VERIFY_EMAIL_PATH);
        body.append(token);
        body.append(VERIFICATION_BODY_CLOSING);
        body
    }
}

} // verus!
