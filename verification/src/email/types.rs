//! Configuration of the mail relay and the shape of a message.

use vstd::prelude::*;
use vstd::string::*;

verus! {

/// Host of the relay used where none is configured.
pub const DEFAULT_SMTP_HOST: &'static str = "smtp.gmail.com";

/// Port of the relay used where none is configured.
pub const DEFAULT_SMTP_PORT: u16 = 587;

/// Where and as whom mail is handed to the relay.
#[derive(Debug)]
pub struct SmtpConfig {
    pub host: String,
    pub port: u16,
    pub username: String,
    pub password: String,
    pub from_email: String,
}

pub struct SmtpConfigView {
    pub host: Seq<char>,
    pub port: u16,
    pub username: Seq<char>,
    pub password: Seq<char>,
    pub from_email: Seq<char>,
}

impl View for SmtpConfig {
    type V = SmtpConfigView;

    open spec fn view(&self) -> SmtpConfigView {
        SmtpConfigView {
            host: self.host@,
            port: self.port,
            username: self.username@,
            password: self.password@,
            from_email: self.from_email@,
        }
    }
}

impl Clone for SmtpConfig {
    fn clone(&self) -> (copy: Self)
        ensures
            copy@ == self@,
    {
        SmtpConfig {
            host: self.host.clone(),
            port: self.port,
            username: self.username.clone(),
            password: self.password.clone(),
            from_email: self.from_email.clone(),
        }
    }
}

impl SmtpConfig {
    /// The configuration for the default relay with the given credentials and
    /// sender address.
    pub fn with_credentials(username: String, password: String, from_email: String) -> (config:
        Self)
        ensures
            config@ == (SmtpConfigView {
                host: DEFAULT_SMTP_HOST@,
                port: DEFAULT_SMTP_PORT,
                username: username@,
                password: password@,
                from_email: from_email@,
            }),
    {
        SmtpConfig {
            host: String::from_str(DEFAULT_SMTP_HOST),
            port: DEFAULT_SMTP_PORT,
            username,
            password,
            from_email,
        }
    }
}

/// A plain-text message and those who are to receive it.
#[derive(Debug)]
pub struct EmailMessage {
    pub to: Vec<String>,
    pub subject: String,
    pub body: String,
}

pub struct EmailMessageView {
    pub to: Seq<Seq<char>>,
    pub subject: Seq<char>,
    pub body: Seq<char>,
}

impl View for EmailMessage {
    type V = EmailMessageView;

    open spec fn view(&self) -> EmailMessageView {
        EmailMessageView {
            to: self.to@.map_values(|s: String| s@),
            subject: self.subject@,
            body: self.body@,
        }
    }
}

impl Clone for EmailMessage {
    fn clone(&self) -> (copy: Self)
        ensures
            copy@ == self@,
    {
        let mut to: Vec<String> = Vec::new();
        let mut i: usize = 0;
        while i < self.to.len()
            invariant
                i <= self.to.len(),
                to@.len() == i,
                forall|k: int| 0 <= k < i ==> (#[trigger] to@[k])@ == self.to@[k]@,
            decreases self.to.len() - i,
        {
            to.push(self.to[i].clone());
            i += 1;
        }
        assert(to@.map_values(|s: String| s@) =~= self.to@.map_values(|s: String| s@));
        EmailMessage { to, subject: self.subject.clone(), body: self.body.clone() }
    }
}

impl EmailMessage {
    pub fn new(to: Vec<String>, subject: String, body: String) -> (message: Self)
        ensures
            message.to == to,
            message.subject == subject,
            message.body == body,
    {
        EmailMessage { to, subject, body }
    }
}

} // verus!
