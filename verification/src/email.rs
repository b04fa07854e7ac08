//! Outbound email: the messages the service wants delivered and the queue
//! they wait in until the transport picks them up.

pub mod service;
pub mod types;

pub use service::EmailService;
pub use types::{EmailMessage, SmtpConfig};
