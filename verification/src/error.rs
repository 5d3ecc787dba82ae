//! The failure kinds that every provider operation is reduced to.

use vstd::prelude::*;

verus! {

/// The first rule that a mail breaks.
#[derive(Clone, Copy, Debug, PartialEq, Eq, Structural)]
pub enum MailDefect {
    /// The subject is empty.
    EmptySubject,
    /// The sender address is empty.
    EmptySender,
    /// No personalization names a recipient.
    NoRecipient,
}

/// The kind of a failure, without what the failure carries.
#[derive(Clone, Copy, Debug, PartialEq, Eq, Structural)]
pub enum ErrorKind {
    ProviderUnreachable,
    ProviderRejected,
    ResponseMalformed,
    MediaSourceUnavailable,
    MissingCredentials,
    InvalidMail,
}

/// A failure of one gateway operation.
#[derive(Debug, PartialEq)]
pub enum GatewayError {
    /// The network call did not complete: the provider never replied.
    ProviderUnreachable,
    /// The provider replied with a status outside the success class. What it
    /// sent is kept as it parsed.
    ProviderRejected { status: u16, payload: serde_json::Value },
    /// The provider replied with a body that is no JSON text.
    ResponseMalformed,
    /// The local file to upload cannot be opened.
    MediaSourceUnavailable,
    /// A credential is absent at startup.
    MissingCredentials,
    /// The mail to send breaks a rule of the mail model.
    InvalidMail(MailDefect),
}

/// The HTTP status under which every failure of a request is reported.
pub const FAILURE_STATUS: u16 = 500;

/// The HTTP status under which a success is reported.
pub const SUCCESS_STATUS: u16 = 200;

/// Whether an HTTP status code lies in the success class (200 to 299).
pub open spec fn status_is_success(status: u16) -> bool {
    200 <= status < 300
}

/// Tests whether an HTTP status code lies in the success class.
pub fn is_success(status: u16) -> (ok: bool)
    ensures
        ok == status_is_success(status),
{
    200 <= status && status < 300
}

impl MailDefect {
    /// The text that describes the defect.
    pub open spec fn message(self) -> Seq<char> {
        match self {
            MailDefect::EmptySubject => "mail has an empty subject"@,
            MailDefect::EmptySender => "mail has an empty sender address"@,
            MailDefect::NoRecipient => "mail has no recipient"@,
        }
    }

    /// Describes the defect in words.
    pub fn describe(&self) -> (text: String)
        ensures
            text@ == self.message(),
    {
        match self {
            MailDefect::EmptySubject => "mail has an empty subject".to_owned(),
            MailDefect::EmptySender => "mail has an empty sender address".to_owned(),
            MailDefect::NoRecipient => "mail has no recipient".to_owned(),
        }
    }
}

impl ErrorKind {
    /// Whether a failure of this kind stops the process before it serves
    /// anything, rather than failing one request.
    pub open spec fn fatal(self) -> bool {
        self == ErrorKind::MissingCredentials
    }

    /// Tests whether a failure of this kind is fatal at startup.
    pub fn is_fatal(&self) -> (fatal: bool)
        ensures
            fatal == self.fatal(),
    {
        match self {
            ErrorKind::MissingCredentials => true,
            _ => false,
        }
    }
}

impl GatewayError {
    /// The kind of this failure.
    pub open spec fn kind_of(self) -> ErrorKind {
        match self {
            GatewayError::ProviderUnreachable => ErrorKind::ProviderUnreachable,
            GatewayError::ProviderRejected { .. } => ErrorKind::ProviderRejected,
            GatewayError::ResponseMalformed => ErrorKind::ResponseMalformed,
            GatewayError::MediaSourceUnavailable => ErrorKind::MediaSourceUnavailable,
            GatewayError::MissingCredentials => ErrorKind::MissingCredentials,
            GatewayError::InvalidMail(_) => ErrorKind::InvalidMail,
        }
    }

    /// The text that describes this failure.
    pub open spec fn message(self) -> Seq<char> {
        match self {
            GatewayError::ProviderUnreachable => "provider unreachable"@,
            GatewayError::ProviderRejected { .. } => "provider rejected the request"@,
            GatewayError::ResponseMalformed => "provider response malformed"@,
            GatewayError::MediaSourceUnavailable => "media source unavailable"@,
            GatewayError::MissingCredentials => "missing credentials"@,
            GatewayError::InvalidMail(defect) => defect.message(),
        }
    }

    /// Returns the kind of this failure.
    pub fn kind(&self) -> (kind: ErrorKind)
        ensures
            kind == self.kind_of(),
    {
        match self {
            GatewayError::ProviderUnreachable => ErrorKind::ProviderUnreachable,
            GatewayError::ProviderRejected { .. } => ErrorKind::ProviderRejected,
            GatewayError::ResponseMalformed => ErrorKind::ResponseMalformed,
            GatewayError::MediaSourceUnavailable => ErrorKind::MediaSourceUnavailable,
            GatewayError::MissingCredentials => ErrorKind::MissingCredentials,
            GatewayError::InvalidMail(_) => ErrorKind::InvalidMail,
        }
    }

    /// Describes this failure in words.
    pub fn describe(&self) -> (text: String)
        ensures
            text@ == self.message(),
    {
        match self {
            GatewayError::ProviderUnreachable => "provider unreachable".to_owned(),
            GatewayError::ProviderRejected { .. } => "provider rejected the request".to_owned(),
            GatewayError::ResponseMalformed => "provider response malformed".to_owned(),
            GatewayError::MediaSourceUnavailable => "media source unavailable".to_owned(),
            GatewayError::MissingCredentials => "missing credentials".to_owned(),
            GatewayError::InvalidMail(defect) => defect.describe(),
        }
    }
}

} // verus!
