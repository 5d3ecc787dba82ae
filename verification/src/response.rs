//! What comes back: the report of the transport is reduced to a parsed
//! value or to one failure, and that to the envelope the caller receives.

use vstd::prelude::*;
use crate::error::is_success;
use crate::error::status_is_success;
use crate::error::GatewayError;
use crate::error::FAILURE_STATUS;
use crate::error::SUCCESS_STATUS;
use crate::json::json_of_text;
use crate::json::parse_json;

verus! {

/// What the transport reported of one outbound request.
#[derive(Clone, Debug, PartialEq, Eq)]
pub enum TransportOutcome {
    /// The call did not complete: no reply was received.
    Unreachable,
    /// The provider replied with this status and this body.
    Replied { status: u16, body: String },
}

/// What is done with the body of a reply.
#[derive(Clone, Copy, Debug, PartialEq, Eq, Structural)]
pub enum ResponseMode {
    /// The body is parsed as JSON and handed on.
    Parsed,
    /// The body is not looked at.
    Discarded,
}

/// What a reply with the given status amounts to, given what its body
/// parsed to: malformed where the body is no JSON text, the value itself
/// under a success status, and a rejection that keeps the value under any
/// other status.
pub open spec fn classified(status: u16, parsed: Option<serde_json::Value>) -> Result<
    serde_json::Value,
    GatewayError,
> {
    match parsed {
        None => Err(GatewayError::ResponseMalformed),
        Some(value) => if status_is_success(status) {
            Ok(value)
        } else {
            Err(GatewayError::ProviderRejected { status, payload: value })
        },
    }
}

/// What the report of the transport amounts to where the body is parsed.
pub open spec fn interpreted(outcome: TransportOutcome) -> Result<serde_json::Value, GatewayError> {
    match outcome {
        TransportOutcome::Unreachable => Err(GatewayError::ProviderUnreachable),
        TransportOutcome::Replied { status, body } => classified(status, json_of_text(body@)),
    }
}

/// What the report of the transport amounts to where the body is not
/// looked at: a reply is a success whatever its status.
pub open spec fn acknowledged(outcome: TransportOutcome) -> Result<(), GatewayError> {
    match outcome {
        TransportOutcome::Unreachable => Err(GatewayError::ProviderUnreachable),
        TransportOutcome::Replied { .. } => Ok(()),
    }
}

/// Decides what a reply amounts to from its status and from what its body
/// parsed to.
pub fn classify(status: u16, parsed: Option<serde_json::Value>) -> (result: Result<
    serde_json::Value,
    GatewayError,
>)
    ensures
        result == classified(status, parsed),
{
    match parsed {
        None => Err(GatewayError::ResponseMalformed),
        Some(value) => {
            if is_success(status) {
                Ok(value)
            } else {
                Err(GatewayError::ProviderRejected { status, payload: value })
            }
        },
    }
}

/// Reduces the report of the transport to the parsed reply or to one
/// failure: `ProviderUnreachable` where no reply came, `ResponseMalformed`
/// where the body is no JSON text, `ProviderRejected` with the parsed body
/// where the status is outside the success class, and the parsed body
/// otherwise.
pub fn interpret_reply(outcome: &TransportOutcome) -> (result: Result<
    serde_json::Value,
    GatewayError,
>)
    ensures
        result == interpreted(*outcome),
{
    match outcome {
        TransportOutcome::Unreachable => Err(GatewayError::ProviderUnreachable),
        TransportOutcome::Replied { status, body } => {
            let parsed = match parse_json(body.as_str()) {
                Ok(value) => Some(value),
                Err(_) => None,
            };
            classify(*status, parsed)
        },
    }
}

/// Reduces the report of the transport for an operation that returns no
/// body: it succeeded if the provider replied at all, whatever the status,
/// and failed with `ProviderUnreachable` if it did not.
pub fn interpret_delete(outcome: &TransportOutcome) -> (result: Result<(), GatewayError>)
    ensures
        result == acknowledged(*outcome),
{
    match outcome {
        TransportOutcome::Unreachable => Err(GatewayError::ProviderUnreachable),
        TransportOutcome::Replied { .. } => Ok(()),
    }
}

/// What a provider sent when it rejected a request: its status, and its
/// body as it parsed.
#[derive(Debug, PartialEq)]
pub struct Rejection {
    pub status: u16,
    pub payload: serde_json::Value,
}

/// The uniform answer of the gateway to its caller.
#[derive(Debug, PartialEq)]
pub enum Envelope {
    /// The parsed reply of the provider.
    Value(serde_json::Value),
    /// Success without a body.
    Empty,
    /// One failure, with the status it is reported under and its
    /// description. Where the provider rejected the request, what it sent is
    /// forwarded with the failure.
    Failure { status: u16, message: String, rejection: Option<Rejection> },
}

/// What an [`Envelope`] holds.
pub ghost enum EnvelopeView {
    Value(serde_json::Value),
    Empty,
    Failure { status: u16, message: Seq<char>, rejection: Option<Rejection> },
}

impl View for Envelope {
    type V = EnvelopeView;

    open spec fn view(&self) -> EnvelopeView {
        match self {
            Envelope::Value(value) => EnvelopeView::Value(*value),
            Envelope::Empty => EnvelopeView::Empty,
            Envelope::Failure { status, message, rejection } => EnvelopeView::Failure {
                status: *status,
                message: message@,
                rejection: *rejection,
            },
        }
    }
}

impl EnvelopeView {
    /// The HTTP status under which the envelope is written.
    pub open spec fn status(self) -> u16 {
        match self {
            EnvelopeView::Failure { status, .. } => status,
            _ => SUCCESS_STATUS,
        }
    }
}

impl Envelope {
    /// Returns the HTTP status under which the envelope is written.
    pub fn status(&self) -> (status: u16)
        ensures
            status == self@.status(),
    {
        match self {
            Envelope::Failure { status, .. } => *status,
            _ => SUCCESS_STATUS,
        }
    }
}

/// The words that every failure message begins with.
pub const FAILURE_PREFIX: &'static str = "Something went wrong: ";

/// What a failure forwards of the provider's reply: status and payload of
/// a rejection, and nothing of any other failure.
pub open spec fn rejection_of(error: GatewayError) -> Option<Rejection> {
    match error {
        GatewayError::ProviderRejected { status, payload } => Some(Rejection { status, payload }),
        _ => None,
    }
}

/// The envelope of a failure: the one failure status, the failure's
/// description behind the fixed prefix, and what a rejection forwards.
pub open spec fn failure_envelope(error: GatewayError) -> EnvelopeView {
    EnvelopeView::Failure {
        status: FAILURE_STATUS,
        message: FAILURE_PREFIX@ + error.message(),
        rejection: rejection_of(error),
    }
}

/// The envelope of an outcome: the value, nothing, or the failure.
pub open spec fn normalized(result: Result<Option<serde_json::Value>, GatewayError>) -> EnvelopeView {
    match result {
        Ok(Some(value)) => EnvelopeView::Value(value),
        Ok(None) => EnvelopeView::Empty,
        Err(error) => failure_envelope(error),
    }
}

/// The envelope that the report of the transport leads to under a mode.
pub open spec fn responded(mode: ResponseMode, outcome: TransportOutcome) -> EnvelopeView {
    match mode {
        ResponseMode::Parsed => normalized(
            match interpreted(outcome) {
                Ok(value) => Ok(Some(value)),
                Err(error) => Err(error),
            },
        ),
        ResponseMode::Discarded => normalized(
            match acknowledged(outcome) {
                Ok(_) => Ok(None),
                Err(error) => Err(error),
            },
        ),
    }
}

/// Writes a failure as an envelope. Every failure of a request is reported
/// under the same status; a rejection keeps what the provider sent.
pub fn fail(error: GatewayError) -> (envelope: Envelope)
    ensures
        envelope@ == failure_envelope(error),
{
    let mut message = FAILURE_PREFIX.to_owned();
    let description = error.describe();
    message.append(description.as_str());
    let rejection = match error {
        GatewayError::ProviderRejected { status, payload } => Some(Rejection { status, payload }),
        _ => None,
    };
    Envelope::Failure { status: FAILURE_STATUS, message, rejection }
}

/// Collapses the outcome of a provider call into the envelope: a parsed
/// value, a success without a body, or a failure.
pub fn normalize(result: Result<Option<serde_json::Value>, GatewayError>) -> (envelope: Envelope)
    ensures
        envelope@ == normalized(result),
{
    match result {
        Ok(Some(value)) => Envelope::Value(value),
        Ok(None) => Envelope::Empty,
        Err(error) => fail(error),
    }
}

/// Turns the report of the transport into the envelope for the caller,
/// parsing the body or not as the mode says.
pub fn respond(mode: ResponseMode, outcome: &TransportOutcome) -> (envelope: Envelope)
    ensures
        envelope@ == responded(mode, *outcome),
{
    match mode {
        ResponseMode::Parsed => {
            match interpret_reply(outcome) {
                Ok(value) => normalize(Ok(Some(value))),
                Err(error) => normalize(Err(error)),
            }
        },
        ResponseMode::Discarded => {
            match interpret_delete(outcome) {
                Ok(_) => normalize(Ok(None)),
                Err(error) => normalize(Err(error)),
            }
        },
    }
}

/// Every envelope is written under one of two statuses: a failure, of
/// whatever kind, under the failure status, and everything else under the
/// success status.
pub proof fn law_failures_share_one_status(mode: ResponseMode, outcome: TransportOutcome)
    ensures
        responded(mode, outcome) is Failure ==> responded(mode, outcome).status()
            == FAILURE_STATUS,
        !(responded(mode, outcome) is Failure) ==> responded(mode, outcome).status()
            == SUCCESS_STATUS,
        responded(mode, outcome) is Failure <==> (outcome is Unreachable || (mode
            == ResponseMode::Parsed && interpreted(outcome) is Err)),
{
}

/// An operation that returns no body succeeds whenever the provider
/// replies, whatever the status: deleting what is already gone is reported
/// as a success like the first deletion.
pub proof fn law_reply_to_deletion_is_success(first: TransportOutcome, second: TransportOutcome)
    requires
        first is Replied,
        second is Replied,
    ensures
        acknowledged(first) == Ok::<(), GatewayError>(()),
        acknowledged(second) == acknowledged(first),
        responded(ResponseMode::Discarded, second) == EnvelopeView::Empty,
{
}

/// A reply that never came and a reply that cannot be understood are told
/// apart, and a rejection keeps what the provider sent.
pub proof fn law_failures_are_told_apart(status: u16, body: String)
    ensures
        interpreted(TransportOutcome::Unreachable) == Err::<serde_json::Value, GatewayError>(
            GatewayError::ProviderUnreachable,
        ),
        json_of_text(body@) is None ==> interpreted(TransportOutcome::Replied { status, body })
            == Err::<serde_json::Value, GatewayError>(GatewayError::ResponseMalformed),
        json_of_text(body@) matches Some(value) ==> interpreted(
            TransportOutcome::Replied { status, body },
        ) == (if status_is_success(status) {
            Ok::<serde_json::Value, GatewayError>(value)
        } else {
            Err::<serde_json::Value, GatewayError>(
                GatewayError::ProviderRejected { status, payload: value },
            )
        }),
{
}

} // verus!
