//! Request planning and response normalisation for a gateway that fronts
//! several communication providers behind one uniform interface.
//!
//! Nothing here performs I/O. Each provider client turns the parameters of an
//! operation into the one outbound request that carries it out; the caller
//! sends that request and hands back what the transport reported, which is
//! then reduced to a parsed value or to one failure kind.

pub mod conversation;
pub mod document;
pub mod email;
pub mod error;
pub mod gateway;
pub mod json;
pub mod request;
pub mod response;
pub mod sms;
pub mod transfer;
pub mod voice;
