//! The fatal error kinds of the dispatcher: the failures after which no
//! callback can be delivered, surfaced to the invoking host instead.
use crate::events::RequestType;
use vstd::prelude::*;

verus! {

/// Why a request could not be dispatched.
#[derive(Debug, PartialEq)]
pub enum Error {
    /// The `RequestType` member is absent, not a string, or not one of the
    /// three recognized phases.
    InvalidRequestType,
    /// The `ResponseURL` member is absent, not a string, or not a valid
    /// absolute URI, so there is nowhere to send any response.
    InvalidResponseURI,
    /// The event had a recognized phase but did not fit that phase's shape.
    /// Carries the phase and the underlying cause: which required member was
    /// missing, or why a properties object did not match the provider's
    /// declared type.
    InvalidEvent(RequestType, String),
}

impl Error {
    /// One fixed line describing the error kind.
    pub fn description(&self) -> (r: &'static str)
        ensures
            (*self is InvalidRequestType) ==> r@ == "invalid or unknown RequestType"@,
            (*self is InvalidResponseURI) ==> r@ == "invalid or missing ResponseURI value in the event"@,
            (*self is InvalidEvent) ==> r@ == "invalid result from event deserialization attempt"@,
    {
        match self {
            Error::InvalidRequestType => "invalid or unknown RequestType",
            Error::InvalidResponseURI => "invalid or missing ResponseURI value in the event",
            Error::InvalidEvent(_, _) => "invalid result from event deserialization attempt",
        }
    }
}

} // verus!
