//! Errors of peer connections and data channels.
use std::sync::Arc;
use vstd::prelude::*;
use vstd::std_specs::convert::FromSpec;
use webrtc::Error as WebrtcError;

verus! {

/// The error type of `webrtc`. It is carried as it came and never looked into.
#[verifier::external_type_specification]
#[verifier::external_body]
pub struct ExWebrtcError(WebrtcError);

/// Why an operation on a peer connection or a data channel failed.
#[derive(Debug)]
pub enum Error {
    /// The data channel or the connection is closed.
    DataChannelNotOpen,
    /// The peer connection failed.
    ConnectionClosed,
    /// No ICE connection could be established.
    IceConnectionNotStarted,
    /// A failure that `webrtc` reported.
    Webrtc(Arc<WebrtcError>),
}

impl Error {
    pub fn channel_closed() -> (error: Self)
        ensures
            error == Error::DataChannelNotOpen,
        opens_invariants none
    {
        Error::DataChannelNotOpen
    }

    /// The same error once more.
    pub fn again(&self) -> (copy: Self)
        ensures
            copy == *self,
        opens_invariants none
    {
        match self {
            Error::DataChannelNotOpen => Error::DataChannelNotOpen,
            Error::ConnectionClosed => Error::ConnectionClosed,
            Error::IceConnectionNotStarted => Error::IceConnectionNotStarted,
            Error::Webrtc(cause) => Error::Webrtc(cause.clone()),
        }
    }

    /// What went wrong, in words.
    pub fn message(&self) -> (text: String)
        ensures
            *self is DataChannelNotOpen ==> text@ == "data channel not open"@,
            *self is ConnectionClosed ==> text@ == "connection closed"@,
            *self is IceConnectionNotStarted ==> text@ == "ICE connection not started"@,
    {
        match self {
            Error::DataChannelNotOpen => "data channel not open".to_owned(),
            Error::ConnectionClosed => "connection closed".to_owned(),
            Error::IceConnectionNotStarted => "ICE connection not started".to_owned(),
            Error::Webrtc(cause) => describe(cause),
        }
    }
}

/// The text that `webrtc::Error` displays, by its `to_string`. Nothing is claimed of it.
#[verifier::external_body]
fn describe(error: &WebrtcError) -> (text: String) {
    error.to_string()
}

impl Clone for Error {
    fn clone(&self) -> (copy: Self)
        ensures
            copy == *self,
    {
        self.again()
    }
}

impl From<WebrtcError> for Error {
    fn from(value: WebrtcError) -> (error: Self) {
        Error::Webrtc(Arc::new(value))
    }
}

impl vstd::std_specs::convert::FromSpecImpl<WebrtcError> for Error {
    open spec fn obeys_from_spec() -> bool {
        true
    }

    open spec fn from_spec(value: WebrtcError) -> Error {
        Error::Webrtc(Arc::new(value))
    }
}

/// A failure that `webrtc` reported is carried as it was reported, and told apart from every other.
pub proof fn failures_are_carried(a: WebrtcError, b: WebrtcError)
    ensures
        Error::from_spec(a) is Webrtc,
        *Error::from_spec(a)->Webrtc_0 == a,
        Error::from_spec(a) == Error::from_spec(b) ==> a == b,
{
}

} // verus!
