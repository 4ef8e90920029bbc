//! What a connection yields to its user, given what its framer reported.

use crate::ws::message::Message;
use tokio_tungstenite::tungstenite::Error;
use vstd::prelude::*;

verus! {

/// The error type of tungstenite, carried as it came.
#[verifier::external_type_specification]
#[verifier::external_body]
pub struct ExFramerError(tokio_tungstenite::tungstenite::Error);

/// A failure of an established connection. Transport and protocol failures
/// alike are reported as this one kind, which keeps the cause.
#[derive(Debug)]
pub struct StreamError {
    cause: Error,
}

impl StreamError {
    /// The failure the framer reported.
    pub closed spec fn spec_cause(&self) -> Error {
        self.cause
    }

    /// Wraps a failure of the framer.
    pub fn other(cause: Error) -> (error: StreamError)
        ensures
            error.spec_cause() == cause,
    {
        StreamError { cause }
    }

    /// The failure the framer reported.
    pub fn cause(&self) -> (cause: &Error)
        ensures
            *cause == self.spec_cause(),
    {
        &self.cause
    }

    /// Gives the cause up.
    pub fn into_cause(self) -> (cause: Error)
        ensures
            cause == self.spec_cause(),
    {
        self.cause
    }
}

/// What the inbound side yields for one report of the framer.
///
/// A message is passed on as it is, whatever its kind: a ping is shown to
/// the user although the framer answers it, and a close is only reported.
/// A failure is wrapped. The end of the stream stays the end.
pub fn received(polled: Option<Result<Message, Error>>) -> (item: Option<Result<Message, StreamError>>)
    ensures
        match polled {
            Some(Ok(message)) => item == Some(Ok::<Message, StreamError>(message)),
            Some(Err(cause)) => item matches Some(Err(error)) && error.spec_cause() == cause,
            None => item is None,
        },
{
    match polled {
        Some(Ok(message)) => Some(Ok(message)),
        Some(Err(cause)) => Some(Err(StreamError::other(cause))),
        None => None,
    }
}

/// The result of an outbound step (readiness, send, flush or close), given
/// what the framer reported for it: success stays success, a failure is
/// wrapped.
pub fn completed(result: Result<(), Error>) -> (outcome: Result<(), StreamError>)
    ensures
        match result {
            Ok(_) => outcome is Ok,
            Err(cause) => outcome matches Err(error) && error.spec_cause() == cause,
        },
{
    match result {
        Ok(()) => Ok(()),
        Err(cause) => Err(StreamError::other(cause)),
    }
}

} // verus!
