//! The errors the listener client reports.

use vstd::prelude::*;

verus! {

/// What can go wrong while polling or acknowledging.
///
/// Errors met inside an automatic cycle are reported in the cycle's plan and
/// absorbed by the driver — the poller re-arms its timer and self-heals on
/// the next tick. Errors on the manual acknowledge path and at construction
/// are returned to the caller.
#[derive(Debug)]
pub enum Error {
    /// The fetch call failed in transport or protocol.
    ReceiveMessages(rusoto_core::RusotoError<rusoto_sqs::ReceiveMessageError>),
    /// A manual acknowledgement's delete call failed.
    AckMessage(rusoto_core::RusotoError<rusoto_sqs::DeleteMessageError>),
    /// The message carries no receipt handle to acknowledge it with.
    NoMessageHandle,
    /// The listener has stopped; no further operation reaches it.
    ListenerStopped,
    /// The fetch response carried no message list at all.
    UnknownReceiveMessages,
}

impl Error {
    /// A short name of the error's kind, for reporting.
    pub fn describe(&self) -> (r: &'static str)
        ensures
            (*self is ReceiveMessages) ==> r@ == "unable to receive messages"@,
            (*self is AckMessage) ==> r@ == "unable to acknowledge message"@,
            (*self is NoMessageHandle) ==> r@
                == "Message did not contain a message handle to use for acknowledging"@,
            (*self is ListenerStopped) ==> r@ == "Listener has stopped"@,
            (*self is UnknownReceiveMessages) ==> r@ == "unable to receive messages"@,
    {
        match self {
            Error::ReceiveMessages(_) => "unable to receive messages",
            Error::AckMessage(_) => "unable to acknowledge message",
            Error::NoMessageHandle => {
                "Message did not contain a message handle to use for acknowledging"
            },
            Error::ListenerStopped => "Listener has stopped",
            Error::UnknownReceiveMessages => "unable to receive messages",
        }
    }
}

/// Why building an [`SQSListenerClient`](crate::client::SQSListenerClient)
/// failed: a mandatory field of the builder was never set.
#[derive(Debug)]
pub enum SQSListenerClientBuilderError {
    /// The named mandatory field was not given a value.
    UninitializedField(&'static str),
    /// A field's value was rejected. Every set value is accepted today, so
    /// only a missing mandatory field fails a build; the variant is part of
    /// the builder's error surface all the same.
    ValidationError(String),
}

} // verus!
