//! A listener binds a queue to the handler run on each received message.

use vstd::prelude::*;

use crate::message::Message;

verus! {

/// Listener for a queue URL with a handler to be run on each received
/// message. Immutable once attached to a client; the handler takes a
/// [`Message`] by reference and returns nothing.
pub struct SQSListener<F> {
    /// URL of the SQS queue to listen to.
    queue_url: String,
    /// Called on each newly received message.
    handler: F,
}

impl<F> SQSListener<F> {
    /// The URL of the queue listened to.
    pub closed spec fn spec_queue_url(&self) -> Seq<char> {
        self.queue_url@
    }

    /// The handler held by the listener.
    pub closed spec fn spec_handler(&self) -> F {
        self.handler
    }

    /// A listener on the given queue with the given handler.
    pub fn new(queue_url: String, handler: F) -> (l: Self)
        ensures
            l.spec_queue_url() == queue_url@,
            l.spec_handler() == handler,
    {
        Self { queue_url, handler }
    }

    /// The URL of the queue listened to.
    pub fn queue_url(&self) -> (r: &String)
        ensures
            r@ == self.spec_queue_url(),
    {
        &self.queue_url
    }

    /// The handler to run on each received message; the driver calls it once
    /// per dispatched message, in dispatch order.
    pub fn handler(&self) -> (r: &F)
        ensures
            *r == self.spec_handler(),
    {
        &self.handler
    }
}

} // verus!
