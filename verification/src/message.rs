//! A fetched queue message, as the poller and its callers see it.

use vstd::prelude::*;

verus! {

/// One message taken from the queue in a fetch. Every field is optional on
/// the wire; in particular a message may arrive without a receipt handle, and
/// such a message cannot be acknowledged.
#[derive(Debug)]
pub struct Message {
    /// Identifier the queue assigned to the message.
    pub message_id: Option<String>,
    /// The message's contents.
    pub body: Option<String>,
    /// Token issued with this delivery; required to delete the message.
    pub receipt_handle: Option<String>,
}

/// The mathematical value of a [`Message`]: its three fields as sequences of
/// characters.
pub struct MessageView {
    pub message_id: Option<Seq<char>>,
    pub body: Option<Seq<char>>,
    pub receipt_handle: Option<Seq<char>>,
}

impl View for Message {
    type V = MessageView;

    open spec fn view(&self) -> MessageView {
        MessageView {
            message_id: match self.message_id {
                Some(s) => Some(s@),
                None => None,
            },
            body: match self.body {
                Some(s) => Some(s@),
                None => None,
            },
            receipt_handle: match self.receipt_handle {
                Some(s) => Some(s@),
                None => None,
            },
        }
    }
}

impl Message {
    /// A message with the given identifier, contents and receipt handle.
    pub fn new(
        message_id: Option<String>,
        body: Option<String>,
        receipt_handle: Option<String>,
    ) -> (m: Message)
        ensures
            m.message_id == message_id,
            m.body == body,
            m.receipt_handle == receipt_handle,
    {
        Message { message_id, body, receipt_handle }
    }
}

} // verus!
