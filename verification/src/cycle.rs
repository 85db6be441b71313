//! One fetch→dispatch→acknowledge cycle, described as data.
//!
//! The poller does not touch the network. A tick hands the driver a
//! [`FetchRequest`]; the driver answers with a [`FetchOutcome`]; the poller
//! turns the outcome into a [`CyclePlan`]: the ordered effects of the cycle.
//! Every dispatch precedes every delete, and the last effect always re-arms
//! the timer, so a failed fetch never stops the polling loop.

use vstd::prelude::*;

use crate::errors::Error;
use crate::message::{Message, MessageView};

verus! {

/// Ask the queue service for one batch of pending messages of this queue.
#[derive(Debug)]
pub struct FetchRequest {
    /// URL of the queue to fetch from.
    pub queue_url: String,
}

/// Ask the queue service to delete one delivery, so that the message is not
/// redelivered.
#[derive(Debug)]
pub struct DeleteRequest {
    /// URL of the queue the message was fetched from.
    pub queue_url: String,
    /// Receipt handle of the delivery to delete.
    pub receipt_handle: String,
}

/// What one fetch call came back with, as the driver saw it on the wire.
#[derive(Debug)]
pub enum FetchOutcome {
    /// The response carried a message list; it may be empty.
    Messages(Vec<Message>),
    /// The response carried no message list at all.
    NoMessageList,
    /// The call itself failed in transport or protocol.
    TransportError(rusoto_core::RusotoError<rusoto_sqs::ReceiveMessageError>),
}

/// One step the driver performs for the poller.
#[derive(Debug)]
pub enum Effect {
    /// Run the listener's handler on this message.
    Dispatch(Message),
    /// Issue this delete request; its failure is logged, not retried.
    Delete(DeleteRequest),
    /// Wake the poller up again after this many milliseconds.
    ArmTimer(u64),
}

/// What one cycle asks of the driver: its effects, to be performed in order,
/// and the error the cycle met, if any. The error is reported so the driver
/// can log it; it is never fatal, and the effects still end by re-arming the
/// timer.
#[derive(Debug)]
pub struct CyclePlan {
    /// The cycle's steps, in the order to perform them.
    pub effects: Vec<Effect>,
    /// The error the cycle met, if any.
    pub error: Option<Error>,
}

/// The views of the messages of a batch, in fetch order.
pub open spec fn views_of(msgs: Seq<Message>) -> Seq<MessageView> {
    msgs.map_values(|m: Message| m@)
}

/// The receipt handles a sequence of delete requests names, in order.
pub open spec fn handles_of_requests(reqs: Seq<DeleteRequest>) -> Seq<Seq<char>> {
    reqs.map_values(|d: DeleteRequest| d.receipt_handle@)
}

/// The messages a plan hands to the handler, in dispatch order.
pub open spec fn dispatched_of(effects: Seq<Effect>) -> Seq<MessageView>
    decreases effects.len(),
{
    if effects.len() == 0 {
        Seq::empty()
    } else {
        let rest = dispatched_of(effects.drop_last());
        match effects.last() {
            Effect::Dispatch(m) => rest.push(m@),
            _ => rest,
        }
    }
}

/// The receipt handles a plan asks to delete, in issue order.
pub open spec fn deleted_of(effects: Seq<Effect>) -> Seq<Seq<char>>
    decreases effects.len(),
{
    if effects.len() == 0 {
        Seq::empty()
    } else {
        let rest = deleted_of(effects.drop_last());
        match effects.last() {
            Effect::Delete(req) => rest.push(req.receipt_handle@),
            _ => rest,
        }
    }
}

/// The receipt handles present in a batch, in fetch order: one per message
/// that carries a handle, none for a message without one.
pub open spec fn handles_of(msgs: Seq<MessageView>) -> Seq<Seq<char>>
    decreases msgs.len(),
{
    if msgs.len() == 0 {
        Seq::empty()
    } else {
        let rest = handles_of(msgs.drop_last());
        match msgs.last().receipt_handle {
            Some(h) => rest.push(h),
            None => rest,
        }
    }
}

/// Whether a message carries a receipt handle.
pub open spec fn has_handle(m: MessageView) -> bool {
    m.receipt_handle is Some
}

/// The receipt handle of a message known to carry one.
pub open spec fn handle_of(m: MessageView) -> Seq<char> {
    m.receipt_handle->0
}

/// Law of the automatic acknowledgement: the handles drawn from a batch are
/// exactly the handles of its messages that carry one, in fetch order — a
/// message without a handle is skipped and skips nothing else.
pub proof fn lemma_handles_of_skips_handleless(msgs: Seq<MessageView>)
    ensures
        handles_of(msgs) == msgs.filter(|m: MessageView| has_handle(m)).map_values(
            |m: MessageView| handle_of(m),
        ),
    decreases msgs.len(),
{
    reveal(Seq::filter);
    let pred = |m: MessageView| has_handle(m);
    let f = |m: MessageView| handle_of(m);
    if msgs.len() == 0 {
        assert(msgs.filter(pred) =~= Seq::<MessageView>::empty());
        assert(handles_of(msgs) =~= msgs.filter(pred).map_values(f));
    } else {
        let head = msgs.drop_last();
        let last = msgs.last();
        lemma_handles_of_skips_handleless(head);
        if has_handle(last) {
            assert(msgs.filter(pred) =~= head.filter(pred).push(last));
            assert(msgs.filter(pred).map_values(f) =~= head.filter(pred).map_values(f).push(
                handle_of(last),
            ));
        } else {
            assert(msgs.filter(pred) =~= head.filter(pred));
        }
        assert(handles_of(msgs) =~= msgs.filter(pred).map_values(f));
    }
}

/// A batch never asks for more deletions than it has messages.
pub proof fn lemma_handles_of_len(msgs: Seq<MessageView>)
    ensures
        handles_of(msgs).len() <= msgs.len(),
    decreases msgs.len(),
{
    if msgs.len() > 0 {
        lemma_handles_of_len(msgs.drop_last());
    }
}

} // verus!
