//! The listener client: a poller owning the queue-service client, the
//! configuration and one listener, driven as a state machine.
//!
//! One cycle: a scheduler tick moves the poller from `Idle` to `Fetching` and
//! names the fetch to issue; the fetch's outcome moves it through
//! `Dispatching` and `Acknowledging` back to `Idle` and yields the cycle's
//! plan — dispatch every fetched message in fetch order, then, when
//! auto-acknowledge is on, delete every message that carries a receipt
//! handle, then re-arm the timer. The plan re-arms the timer whatever the
//! outcome was, so one failed fetch never stops the polling loop. Only an
//! external stop ends the poller.

use vstd::prelude::*;

use crate::aws::default_client;
use crate::config::{Config, ConfigBuilder, DEFAULT_CHECK_INTERVAL_MS};
use crate::cycle::{
    deleted_of, dispatched_of, handles_of, handles_of_requests, views_of, CyclePlan,
    DeleteRequest, Effect, FetchOutcome, FetchRequest,
};
use crate::errors::{Error, SQSListenerClientBuilderError};
use crate::listener::SQSListener;
use crate::message::Message;

verus! {

/// Where the poller stands. A cycle runs to completion once started, so the
/// three states inside a cycle are traversed within one call; between calls
/// the poller rests in `Idle`, `Fetching` or `Stopped`.
#[derive(Clone, Copy, Debug, PartialEq, Eq, Structural)]
pub enum PollerState {
    /// Waiting for the next scheduler tick.
    Idle,
    /// A fetch request has been handed out; its outcome is awaited.
    Fetching,
    /// Fetched messages are being handed to the handler.
    Dispatching,
    /// Dispatched messages are being deleted.
    Acknowledging,
    /// Externally terminated; nothing runs any more.
    Stopped,
}

/// The poller: owns the queue-service client, the configuration and the
/// listener, and decides each step of the polling loop. Built by
/// [`SQSListenerClientBuilder`]; a driver owning the network and the timer
/// calls [`tick`](Self::tick), performs the requested fetch, hands the
/// outcome to [`complete_cycle`](Self::complete_cycle) and performs the plan.
pub struct SQSListenerClient<F> {
    client: rusoto_sqs::SqsClient,
    config: Config,
    listener: SQSListener<F>,
    state: PollerState,
}

impl<F> SQSListenerClient<F> {
    /// The state the poller rests in.
    pub closed spec fn spec_state(&self) -> PollerState {
        self.state
    }

    /// The configuration the poller was built with.
    pub closed spec fn spec_config(&self) -> Config {
        self.config
    }

    /// The listener attached to the poller.
    pub closed spec fn spec_listener(&self) -> SQSListener<F> {
        self.listener
    }

    /// The wire-level client the poller was built with.
    pub closed spec fn spec_client(&self) -> rusoto_sqs::SqsClient {
        self.client
    }

    /// The URL of the queue listened to.
    pub open spec fn spec_queue_url(&self) -> Seq<char> {
        self.spec_listener().spec_queue_url()
    }

    /// The state the poller rests in.
    pub fn state(&self) -> (s: PollerState)
        ensures
            s == self.spec_state(),
    {
        self.state
    }

    /// The configuration the poller was built with.
    pub fn config(&self) -> (c: &Config)
        ensures
            *c == self.spec_config(),
    {
        &self.config
    }

    /// The listener attached to the poller.
    pub fn listener(&self) -> (l: &SQSListener<F>)
        ensures
            *l == self.spec_listener(),
    {
        &self.listener
    }

    /// The wire-level client, for the driver to issue the poller's requests
    /// with.
    pub fn client(&self) -> (c: &rusoto_sqs::SqsClient)
        ensures
            *c == self.spec_client(),
    {
        &self.client
    }

    /// Called once when the poller starts: the scheduler is to be armed for
    /// one check interval from now.
    pub fn started(&self) -> (delay_ms: u64)
        ensures
            delay_ms == self.spec_config().spec_check_interval_ms(),
    {
        self.config.check_interval_ms()
    }

    /// A scheduler tick. In `Idle` the poller moves to `Fetching` and asks
    /// for one batch of pending messages of its queue; in any other state the
    /// tick changes nothing and asks for nothing.
    pub fn tick(&mut self) -> (fetch: Option<FetchRequest>)
        ensures
            final(self).spec_config() == old(self).spec_config(),
            final(self).spec_listener() == old(self).spec_listener(),
            final(self).spec_client() == old(self).spec_client(),
            old(self).spec_state() == PollerState::Idle ==> {
                &&& final(self).spec_state() == PollerState::Fetching
                &&& fetch matches Some(req) && req.queue_url@ == old(self).spec_queue_url()
            },
            old(self).spec_state() != PollerState::Idle ==> {
                &&& final(self).spec_state() == old(self).spec_state()
                &&& fetch is None
            },
    {
        match self.state {
            PollerState::Idle => {
                self.state = PollerState::Fetching;
                Some(FetchRequest { queue_url: self.listener.queue_url().clone() })
            },
            _ => None,
        }
    }

    /// External termination: the poller stops, from any state, and nothing
    /// runs any more. No fetched message is requeued or drained first.
    pub fn stop(&mut self)
        ensures
            final(self).spec_state() == PollerState::Stopped,
            final(self).spec_config() == old(self).spec_config(),
            final(self).spec_listener() == old(self).spec_listener(),
            final(self).spec_client() == old(self).spec_client(),
    {
        self.state = PollerState::Stopped;
    }

    /// Completes the cycle a tick started: consumes the fetch's outcome and
    /// returns the plan of the rest of the cycle, leaving the poller `Idle`.
    ///
    /// Whatever the outcome, the plan's last effect — and its only timer
    /// effect — re-arms the scheduler for one check interval, so a failure
    /// only shows in the plan's reported error and the loop self-heals. A
    /// failed call reports the fetch error; a response without a message list
    /// is treated as a failure of its own, not as zero messages. For a
    /// message list, the plan dispatches exactly the fetched messages, in
    /// fetch order; then, with auto-acknowledge on, it deletes exactly the
    /// handles present in the batch, in the same order, against the
    /// listener's queue — every delete coming after every dispatch. With
    /// auto-acknowledge off it deletes nothing.
    pub fn complete_cycle(&mut self, outcome: FetchOutcome) -> (plan: CyclePlan)
        requires
            old(self).spec_state() == PollerState::Fetching,
        ensures
            final(self).spec_state() == PollerState::Idle,
            final(self).spec_config() == old(self).spec_config(),
            final(self).spec_listener() == old(self).spec_listener(),
            final(self).spec_client() == old(self).spec_client(),
            plan.effects@.len() >= 1,
            plan.effects@.last() == Effect::ArmTimer(
                old(self).spec_config().spec_check_interval_ms(),
            ),
            forall|i: int|
                0 <= i < plan.effects@.len() - 1 ==> !(#[trigger] plan.effects@[i] is ArmTimer),
            forall|i: int, j: int|
                0 <= i < plan.effects@.len() && 0 <= j < plan.effects@.len()
                    && #[trigger] plan.effects@[i] is Delete && #[trigger] plan.effects@[j]
                    is Dispatch ==> j < i,
            forall|i: int|
                0 <= i < plan.effects@.len() ==> (#[trigger] plan.effects@[i] matches
                Effect::Delete(req) ==> req.queue_url@ == old(self).spec_queue_url()),
            outcome matches FetchOutcome::TransportError(e) ==> {
                &&& plan.error == Some(Error::ReceiveMessages(e))
                &&& dispatched_of(plan.effects@).len() == 0
                &&& deleted_of(plan.effects@).len() == 0
            },
            outcome is NoMessageList ==> {
                &&& plan.error == Some(Error::UnknownReceiveMessages)
                &&& dispatched_of(plan.effects@).len() == 0
                &&& deleted_of(plan.effects@).len() == 0
            },
            outcome matches FetchOutcome::Messages(msgs) ==> {
                &&& plan.error is None
                &&& dispatched_of(plan.effects@) == views_of(msgs@)
                &&& old(self).spec_config().spec_auto_ack() ==> deleted_of(plan.effects@)
                    == handles_of(views_of(msgs@))
                &&& !old(self).spec_config().spec_auto_ack() ==> deleted_of(
                    plan.effects@,
                ).len() == 0
            },
    {
        let interval = self.config.check_interval_ms();
        match outcome {
            FetchOutcome::TransportError(e) => {
                self.state = PollerState::Idle;
                let mut effects: Vec<Effect> = Vec::new();
                effects.push(Effect::ArmTimer(interval));
                proof {
                    assert(effects@.drop_last() =~= Seq::<Effect>::empty());
                    assert(dispatched_of(Seq::<Effect>::empty()).len() == 0);
                    assert(deleted_of(Seq::<Effect>::empty()).len() == 0);
                    assert(dispatched_of(effects@).len() == 0);
                    assert(deleted_of(effects@).len() == 0);
                }
                CyclePlan { effects, error: Some(Error::ReceiveMessages(e)) }
            },
            FetchOutcome::NoMessageList => {
                self.state = PollerState::Idle;
                let mut effects: Vec<Effect> = Vec::new();
                effects.push(Effect::ArmTimer(interval));
                proof {
                    assert(effects@.drop_last() =~= Seq::<Effect>::empty());
                    assert(dispatched_of(Seq::<Effect>::empty()).len() == 0);
                    assert(deleted_of(Seq::<Effect>::empty()).len() == 0);
                    assert(dispatched_of(effects@).len() == 0);
                    assert(deleted_of(effects@).len() == 0);
                }
                CyclePlan { effects, error: Some(Error::UnknownReceiveMessages) }
            },
            FetchOutcome::Messages(mut msgs) => {
                let ghost orig: Seq<Message> = msgs@;
                let qurl: String = self.listener.queue_url().clone();
                let auto = self.config.auto_ack();

                // Gather the delete requests first, while the batch is still
                // whole: one per message with a receipt handle, in order.
                let mut deletes: Vec<DeleteRequest> = Vec::new();
                if auto {
                    let mut i: usize = 0;
                    while i < msgs.len()
                        invariant
                            i <= msgs@.len(),
                            msgs@ == orig,
                            qurl@ == old(self).spec_queue_url(),
                            handles_of_requests(deletes@) =~= handles_of(
                                views_of(orig.take(i as int)),
                            ),
                            forall|k: int|
                                0 <= k < deletes@.len() ==> (#[trigger] deletes@[k]).queue_url@
                                    == old(self).spec_queue_url(),
                        decreases msgs@.len() - i,
                    {
                        let ghost prev: Seq<DeleteRequest> = deletes@;
                        proof {
                            assert(views_of(orig.take(i + 1)).drop_last() =~= views_of(
                                orig.take(i as int),
                            ));
                            assert(views_of(orig.take(i + 1)).last() == orig[i as int]@);
                        }
                        match &msgs[i].receipt_handle {
                            Some(h) => {
                                deletes.push(
                                    DeleteRequest {
                                        queue_url: qurl.clone(),
                                        receipt_handle: h.clone(),
                                    },
                                );
                                proof {
                                    assert(handles_of_requests(deletes@) =~= handles_of_requests(
                                        prev,
                                    ).push(h@));
                                    assert(orig[i as int]@.receipt_handle == Some(h@));
                                    assert(handles_of_requests(deletes@) =~= handles_of(
                                        views_of(orig.take(i + 1)),
                                    ));
                                }
                            },
                            None => {
                                proof {
                                    assert(orig[i as int]@.receipt_handle is None);
                                    assert(handles_of_requests(deletes@) =~= handles_of(
                                        views_of(orig.take(i + 1)),
                                    ));
                                }
                            },
                        }
                        i += 1;
                    }
                    proof {
                        assert(orig.take(orig.len() as int) =~= orig);
                    }
                }

                // Dispatch phase: every fetched message goes to the handler,
                // in fetch order.
                self.state = PollerState::Dispatching;
                let mut effects: Vec<Effect> = Vec::new();
                while msgs.len() > 0
                    invariant
                        effects@.len() + msgs@.len() == orig.len(),
                        msgs@ =~= orig.skip(effects@.len() as int),
                        dispatched_of(effects@) =~= views_of(orig.take(effects@.len() as int)),
                        deleted_of(effects@) =~= Seq::<Seq<char>>::empty(),
                        forall|k: int|
                            0 <= k < effects@.len() ==> #[trigger] effects@[k] is Dispatch,
                    decreases msgs@.len(),
                {
                    let ghost n: int = effects@.len() as int;
                    let ghost prev: Seq<Effect> = effects@;
                    let m = msgs.remove(0);
                    proof {
                        assert(m == orig[n]);
                        assert(orig.skip(n).remove(0) =~= orig.skip(n + 1));
                    }
                    effects.push(Effect::Dispatch(m));
                    proof {
                        assert(effects@.drop_last() =~= prev);
                        assert(effects@.last() == Effect::Dispatch(m));
                        assert(dispatched_of(effects@) =~= dispatched_of(prev).push(m@));
                        assert(deleted_of(effects@) =~= deleted_of(prev));
                        assert(views_of(orig.take(n + 1)).drop_last() =~= views_of(orig.take(n)));
                        assert(views_of(orig.take(n + 1)).last() == orig[n]@);
                        assert(dispatched_of(effects@) =~= views_of(orig.take(n + 1)));
                    }
                }
                proof {
                    assert(orig.take(orig.len() as int) =~= orig);
                }

                // Acknowledge phase: the gathered deletes follow, in order.
                self.state = PollerState::Acknowledging;
                let ghost gathered: Seq<DeleteRequest> = deletes@;
                let ghost n_dispatch: int = effects@.len() as int;
                let ghost mut j: int = 0;
                while deletes.len() > 0
                    invariant
                        0 <= j,
                        gathered.len() == j + deletes@.len(),
                        deletes@ =~= gathered.skip(j),
                        effects@.len() == n_dispatch + j,
                        n_dispatch == orig.len(),
                        dispatched_of(effects@) =~= views_of(orig),
                        deleted_of(effects@) =~= handles_of_requests(gathered.take(j)),
                        forall|k: int|
                            0 <= k < n_dispatch ==> #[trigger] effects@[k] is Dispatch,
                        forall|k: int|
                            n_dispatch <= k < effects@.len() ==> #[trigger] effects@[k]
                                == Effect::Delete(gathered[k - n_dispatch]),
                        forall|k: int|
                            0 <= k < gathered.len() ==> (#[trigger] gathered[k]).queue_url@
                                == old(self).spec_queue_url(),
                    decreases deletes@.len(),
                {
                    let ghost prev: Seq<Effect> = effects@;
                    let d = deletes.remove(0);
                    proof {
                        assert(d == gathered[j]);
                        assert(gathered.skip(j).remove(0) =~= gathered.skip(j + 1));
                    }
                    effects.push(Effect::Delete(d));
                    proof {
                        j = j + 1;
                        assert(effects@.drop_last() =~= prev);
                        assert(effects@.last() == Effect::Delete(d));
                        assert(dispatched_of(effects@) =~= dispatched_of(prev));
                        assert(deleted_of(effects@) =~= deleted_of(prev).push(d.receipt_handle@));
                        assert(handles_of_requests(gathered.take(j)) =~= handles_of_requests(
                            gathered.take(j - 1),
                        ).push(gathered[j - 1].receipt_handle@));
                        assert(deleted_of(effects@) =~= handles_of_requests(gathered.take(j)));
                    }
                }
                proof {
                    assert(gathered.take(gathered.len() as int) =~= gathered);
                }

                // Cycle complete: back to rest, timer re-armed.
                self.state = PollerState::Idle;
                let ghost prev: Seq<Effect> = effects@;
                effects.push(Effect::ArmTimer(interval));
                proof {
                    assert(effects@.drop_last() =~= prev);
                    assert(effects@.last() == Effect::ArmTimer(interval));
                    assert(dispatched_of(effects@) =~= dispatched_of(prev));
                    assert(deleted_of(effects@) =~= deleted_of(prev));
                }
                CyclePlan { effects, error: None }
            },
        }
    }

    /// The manual acknowledgement's decision: what to ask the queue service,
    /// or why nothing may be asked. After the poller stopped every
    /// acknowledgement fails with `ListenerStopped`; a message without a
    /// receipt handle fails with `NoMessageHandle`, and in neither case is
    /// any request issued. Otherwise the one delete request for the message's
    /// handle on the listener's queue is returned for the driver to issue;
    /// [`ack_message_outcome`] maps what comes back.
    pub fn ack_message(&self, message: &Message) -> (r: Result<DeleteRequest, Error>)
        ensures
            self.spec_state() == PollerState::Stopped ==> r == Err::<DeleteRequest, Error>(
                Error::ListenerStopped,
            ),
            self.spec_state() != PollerState::Stopped && message@.receipt_handle is None ==> r
                == Err::<DeleteRequest, Error>(Error::NoMessageHandle),
            self.spec_state() != PollerState::Stopped && message@.receipt_handle is Some ==> {
                &&& r matches Ok(req)
                &&& req.queue_url@ == self.spec_queue_url()
                &&& req.receipt_handle@ == message@.receipt_handle->0
            },
    {
        if self.state == PollerState::Stopped {
            return Err(Error::ListenerStopped);
        }
        match &message.receipt_handle {
            None => Err(Error::NoMessageHandle),
            Some(h) => Ok(
                DeleteRequest {
                    queue_url: self.listener.queue_url().clone(),
                    receipt_handle: h.clone(),
                },
            ),
        }
    }
}

/// Maps what the delete call of a manual acknowledgement came back with onto
/// the listener's own error: success stays success, and a failure is
/// surfaced to the caller as `AckMessage` — unlike inside the automatic
/// cycle, where delete failures are only logged.
pub fn ack_message_outcome(
    outcome: Result<(), rusoto_core::RusotoError<rusoto_sqs::DeleteMessageError>>,
) -> (r: Result<(), Error>)
    ensures
        outcome is Ok ==> r is Ok,
        outcome matches Err(e) ==> r == Err::<(), Error>(Error::AckMessage(e)),
{
    match outcome {
        Ok(()) => Ok(()),
        Err(e) => Err(Error::AckMessage(e)),
    }
}

/// Builds an [`SQSListenerClient`]: a wire-level client (mandatory, set by
/// every constructor), exactly one listener (mandatory), and an optional
/// configuration with documented defaults.
pub struct SQSListenerClientBuilder<F> {
    client: Option<rusoto_sqs::SqsClient>,
    config: Option<Config>,
    listener: Option<SQSListener<F>>,
}

impl<F> SQSListenerClientBuilder<F> {
    /// The wire-level client set so far, if any.
    pub closed spec fn spec_client(&self) -> Option<rusoto_sqs::SqsClient> {
        self.client
    }

    /// Whether the wire-level client is set.
    pub open spec fn spec_has_client(&self) -> bool {
        self.spec_client() is Some
    }

    /// The configuration set so far, if any.
    pub closed spec fn spec_config(&self) -> Option<Config> {
        self.config
    }

    /// The listener attached so far, if any.
    pub closed spec fn spec_listener(&self) -> Option<SQSListener<F>> {
        self.listener
    }

    /// A builder whose client is the default one for the given region: the
    /// process-wide default credentials and TLS client.
    pub fn new(region: rusoto_core::Region) -> (b: Self)
        ensures
            b.spec_has_client(),
            b.spec_config() is None,
            b.spec_listener() is None,
    {
        Self::new_with_client(default_client(region))
    }

    /// A builder around an already built wire-level client.
    pub fn new_with_client(client: rusoto_sqs::SqsClient) -> (b: Self)
        ensures
            b.spec_client() == Some(client),
            b.spec_config() is None,
            b.spec_listener() is None,
    {
        SQSListenerClientBuilder { client: Some(client), config: None, listener: None }
    }

    /// Attaches the listener.
    pub fn listener(self, listener: SQSListener<F>) -> (b: Self)
        ensures
            b.spec_client() == self.spec_client(),
            b.spec_config() == self.spec_config(),
            b.spec_listener() == Some(listener),
    {
        SQSListenerClientBuilder { listener: Some(listener), ..self }
    }

    /// Attaches a configuration; without one the defaults apply.
    pub fn config(self, config: Config) -> (b: Self)
        ensures
            b.spec_client() == self.spec_client(),
            b.spec_config() == Some(config),
            b.spec_listener() == self.spec_listener(),
    {
        SQSListenerClientBuilder { config: Some(config), ..self }
    }

    /// Builds the poller. It fails exactly when a mandatory field — the
    /// wire-level client, or the listener — was never set, naming the first
    /// missing one; otherwise the poller starts out `Idle`, with the attached
    /// listener and with the given configuration or, without one, the
    /// defaults.
    pub fn build(self) -> (r: Result<SQSListenerClient<F>, SQSListenerClientBuilderError>)
        ensures
            r is Ok <==> self.spec_has_client() && self.spec_listener() is Some,
            r matches Ok(c) ==> {
                &&& c.spec_state() == PollerState::Idle
                &&& Some(c.spec_client()) == self.spec_client()
                &&& Some(c.spec_listener()) == self.spec_listener()
                &&& match self.spec_config() {
                    Some(cfg) => c.spec_config() == cfg,
                    None => c.spec_config().spec_check_interval_ms()
                        == DEFAULT_CHECK_INTERVAL_MS && c.spec_config().spec_auto_ack(),
                }
            },
            !self.spec_has_client() ==> (r matches Err(
                SQSListenerClientBuilderError::UninitializedField(f),
            ) && f@ == "client"@),
            self.spec_has_client() && self.spec_listener() is None ==> (r matches Err(
                SQSListenerClientBuilderError::UninitializedField(f),
            ) && f@ == "listener"@),
    {
        let client = match self.client {
            Some(c) => c,
            None => {
                return Err(SQSListenerClientBuilderError::UninitializedField("client"));
            },
        };
        let listener = match self.listener {
            Some(l) => l,
            None => {
                return Err(SQSListenerClientBuilderError::UninitializedField("listener"));
            },
        };
        let config = match self.config {
            Some(c) => c,
            None => ConfigBuilder::default().build(),
        };
        Ok(SQSListenerClient { client, config, listener, state: PollerState::Idle })
    }
}

} // verus!
