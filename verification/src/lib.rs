//! A polling consumer for an SQS queue: on a timer it fetches a batch of
//! pending messages, hands each to a caller-supplied handler, and, when
//! auto-acknowledge is on, deletes every handled message so it is not
//! redelivered.
//!
//! The crate separates the decisions from the wire. The poller here is a
//! state machine: a scheduler tick asks it what to fetch, the fetch's outcome
//! is handed back to it, and it answers with an ordered plan of effects —
//! dispatch each message to the handler, then delete the acknowledged ones,
//! then re-arm the timer. A driver owning the network and the timer performs
//! the plan; the contracts here pin down what every plan holds.

pub mod aws;
pub mod client;
pub mod config;
pub mod cycle;
pub mod errors;
pub mod listener;
pub mod message;

pub use client::{ack_message_outcome, PollerState, SQSListenerClient, SQSListenerClientBuilder};
pub use config::{Config, ConfigBuilder, DEFAULT_CHECK_INTERVAL_MS};
pub use cycle::{CyclePlan, DeleteRequest, Effect, FetchOutcome, FetchRequest};
pub use errors::{Error, SQSListenerClientBuilderError};
pub use listener::SQSListener;
pub use message::Message;

pub use rusoto_core::credential;
pub use rusoto_core::region::Region;
pub use rusoto_core::request;
