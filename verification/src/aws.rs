//! Declarations of the queue-service client's types, so that values of them
//! can be held and passed through, and the one call that builds a default
//! client.
//!
//! The wire-level work itself — receiving and deleting messages over the
//! network — is not done here: the poller answers with request values and a
//! driver owning the network performs them.

use vstd::prelude::*;

verus! {

/// `rusoto_sqs::SqsClient`: the wire-level queue-service client. Opaque
/// here; it is held by the listener client and handed to the driver.
#[verifier::external_type_specification]
#[verifier::external_body]
pub struct ExSqsClient(rusoto_sqs::SqsClient);

/// `rusoto_core::Region`: the AWS region a client is built for.
#[verifier::external_type_specification]
#[verifier::external_body]
pub struct ExRegion(rusoto_core::Region);

/// `rusoto_core::RusotoError`: the transport-level error of a queue-service
/// call, generic over the operation's own error.
#[verifier::external_type_specification]
#[verifier::external_body]
#[verifier::reject_recursive_types(E)]
pub struct ExRusotoError<E>(rusoto_core::RusotoError<E>);

/// `rusoto_sqs::ReceiveMessageError`: the receive operation's own error.
#[verifier::external_type_specification]
#[verifier::external_body]
pub struct ExReceiveMessageError(rusoto_sqs::ReceiveMessageError);

/// `rusoto_sqs::DeleteMessageError`: the delete operation's own error.
#[verifier::external_type_specification]
#[verifier::external_body]
pub struct ExDeleteMessageError(rusoto_sqs::DeleteMessageError);

/// Relies on `rusoto_sqs::SqsClient::new`: builds a client for the given
/// region, backed by the process-wide default credentials provider and TLS
/// client (it panics only if those cannot be created, as that constructor
/// does). No network request is made until the client is used.
#[verifier::external_body]
pub(crate) fn default_client(region: rusoto_core::Region) -> rusoto_sqs::SqsClient {
    rusoto_sqs::SqsClient::new(region)
}

} // verus!
