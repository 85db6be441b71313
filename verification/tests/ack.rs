use rusoto_core::{Region, RusotoError};
use rusoto_sqs::SqsClient;
use sqs_listener::{
    ack_message_outcome, ConfigBuilder, Error, Message, SQSListener, SQSListenerClient,
    SQSListenerClientBuilder,
};

fn manual_client() -> SQSListenerClient<fn(&Message)> {
    let listener: SQSListener<fn(&Message)> = SQSListener::new("queue".to_string(), |_| {});
    SQSListenerClientBuilder::new_with_client(SqsClient::new(Region::UsEast1))
        .listener(listener)
        .config(ConfigBuilder::default().auto_ack(false).build())
        .build()
        .unwrap()
}

fn with_handle() -> Message {
    Message::new(
        Some("id".to_string()),
        Some("body".to_string()),
        Some("h1".to_string()),
    )
}

#[test]
fn manual_ack_issues_one_delete_for_the_handle() {
    let client = manual_client();
    let request = client.ack_message(&with_handle()).unwrap();
    assert_eq!(request.queue_url, "queue");
    assert_eq!(request.receipt_handle, "h1");

    // The queue service accepted the delete: the caller sees success.
    assert!(ack_message_outcome(Ok(())).is_ok());
}

#[test]
fn manual_ack_surfaces_a_failed_delete() {
    let failure = RusotoError::Validation("receipt handle expired".to_string());
    let result = ack_message_outcome(Err(failure));
    assert!(matches!(result, Err(Error::AckMessage(_))));
}

#[test]
fn ack_without_handle_fails_without_any_request() {
    let client = manual_client();
    let no_handle = Message::new(Some("id".to_string()), Some("body".to_string()), None);
    let result = client.ack_message(&no_handle);
    assert!(matches!(result, Err(Error::NoMessageHandle)));
}

#[test]
fn ack_after_stop_reports_listener_stopped() {
    let mut client = manual_client();
    client.stop();
    let result = client.ack_message(&with_handle());
    assert!(matches!(result, Err(Error::ListenerStopped)));

    // Stopped wins even over a missing handle.
    let no_handle = Message::new(None, None, None);
    assert!(matches!(client.ack_message(&no_handle), Err(Error::ListenerStopped)));
}

#[test]
fn error_descriptions_name_the_failure() {
    let client = manual_client();
    let no_handle = Message::new(None, None, None);
    let err = client.ack_message(&no_handle).unwrap_err();
    assert_eq!(
        err.describe(),
        "Message did not contain a message handle to use for acknowledging"
    );

    assert_eq!(Error::ListenerStopped.describe(), "Listener has stopped");
    assert_eq!(Error::UnknownReceiveMessages.describe(), "unable to receive messages");
    let receive = Error::ReceiveMessages(RusotoError::Validation("x".to_string()));
    assert_eq!(receive.describe(), "unable to receive messages");
    let ack = Error::AckMessage(RusotoError::Validation("x".to_string()));
    assert_eq!(ack.describe(), "unable to acknowledge message");
}
