use std::collections::HashMap;

use rusoto_core::Region;
use rusoto_sqs::SqsClient;
use sqs_listener::{
    ConfigBuilder, Message, PollerState, SQSListener, SQSListenerClientBuilder,
    SQSListenerClientBuilderError,
};

#[test]
fn creates_with_closure() {
    let hashmap: HashMap<String, String> = HashMap::new();

    let listener = SQSListener::new("".to_string(), move |message: &Message| {
        println!("HashMap: {:#?}", hashmap);
        println!("{:#?}", message)
    });

    let client = SQSListenerClientBuilder::new(Region::UsEast1).listener(listener).build();

    assert!(client.is_ok())
}

#[test]
fn creates_with_config() {
    let hashmap: HashMap<String, String> = HashMap::new();

    let listener = SQSListener::new("".to_string(), move |message: &Message| {
        println!("HashMap: {:#?}", hashmap);
        println!("{:#?}", message)
    });

    let config = ConfigBuilder::default().check_interval_ms(1000).auto_ack(false).build();

    let client = SQSListenerClientBuilder::new(Region::UsEast1)
        .listener(listener)
        .config(config)
        .build();

    assert!(client.is_ok())
}

#[test]
fn build_without_listener_names_the_field() {
    let builder = SQSListenerClientBuilder::<fn(&Message)>::new_with_client(SqsClient::new(
        Region::UsEast1,
    ));
    let result = builder.build();
    match result {
        Err(SQSListenerClientBuilderError::UninitializedField(field)) => {
            assert_eq!(field, "listener");
        },
        _ => panic!("building without a listener must name the listener field"),
    }
}

#[test]
fn built_client_starts_idle_with_its_config() {
    let listener = SQSListener::new("q".to_string(), |_: &Message| {});
    let config = ConfigBuilder::default().check_interval_ms(250).auto_ack(false).build();
    let client = SQSListenerClientBuilder::new_with_client(SqsClient::new(Region::UsEast1))
        .listener(listener)
        .config(config)
        .build()
        .unwrap();

    assert_eq!(client.state(), PollerState::Idle);
    assert_eq!(client.config().check_interval_ms(), 250);
    assert!(!client.config().auto_ack());
    assert_eq!(client.listener().queue_url(), "q");
    assert_eq!(client.started(), 250);
}

#[test]
fn built_client_without_config_uses_defaults() {
    let listener = SQSListener::new("q".to_string(), |_: &Message| {});
    let client = SQSListenerClientBuilder::new_with_client(SqsClient::new(Region::UsEast1))
        .listener(listener)
        .build()
        .unwrap();

    assert_eq!(client.config().check_interval_ms(), 5000);
    assert!(client.config().auto_ack());
}
