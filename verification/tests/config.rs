use sqs_listener::{ConfigBuilder, DEFAULT_CHECK_INTERVAL_MS};

#[test]
fn config_builds_with_defaults() {
    let config = ConfigBuilder::default().build();
    assert_eq!(config.check_interval_ms(), 5000);
    assert_eq!(config.check_interval_ms(), DEFAULT_CHECK_INTERVAL_MS);
    assert!(config.auto_ack());
}

#[test]
fn config_keeps_what_was_set() {
    let config = ConfigBuilder::default().check_interval_ms(10_000).auto_ack(false).build();
    assert_eq!(config.check_interval_ms(), 10_000);
    assert!(!config.auto_ack());
}

#[test]
fn config_builds_from_any_partial_builder() {
    let only_interval = ConfigBuilder::default().check_interval_ms(1).build();
    assert_eq!(only_interval.check_interval_ms(), 1);
    assert!(only_interval.auto_ack());

    let only_ack = ConfigBuilder::default().auto_ack(false).build();
    assert_eq!(only_ack.check_interval_ms(), DEFAULT_CHECK_INTERVAL_MS);
    assert!(!only_ack.auto_ack());
}
