use bytes::Bytes;
use dropslot::version::VersionCounter;
use dropslot::Bus;

#[test]
fn topic_test_topic_creation() {
    let mut bus = Bus::<String>::new();
    let topic = bus.topic("test_topic");
    assert_eq!(topic.name(), "test_topic");
    assert_eq!(topic.subscriber_count(&bus), 0);
    assert!(!topic.has_subscribers(&bus));
}

#[test]
fn test_topic_name() {
    let mut bus = Bus::<String>::new();
    let topic = bus.topic("my_topic");
    assert_eq!(topic.name(), "my_topic");
}

#[test]
fn test_topic_publish() {
    let mut bus = Bus::<String>::new();
    let topic = bus.topic("publish_test");

    topic.publish(&mut bus, "Hello".to_string());
    // Publishing doesn't fail or panic
}

#[test]
fn test_topic_subscribe() {
    let mut bus = Bus::<String>::new();
    let topic = bus.topic("subscribe_test");

    assert_eq!(topic.subscriber_count(&bus), 0);

    let _subscriber = topic.subscribe(&mut bus);
    assert_eq!(topic.subscriber_count(&bus), 1);
    assert!(topic.has_subscribers(&bus));
}

#[test]
fn topic_test_multiple_subscribers() {
    let mut bus = Bus::<String>::new();
    let topic = bus.topic("multi_sub");

    let _sub1 = topic.subscribe(&mut bus);
    let _sub2 = topic.subscribe(&mut bus);
    let _sub3 = topic.subscribe(&mut bus);

    assert_eq!(topic.subscriber_count(&bus), 3);
    assert!(topic.has_subscribers(&bus));
}

#[test]
fn test_subscriber_drop() {
    let mut bus = Bus::<String>::new();
    let topic = bus.topic("drop_test");

    let sub1 = topic.subscribe(&mut bus);
    let sub2 = topic.subscribe(&mut bus);

    assert_eq!(topic.subscriber_count(&bus), 2);

    sub1.unsubscribe(&mut bus);
    assert_eq!(topic.subscriber_count(&bus), 1);

    sub2.unsubscribe(&mut bus);
    assert_eq!(topic.subscriber_count(&bus), 0);
    assert!(!topic.has_subscribers(&bus));
}

#[test]
fn test_topic_publish_to_no_subscribers() {
    let mut bus = Bus::<String>::new();
    let topic = bus.topic("no_subs");

    topic.publish(&mut bus, "Nobody listening".to_string());
    // Should not panic or fail
}

#[test]
fn test_bytes_topic_operations() {
    let mut bus = Bus::<Bytes>::new();
    let topic = bus.topic("bytes_test");

    let data = b"test data";
    topic.publish_slice(&mut bus, data);

    let vec_data = vec![1, 2, 3, 4, 5];
    topic.publish_vec(&mut bus, vec_data);

    // Operations complete without error
}

#[test]
fn test_topic_debug_format() {
    let mut bus = Bus::<String>::new();
    let topic = bus.topic("debug_test");

    let debug_str = format!("{topic:?}");
    assert!(debug_str.contains("Topic"));
}

#[test]
fn test_topic_subscriber_management() {
    let mut bus = Bus::<String>::new();
    let topic = bus.topic("sub_mgmt");

    let subscribers: Vec<_> = (0..5).map(|_| topic.subscribe(&mut bus)).collect();
    assert_eq!(topic.subscriber_count(&bus), 5);

    for subscriber in subscribers {
        subscriber.unsubscribe(&mut bus);
    }
    assert_eq!(topic.subscriber_count(&bus), 0);
}

#[test]
fn test_topic_name_immutability() {
    let mut bus = Bus::<String>::new();
    let topic = bus.topic("immutable");

    let name1 = topic.name().to_string();
    let name2 = topic.name().to_string();

    assert_eq!(name1, name2);
    assert_eq!(name1, "immutable");
}

#[test]
fn test_topic_with_empty_name() {
    let mut bus = Bus::<String>::new();
    let topic = bus.topic("");

    assert_eq!(topic.name(), "");
    assert_eq!(topic.subscriber_count(&bus), 0);
}

#[test]
fn test_topic_with_special_characters() {
    let mut bus = Bus::<String>::new();
    let topic = bus.topic("special!@#$%^&*()_+-=[]{}|;:,.<>?");

    assert_eq!(topic.name(), "special!@#$%^&*()_+-=[]{}|;:,.<>?");
    assert_eq!(topic.subscriber_count(&bus), 0);
}

#[test]
fn test_topic_with_unicode() {
    let mut bus = Bus::<String>::new();
    let topic = bus.topic("æµ‹è¯•ä¸»é¢˜ðŸš€");

    assert_eq!(topic.name(), "æµ‹è¯•ä¸»é¢˜ðŸš€");
    assert_eq!(topic.subscriber_count(&bus), 0);
}

#[test]
fn test_topic_reuse_same_instance() {
    let mut bus = Bus::<String>::new();
    let topic1 = bus.topic("same");
    let topic2 = bus.topic("same");

    assert_eq!(bus.topic_count(), 1);
    assert_eq!(topic1.name(), topic2.name());
}

#[test]
fn test_topic_long_name() {
    let mut bus = Bus::<String>::new();
    let long_name = "a".repeat(1000);
    let topic = bus.topic(&long_name);

    assert_eq!(topic.name(), long_name);
    assert_eq!(topic.subscriber_count(&bus), 0);
}

#[test]
fn test_version_overflow_protection() {
    let mut version = VersionCounter::new();
    version.set(u64::MAX);

    let version_before = version.get();
    assert_eq!(version_before, u64::MAX);

    version.increment();

    let version_after = version.get();
    assert_eq!(version_after, u64::MAX);
}

#[test]
fn test_normal_version_increment() {
    let mut version = VersionCounter::new();

    let version_before = version.get();
    assert_eq!(version_before, 0);

    version.increment();

    let version_after = version.get();
    assert_eq!(version_after, 1);
}
