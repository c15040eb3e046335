use better_posthog::events::{batch, capture, clone_text, Event, EventBuilder};
use better_posthog::ClientCell;
use serde_json::Value;

#[test]
fn new_event_has_name_and_distinct_id_only() {
    let event = Event::new("page_view", "user_123");
    assert_eq!(event.event, "page_view");
    assert_eq!(event.distinct_id, "user_123");
    assert!(event.properties.is_empty());
    assert!(event.timestamp.is_none());
}

#[test]
fn anonymous_event_gets_a_version_7_uuid() {
    let event = Event::new_anonymous("anonymous_action");
    assert_eq!(event.event, "anonymous_action");
    assert_eq!(event.distinct_id.chars().count(), 36);
    let id = uuid::Uuid::parse_str(&event.distinct_id).unwrap();
    assert_eq!(id.get_version_num(), 7);
    assert!(event.properties.is_empty());
    assert!(event.timestamp.is_none());
}

#[test]
fn anonymous_events_differ_in_their_ids() {
    let first = Event::new_anonymous("a");
    let second = Event::new_anonymous("a");
    assert_ne!(first.distinct_id, second.distinct_id);
}

#[test]
fn insert_property_sets_and_replaces() {
    let mut event = Event::new("purchase", "user_789");
    event.insert_property("amount", Value::from(99.99));
    event.insert_property("currency", Value::from("USD"));
    event.insert_property("currency", Value::from("EUR"));
    assert_eq!(event.properties.len(), 2);
    assert_eq!(event.properties.get("amount"), Some(&Value::from(99.99)));
    assert_eq!(event.properties.get("currency"), Some(&Value::from("EUR")));
    assert_eq!(event.event, "purchase");
    assert_eq!(event.distinct_id, "user_789");
}

#[test]
fn builder_sets_every_field() {
    let event = Event::builder()
        .event("button_click")
        .distinct_id("user_456")
        .property("button_id", Value::from("submit"))
        .timestamp("2024-01-02T03:04:05Z")
        .build();
    assert_eq!(event.event, "button_click");
    assert_eq!(event.distinct_id, "user_456");
    assert_eq!(event.properties.len(), 1);
    assert_eq!(event.properties.get("button_id"), Some(&Value::from("submit")));
    assert_eq!(event.timestamp.as_deref(), Some("2024-01-02T03:04:05Z"));
}

#[test]
fn builder_keeps_the_last_value_of_each_field() {
    let event = Event::builder()
        .event("first")
        .event("second")
        .distinct_id("a")
        .distinct_id("b")
        .property("k", Value::from(1))
        .property("k", Value::from(2))
        .build();
    assert_eq!(event.event, "second");
    assert_eq!(event.distinct_id, "b");
    assert_eq!(event.properties.get("k"), Some(&Value::from(2)));
    assert_eq!(event.properties.len(), 1);
}

#[test]
fn builder_without_distinct_id_generates_one() {
    let event = Event::builder().event("anonymous").build();
    assert_eq!(event.event, "anonymous");
    let id = uuid::Uuid::parse_str(&event.distinct_id).unwrap();
    assert_eq!(id.get_version_num(), 7);
    assert_eq!(event.distinct_id.len(), 36);
}

#[test]
fn build_with_uses_the_fallback_only_when_needed() {
    let anonymous = Event::builder().event("e").build_with("fallback".to_string());
    assert_eq!(anonymous.distinct_id, "fallback");
    let known = Event::builder().event("e").distinct_id("known").build_with("fallback".to_string());
    assert_eq!(known.distinct_id, "known");
}

#[test]
fn builder_knows_whether_it_has_a_name() {
    assert!(!Event::builder().has_event());
    assert!(!EventBuilder::default().distinct_id("u").has_event());
    assert!(Event::builder().event("e").has_event());
}

#[test]
fn event_clone_is_independent() {
    let mut event = Event::new("e", "u");
    event.insert_property("k", Value::from(1));
    event.timestamp = Some("2024-01-01T00:00:00Z".to_string());
    let copy = event.clone();
    event.insert_property("k", Value::from(2));
    assert_eq!(copy.event, "e");
    assert_eq!(copy.distinct_id, "u");
    assert_eq!(copy.properties.get("k"), Some(&Value::from(1)));
    assert_eq!(copy.timestamp.as_deref(), Some("2024-01-01T00:00:00Z"));
}

#[test]
fn clone_text_copies_both_cases() {
    assert_eq!(clone_text(&None), None);
    assert_eq!(clone_text(&Some("x".to_string())), Some("x".to_string()));
}

#[test]
fn capture_without_a_client_drops_the_event() {
    let mut cell: ClientCell<u8> = ClientCell::new();
    assert!(!capture(&mut cell, Event::new("e", "u")));
    assert!(!batch(&mut cell, vec![Event::new("e", "u")]));
    assert!(matches!(cell, ClientCell::Empty));
}
