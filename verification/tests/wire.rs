use better_posthog::client::{ApiKey, Host};
use better_posthog::events::Event;
use better_posthog::wire::{
    batch_event, batch_payload, batch_request, capture_payload, capture_request, frame, request,
    EncodeError, CONTENT_TYPE,
};
use serde_json::Value;

fn key() -> ApiKey {
    ApiKey::from("phc_test")
}

#[test]
fn capture_payload_keeps_distinct_id_beside_properties() {
    let mut event = Event::new("page_view", "user_123");
    event.insert_property("plan", Value::from("pro"));
    let payload = capture_payload(&key(), &event);
    let object = payload.as_object().unwrap();
    assert_eq!(object.len(), 4);
    assert_eq!(object.get("api_key"), Some(&Value::from("phc_test")));
    assert_eq!(object.get("event"), Some(&Value::from("page_view")));
    assert_eq!(object.get("distinct_id"), Some(&Value::from("user_123")));
    let properties = object.get("properties").unwrap().as_object().unwrap();
    assert_eq!(properties.len(), 1);
    assert_eq!(properties.get("plan"), Some(&Value::from("pro")));
    assert!(properties.get("distinct_id").is_none());
    assert!(object.get("timestamp").is_none());
}

#[test]
fn capture_payload_carries_the_timestamp_when_set() {
    let mut event = Event::new("e", "u");
    event.timestamp = Some("2024-05-06T07:08:09Z".to_string());
    let payload = capture_payload(&key(), &event);
    let object = payload.as_object().unwrap();
    assert_eq!(object.len(), 5);
    assert_eq!(object.get("timestamp"), Some(&Value::from("2024-05-06T07:08:09Z")));
}

#[test]
fn batch_element_moves_distinct_id_into_properties() {
    let mut event = Event::new("page_view", "user_123");
    event.insert_property("plan", Value::from("pro"));
    let element = batch_event(&event);
    let object = element.as_object().unwrap();
    assert_eq!(object.len(), 2);
    assert_eq!(object.get("event"), Some(&Value::from("page_view")));
    assert!(object.get("distinct_id").is_none());
    assert!(object.get("api_key").is_none());
    let properties = object.get("properties").unwrap().as_object().unwrap();
    assert_eq!(properties.len(), 2);
    assert_eq!(properties.get("plan"), Some(&Value::from("pro")));
    assert_eq!(properties.get("distinct_id"), Some(&Value::from("user_123")));
    assert_eq!(event.properties.len(), 1);
}

#[test]
fn batch_element_distinct_id_replaces_a_property_of_that_name() {
    let mut event = Event::new("e", "real_user");
    event.insert_property("distinct_id", Value::from("spoofed"));
    let element = batch_event(&event);
    let properties = element.get("properties").unwrap().as_object().unwrap();
    assert_eq!(properties.len(), 1);
    assert_eq!(properties.get("distinct_id"), Some(&Value::from("real_user")));
}

#[test]
fn batch_element_carries_the_timestamp_when_set() {
    let mut event = Event::new("e", "u");
    event.timestamp = Some("2024-05-06T07:08:09Z".to_string());
    let element = batch_event(&event);
    assert_eq!(element.as_object().unwrap().len(), 3);
    assert_eq!(element.get("timestamp"), Some(&Value::from("2024-05-06T07:08:09Z")));
}

#[test]
fn batch_payload_lists_the_events_in_order() {
    let events = vec![Event::new("first", "u1"), Event::new("second", "u2"), Event::new("third", "u3")];
    let payload = batch_payload(&key(), &events);
    let object = payload.as_object().unwrap();
    assert_eq!(object.len(), 2);
    assert_eq!(object.get("api_key"), Some(&Value::from("phc_test")));
    let batch = object.get("batch").unwrap().as_array().unwrap();
    assert_eq!(batch.len(), 3);
    assert_eq!(batch[0].get("event"), Some(&Value::from("first")));
    assert_eq!(batch[1].get("event"), Some(&Value::from("second")));
    assert_eq!(batch[2].get("event"), Some(&Value::from("third")));
    assert_eq!(batch[2].get("properties").unwrap().get("distinct_id"), Some(&Value::from("u3")));
}

#[test]
fn batch_payload_of_no_events_has_an_empty_batch() {
    let payload = batch_payload(&key(), &Vec::new());
    assert_eq!(payload.get("batch"), Some(&Value::Array(Vec::new())));
}

#[test]
fn capture_request_has_the_exact_body() {
    let event = Event::new("page_view", "user_123");
    let request = capture_request(&Host::US, &key(), &event).unwrap();
    assert_eq!(request.url, "https://us.i.posthog.com/i/v0/e/");
    assert_eq!(
        request.body,
        "{\"api_key\":\"phc_test\",\"distinct_id\":\"user_123\",\"event\":\"page_view\",\"properties\":{}}"
    );
}

#[test]
fn batch_request_has_the_exact_body() {
    let mut second = Event::new("e2", "u2");
    second.timestamp = Some("2024-01-01T00:00:00Z".to_string());
    second.insert_property("n", Value::from(1));
    let events = vec![Event::new("e1", "u1"), second];
    let request = batch_request(&Host::EU, &key(), &events).unwrap();
    assert_eq!(request.url, "https://eu.i.posthog.com/batch/");
    assert_eq!(
        request.body,
        "{\"api_key\":\"phc_test\",\"batch\":[{\"event\":\"e1\",\"properties\":{\"distinct_id\":\"u1\"}},{\"event\":\"e2\",\"properties\":{\"distinct_id\":\"u2\",\"n\":1},\"timestamp\":\"2024-01-01T00:00:00Z\"}]}"
    );
}

#[test]
fn request_bodies_round_trip() {
    let mut event = Event::new("quote \" and \\ and \n", "üser");
    event.insert_property("list", Value::Array(vec![Value::from(1), Value::from("two"), Value::Null]));
    let request = capture_request(&Host::Custom("http://h".to_string()), &key(), &event).unwrap();
    assert_eq!(request.url, "http://h/i/v0/e/");
    let decoded: Value = serde_json::from_str(&request.body).unwrap();
    assert_eq!(decoded, capture_payload(&key(), &event));
    assert_eq!(decoded.get("event"), Some(&Value::from("quote \" and \\ and \n")));
    assert_eq!(decoded.get("distinct_id"), Some(&Value::from("üser")));
}

#[test]
fn request_serialises_any_value() {
    let framed = request("http://h/".to_string(), &Value::Array(vec![Value::from(true)])).unwrap();
    assert_eq!(framed.url, "http://h/");
    assert_eq!(framed.body, "[true]");
}

#[test]
fn frame_takes_the_text_as_body() {
    let framed = frame("http://h/".to_string(), Ok("{}".to_string())).unwrap();
    assert_eq!(framed.url, "http://h/");
    assert_eq!(framed.body, "{}");
}

#[test]
fn frame_turns_an_error_into_unencodable() {
    let error = serde_json::from_str::<Value>("not json").unwrap_err();
    let framed = frame("http://h/".to_string(), Err(error));
    assert_eq!(framed.unwrap_err(), EncodeError::Unencodable);
}

#[test]
fn content_type_is_json() {
    assert_eq!(CONTENT_TYPE, "application/json");
}
