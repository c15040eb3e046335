//! The two payload shapes of the wire protocol and the requests that carry them.

use crate::client::{ApiKey, Host};
use crate::events::{text_of, views_of, Event, EventView};
use crate::json::{
    json_array, json_object, json_of, json_of_all, json_string, json_text, json_to_string,
    object_insert, object_members, object_new, Json,
};
use serde_json::Value;
use vstd::prelude::*;

verus! {

/// The members of an object, with a `timestamp` member added where there is one.
pub open spec fn with_timestamp(members: Map<Seq<char>, Json>, timestamp: Option<Seq<char>>) -> Map<
    Seq<char>,
    Json,
> {
    match timestamp {
        Some(text) => members.insert("timestamp"@, Json::Text(text)),
        None => members,
    }
}

/// The single-capture payload: the distinct ID stands beside the properties.
pub open spec fn capture_document(api_key: Seq<char>, event: EventView) -> Json {
    Json::Object(
        with_timestamp(
            Map::<Seq<char>, Json>::empty().insert("api_key"@, Json::Text(api_key)).insert(
                "event"@,
                Json::Text(event.event),
            ).insert("distinct_id"@, Json::Text(event.distinct_id)).insert(
                "properties"@,
                Json::Object(event.properties),
            ),
            event.timestamp,
        ),
    )
}

/// One element of a batch: the distinct ID is a property named `distinct_id`,
/// in place of any property the event had under that name.
pub open spec fn batch_element(event: EventView) -> Json {
    Json::Object(
        with_timestamp(
            Map::<Seq<char>, Json>::empty().insert("event"@, Json::Text(event.event)).insert(
                "properties"@,
                Json::Object(
                    event.properties.insert("distinct_id"@, Json::Text(event.distinct_id)),
                ),
            ),
            event.timestamp,
        ),
    )
}

/// The elements of a batch, one per event and in the events' order.
pub open spec fn batch_elements(events: Seq<EventView>) -> Seq<Json> {
    events.map_values(|event: EventView| batch_element(event))
}

/// The batch payload.
pub open spec fn batch_document(api_key: Seq<char>, events: Seq<EventView>) -> Json {
    Json::Object(
        Map::<Seq<char>, Json>::empty().insert("api_key"@, Json::Text(api_key)).insert(
            "batch"@,
            Json::Array(batch_elements(events)),
        ),
    )
}

/// The names of the members of a single-capture payload.
pub open spec fn capture_member_names(timestamp: Option<Seq<char>>) -> Set<Seq<char>> {
    let always = set!["api_key"@, "event"@, "distinct_id"@, "properties"@];
    if timestamp is Some {
        always.insert("timestamp"@)
    } else {
        always
    }
}

/// The names of the members of a batch element.
pub open spec fn batch_member_names(timestamp: Option<Seq<char>>) -> Set<Seq<char>> {
    let always = set!["event"@, "properties"@];
    if timestamp is Some {
        always.insert("timestamp"@)
    } else {
        always
    }
}

/// The member names of the two shapes are pairwise different.
proof fn lemma_member_names_differ()
    ensures
        "api_key"@ != "event"@,
        "api_key"@ != "distinct_id"@,
        "api_key"@ != "properties"@,
        "api_key"@ != "timestamp"@,
        "api_key"@ != "batch"@,
        "event"@ != "distinct_id"@,
        "event"@ != "properties"@,
        "event"@ != "timestamp"@,
        "distinct_id"@ != "properties"@,
        "distinct_id"@ != "timestamp"@,
        "properties"@ != "timestamp"@,
{
    reveal_strlit("api_key");
    reveal_strlit("event");
    reveal_strlit("distinct_id");
    reveal_strlit("properties");
    reveal_strlit("timestamp");
    reveal_strlit("batch");
    assert("api_key"@.len() == 7);
    assert("event"@.len() == 5);
    assert("distinct_id"@.len() == 11);
    assert("properties"@.len() == 10);
    assert("timestamp"@.len() == 9);
    assert("batch"@.len() == 5);
    assert("event"@[0] == 'e');
    assert("batch"@[0] == 'b');
}

/// The shape of the single-capture payload: an object whose members are the API
/// key, the event name, the distinct ID, the properties as the event has them,
/// and the timestamp if and only if the event has one. The distinct ID stands
/// beside the properties, not among them.
pub proof fn lemma_capture_shape(api_key: Seq<char>, event: EventView)
    ensures
        capture_document(api_key, event) is Object,
        capture_document(api_key, event)->Object_0.dom() == capture_member_names(event.timestamp),
        capture_document(api_key, event)->Object_0["api_key"@] == Json::Text(api_key),
        capture_document(api_key, event)->Object_0["event"@] == Json::Text(event.event),
        capture_document(api_key, event)->Object_0["distinct_id"@] == Json::Text(
            event.distinct_id,
        ),
        capture_document(api_key, event)->Object_0["properties"@] == Json::Object(
            event.properties,
        ),
        event.timestamp matches Some(text) ==> capture_document(
            api_key,
            event,
        )->Object_0["timestamp"@] == Json::Text(text),
{
    lemma_member_names_differ();
    assert(capture_document(api_key, event)->Object_0.dom() =~= capture_member_names(
        event.timestamp,
    ));
}

/// The shape of a batch element: an object whose members are the event name, the
/// properties, and the timestamp if and only if the event has one. The distinct
/// ID is no member of the element; it is the property `distinct_id`, and all
/// other properties are as the event has them.
pub proof fn lemma_batch_element_shape(event: EventView)
    ensures
        batch_element(event) is Object,
        batch_element(event)->Object_0.dom() == batch_member_names(event.timestamp),
        !batch_element(event)->Object_0.contains_key("distinct_id"@),
        batch_element(event)->Object_0["event"@] == Json::Text(event.event),
        batch_element(event)->Object_0["properties"@] is Object,
        batch_element(event)->Object_0["properties"@]->Object_0 == event.properties.insert(
            "distinct_id"@,
            Json::Text(event.distinct_id),
        ),
        batch_element(event)->Object_0["properties"@]->Object_0["distinct_id"@] == Json::Text(
            event.distinct_id,
        ),
        event.timestamp matches Some(text) ==> batch_element(event)->Object_0["timestamp"@]
            == Json::Text(text),
{
    lemma_member_names_differ();
    assert(batch_element(event)->Object_0.dom() =~= batch_member_names(event.timestamp));
}

/// The shape of the batch payload: an object with the API key and the batch,
/// which has one element for each event, in the events' order.
pub proof fn lemma_batch_shape(api_key: Seq<char>, events: Seq<EventView>)
    ensures
        batch_document(api_key, events) is Object,
        batch_document(api_key, events)->Object_0.dom() == set!["api_key"@, "batch"@],
        batch_document(api_key, events)->Object_0["api_key"@] == Json::Text(api_key),
        batch_document(api_key, events)->Object_0["batch"@] is Array,
        batch_document(api_key, events)->Object_0["batch"@]->Array_0.len() == events.len(),
        forall|i: int|
            0 <= i < events.len() ==> #[trigger] batch_document(
                api_key,
                events,
            )->Object_0["batch"@]->Array_0[i] == batch_element(events[i]),
{
    lemma_member_names_differ();
    assert(batch_document(api_key, events)->Object_0.dom() =~= set!["api_key"@, "batch"@]);
}

/// Adds the `timestamp` member to an object under construction, where there is one.
fn insert_timestamp(object: &mut serde_json::Map<String, Value>, timestamp: &Option<String>)
    ensures
        object_members(*final(object)) == with_timestamp(
            object_members(*old(object)),
            text_of(*timestamp),
        ),
{
    match timestamp {
        Some(text) => {
            object_insert(object, "timestamp".to_owned(), json_string(text.clone()));
        },
        None => {},
    }
}

/// Builds the single-capture payload for an event.
pub fn capture_payload(api_key: &ApiKey, event: &Event) -> (payload: Value)
    ensures
        json_of(payload) == capture_document(api_key@, event@),
{
    let mut object = object_new();
    object_insert(&mut object, "api_key".to_owned(), json_string(api_key.as_str().to_owned()));
    object_insert(&mut object, "event".to_owned(), json_string(event.event.clone()));
    object_insert(&mut object, "distinct_id".to_owned(), json_string(event.distinct_id.clone()));
    object_insert(&mut object, "properties".to_owned(), json_object(event.properties.to_object()));
    insert_timestamp(&mut object, &event.timestamp);
    json_object(object)
}

/// Builds the batch element for an event.
pub fn batch_event(event: &Event) -> (element: Value)
    ensures
        json_of(element) == batch_element(event@),
{
    let mut properties = event.properties.to_object();
    object_insert(
        &mut properties,
        "distinct_id".to_owned(),
        json_string(event.distinct_id.clone()),
    );
    let mut object = object_new();
    object_insert(&mut object, "event".to_owned(), json_string(event.event.clone()));
    object_insert(&mut object, "properties".to_owned(), json_object(properties));
    insert_timestamp(&mut object, &event.timestamp);
    json_object(object)
}

/// Builds the batch payload for a sequence of events.
pub fn batch_payload(api_key: &ApiKey, events: &Vec<Event>) -> (payload: Value)
    ensures
        json_of(payload) == batch_document(api_key@, views_of(events@)),
{
    let mut elements: Vec<Value> = Vec::new();
    let mut index: usize = 0;
    while index < events.len()
        invariant
            index <= events@.len(),
            elements@.len() == index,
            forall|i: int|
                0 <= i < index ==> json_of(#[trigger] elements@[i]) == batch_element(events@[i]@),
        decreases events@.len() - index,
    {
        elements.push(batch_event(&events[index]));
        index += 1;
    }
    proof {
        assert(json_of_all(elements@) =~= batch_elements(views_of(events@)));
    }
    let mut object = object_new();
    object_insert(&mut object, "api_key".to_owned(), json_string(api_key.as_str().to_owned()));
    object_insert(&mut object, "batch".to_owned(), json_array(elements));
    json_object(object)
}

/// Why a payload could not be turned into a request.
#[derive(Debug, Clone, Copy, PartialEq, Eq)]
pub enum EncodeError {
    /// The payload has no JSON text.
    Unencodable,
}

/// The content type of every request.
pub const CONTENT_TYPE: &'static str = "application/json";

/// An HTTP POST that is ready to be sent: the URL and the JSON body.
#[derive(Debug)]
pub struct Request {
    pub url: String,
    pub body: String,
}

/// A request as a mathematical value.
pub ghost struct RequestView {
    pub url: Seq<char>,
    pub body: Seq<char>,
}

impl View for Request {
    type V = RequestView;

    open spec fn view(&self) -> RequestView {
        RequestView { url: self.url@, body: self.body@ }
    }
}

/// The request that posts a document to a URL, where the document has a text.
pub open spec fn request_of(url: Seq<char>, document: Json) -> Option<RequestView> {
    match json_text(document) {
        Some(body) => Some(RequestView { url, body }),
        None => None,
    }
}

/// The views of an outcome of framing.
pub open spec fn framed_view(framed: Result<Request, EncodeError>) -> Option<RequestView> {
    match framed {
        Ok(request) => Some(request@),
        Err(_) => None,
    }
}

/// Frames the outcome of a serialisation as a request to `url`: the text becomes
/// the body; an error becomes [`EncodeError::Unencodable`].
pub fn frame(url: String, encoded: Result<String, serde_json::Error>) -> (framed: Result<
    Request,
    EncodeError,
>)
    ensures
        match encoded {
            Ok(text) => framed matches Ok(request) && request@ == (RequestView {
                url: url@,
                body: text@,
            }),
            Err(_) => framed == Err::<Request, EncodeError>(EncodeError::Unencodable),
        },
{
    match encoded {
        Ok(body) => Ok(Request { url, body }),
        Err(_) => Err(EncodeError::Unencodable),
    }
}

/// Serialises a payload and frames it as a request to `url`.
pub fn request(url: String, payload: &Value) -> (framed: Result<Request, EncodeError>)
    ensures
        framed_view(framed) == request_of(url@, json_of(*payload)),
        framed is Err ==> framed == Err::<Request, EncodeError>(EncodeError::Unencodable),
{
    frame(url, json_to_string(payload))
}

/// The request that delivers one event to the single-capture endpoint of `host`.
pub fn capture_request(host: &Host, api_key: &ApiKey, event: &Event) -> (framed: Result<
    Request,
    EncodeError,
>)
    ensures
        framed_view(framed) == request_of(
            host.capture_endpoint(),
            capture_document(api_key@, event@),
        ),
        framed is Err ==> framed == Err::<Request, EncodeError>(EncodeError::Unencodable),
{
    let payload = capture_payload(api_key, event);
    request(host.capture_url(), &payload)
}

/// The request that delivers a sequence of events to the batch endpoint of `host`.
pub fn batch_request(host: &Host, api_key: &ApiKey, events: &Vec<Event>) -> (framed: Result<
    Request,
    EncodeError,
>)
    ensures
        framed_view(framed) == request_of(
            host.batch_endpoint(),
            batch_document(api_key@, views_of(events@)),
        ),
        framed is Err ==> framed == Err::<Request, EncodeError>(EncodeError::Unencodable),
{
    let payload = batch_payload(api_key, events);
    request(host.batch_url(), &payload)
}

} // verus!
