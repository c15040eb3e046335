//! Events and the builder that assembles them.

use crate::ids::{anonymous_id, UUID_TEXT_LEN};
use crate::json::{json_of, Json};
use crate::properties::Properties;
use crate::worker::Task;
use crate::ClientCell;
use serde_json::Value;
use vstd::prelude::*;

verus! {

/// Captures a single event: hands it to the worker of the client in the cell.
///
/// Where the cell holds no client, or the queue is full, the event is dropped.
/// The call never waits. Returns whether the event was enqueued.
pub fn capture<A>(client: &mut ClientCell<A>, event: Event) -> (enqueued: bool)
    ensures
        match *old(client) {
            ClientCell::Active(before) => {
                &&& *final(client) matches ClientCell::Active(after)
                &&& after.worker@ == before.worker@.send(Task::Capture(event))
                &&& enqueued == before.worker@.accepts()
            },
            _ => *final(client) == *old(client) && !enqueued,
        },
{
    match client {
        ClientCell::Active(running) => running.worker.capture(event),
        _ => false,
    }
}

/// Captures a batch of events: hands it to the worker of the client in the cell
/// as one task, to be sent in a single request.
///
/// Where the cell holds no client, or the queue is full, the batch is dropped.
/// The call never waits. Returns whether the batch was enqueued.
pub fn batch<A>(client: &mut ClientCell<A>, events: Vec<Event>) -> (enqueued: bool)
    ensures
        match *old(client) {
            ClientCell::Active(before) => {
                &&& *final(client) matches ClientCell::Active(after)
                &&& after.worker@ == before.worker@.send(Task::Batch(events))
                &&& enqueued == before.worker@.accepts()
            },
            _ => *final(client) == *old(client) && !enqueued,
        },
{
    match client {
        ClientCell::Active(running) => running.worker.batch(events),
        _ => false,
    }
}

/// One telemetry record.
#[derive(Debug)]
pub struct Event {
    /// The event name.
    pub event: String,
    /// The identifier of the user or session the event belongs to.
    pub distinct_id: String,
    /// Custom properties attached to the event.
    pub properties: Properties,
    /// Optional ISO 8601 timestamp; without one the receiving service uses its own clock.
    pub timestamp: Option<String>,
}

/// An event as a mathematical value.
pub ghost struct EventView {
    pub event: Seq<char>,
    pub distinct_id: Seq<char>,
    pub properties: Map<Seq<char>, Json>,
    pub timestamp: Option<Seq<char>>,
}

/// The characters of an optional string.
pub open spec fn text_of(text: Option<String>) -> Option<Seq<char>> {
    match text {
        Some(t) => Some(t@),
        None => None,
    }
}

impl View for Event {
    type V = EventView;

    open spec fn view(&self) -> EventView {
        EventView {
            event: self.event@,
            distinct_id: self.distinct_id@,
            properties: self.properties@,
            timestamp: text_of(self.timestamp),
        }
    }
}

/// The views of a sequence of events, in order.
pub open spec fn views_of(events: Seq<Event>) -> Seq<EventView> {
    events.map_values(|event: Event| event@)
}

/// A copy of an optional string.
pub fn clone_text(text: &Option<String>) -> (copy: Option<String>)
    ensures
        text_of(copy) == text_of(*text),
{
    match text {
        Some(t) => Some(t.clone()),
        None => None,
    }
}

impl Event {
    /// An event named `event` for the subject `distinct_id`, without properties or timestamp.
    pub fn new(event: &str, distinct_id: &str) -> (created: Event)
        ensures
            created@ == (EventView {
                event: event@,
                distinct_id: distinct_id@,
                properties: Map::empty(),
                timestamp: None,
            }),
    {
        Event {
            event: event.to_owned(),
            distinct_id: distinct_id.to_owned(),
            properties: Properties::new(),
            timestamp: None,
        }
    }

    /// An event named `event` for a subject that gets a freshly generated identifier.
    ///
    /// The identifier is made from the system clock and random bits. Where the
    /// clock reads a time before 1970 the generator stops the program.
    pub fn new_anonymous(event: &str) -> (created: Event)
        ensures
            created@.event == event@,
            created@.distinct_id.len() == UUID_TEXT_LEN,
            created@.properties == Map::<Seq<char>, Json>::empty(),
            created@.timestamp is None,
    {
        let id = anonymous_id();
        Event::new(event, id.as_str())
    }

    /// A builder with nothing set.
    pub fn builder() -> (builder: EventBuilder)
        ensures
            builder@ == EventBuilder::empty(),
    {
        EventBuilder {
            event: None,
            distinct_id: None,
            properties: Properties::new(),
            timestamp: None,
        }
    }

    /// Sets the property `key` to `value`, replacing a value set before.
    pub fn insert_property(&mut self, key: &str, value: Value)
        ensures
            final(self)@ == (EventView {
                properties: old(self)@.properties.insert(key@, json_of(value)),
                ..old(self)@
            }),
    {
        self.properties.insert(key.to_owned(), value);
    }
}

impl Clone for Event {
    fn clone(&self) -> (copy: Event)
        ensures
            copy@ == self@,
    {
        Event {
            event: self.event.clone(),
            distinct_id: self.distinct_id.clone(),
            properties: self.properties.clone(),
            timestamp: clone_text(&self.timestamp),
        }
    }
}

/// Assembles an [`Event`] step by step.
#[derive(Debug)]
pub struct EventBuilder {
    event: Option<String>,
    distinct_id: Option<String>,
    properties: Properties,
    timestamp: Option<String>,
}

/// What a builder has been given so far.
pub ghost struct BuilderView {
    pub event: Option<Seq<char>>,
    pub distinct_id: Option<Seq<char>>,
    pub properties: Map<Seq<char>, Json>,
    pub timestamp: Option<Seq<char>>,
}

impl View for EventBuilder {
    type V = BuilderView;

    closed spec fn view(&self) -> BuilderView {
        BuilderView {
            event: text_of(self.event),
            distinct_id: text_of(self.distinct_id),
            properties: self.properties@,
            timestamp: text_of(self.timestamp),
        }
    }
}

impl Default for EventBuilder {
    fn default() -> (builder: EventBuilder)
        ensures
            builder@ == EventBuilder::empty(),
    {
        Event::builder()
    }
}

impl EventBuilder {
    /// The state of a builder that has been given nothing.
    pub open spec fn empty() -> BuilderView {
        BuilderView { event: None, distinct_id: None, properties: Map::empty(), timestamp: None }
    }

    /// The event that a builder with a name produces when `fallback_id` stands in
    /// for a missing distinct ID.
    pub open spec fn built(state: BuilderView, fallback_id: Seq<char>) -> EventView
        recommends
            state.event is Some,
    {
        EventView {
            event: state.event->0,
            distinct_id: match state.distinct_id {
                Some(id) => id,
                None => fallback_id,
            },
            properties: state.properties,
            timestamp: state.timestamp,
        }
    }

    /// Sets the event name.
    pub fn event(self, event: &str) -> (builder: EventBuilder)
        ensures
            builder@ == (BuilderView { event: Some(event@), ..self@ }),
    {
        EventBuilder {
            event: Some(event.to_owned()),
            distinct_id: self.distinct_id,
            properties: self.properties,
            timestamp: self.timestamp,
        }
    }

    /// Sets the distinct ID.
    pub fn distinct_id(self, distinct_id: &str) -> (builder: EventBuilder)
        ensures
            builder@ == (BuilderView { distinct_id: Some(distinct_id@), ..self@ }),
    {
        EventBuilder {
            event: self.event,
            distinct_id: Some(distinct_id.to_owned()),
            properties: self.properties,
            timestamp: self.timestamp,
        }
    }

    /// Sets the property `key` to `value`, replacing a value set before.
    pub fn property(self, key: &str, value: Value) -> (builder: EventBuilder)
        ensures
            builder@ == (BuilderView {
                properties: self@.properties.insert(key@, json_of(value)),
                ..self@
            }),
    {
        let mut properties = self.properties;
        properties.insert(key.to_owned(), value);
        EventBuilder {
            event: self.event,
            distinct_id: self.distinct_id,
            properties,
            timestamp: self.timestamp,
        }
    }

    /// Sets the timestamp (ISO 8601 format).
    pub fn timestamp(self, timestamp: &str) -> (builder: EventBuilder)
        ensures
            builder@ == (BuilderView { timestamp: Some(timestamp@), ..self@ }),
    {
        EventBuilder {
            event: self.event,
            distinct_id: self.distinct_id,
            properties: self.properties,
            timestamp: Some(timestamp.to_owned()),
        }
    }

    /// Whether an event name has been set, which [`EventBuilder::build`] asks for.
    pub fn has_event(&self) -> (named: bool)
        ensures
            named == self@.event is Some,
    {
        self.event.is_some()
    }

    /// Builds the event, with `fallback_id` as its distinct ID where none was set.
    pub fn build_with(self, fallback_id: String) -> (event: Event)
        requires
            self@.event is Some,
        ensures
            event@ == EventBuilder::built(self@, fallback_id@),
    {
        let name = self.event.expect("event name is required");
        let distinct_id = match self.distinct_id {
            Some(id) => id,
            None => fallback_id,
        };
        Event { event: name, distinct_id, properties: self.properties, timestamp: self.timestamp }
    }

    /// Builds the event. Where no distinct ID was set, the event gets a freshly
    /// generated one, made from the system clock and random bits; where the clock
    /// reads a time before 1970 the generator stops the program.
    ///
    /// The event name must have been set.
    pub fn build(self) -> (event: Event)
        requires
            self@.event is Some,
        ensures
            event@.event == self@.event->0,
            event@.properties == self@.properties,
            event@.timestamp == self@.timestamp,
            match self@.distinct_id {
                Some(id) => event@.distinct_id == id,
                None => event@.distinct_id.len() == UUID_TEXT_LEN,
            },
    {
        if self.distinct_id.is_some() {
            self.build_with(String::new())
        } else {
            let id = anonymous_id();
            self.build_with(id)
        }
    }
}

} // verus!
