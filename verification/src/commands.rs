//! The payload with which a frontend asks for an event to be captured.

use crate::json::Json;
use crate::properties::Properties;
use vstd::prelude::*;

verus! {

/// A request to capture one event: its name and, optionally, its properties.
#[derive(Debug)]
pub struct CaptureRequest {
    pub event: String,
    pub properties: Option<Properties>,
}

impl CaptureRequest {
    /// The properties that the request stands for: those given, or none.
    pub open spec fn given_properties(self) -> Map<Seq<char>, Json> {
        match self.properties {
            Some(properties) => properties@,
            None => Map::empty(),
        }
    }

    /// The name of the event.
    pub fn name(&self) -> (name: &str)
        ensures
            name@ == self.event@,
    {
        self.event.as_str()
    }

    /// A copy of the properties of the request; the empty set where it has none.
    pub fn properties(&self) -> (properties: Properties)
        ensures
            properties@ == self.given_properties(),
    {
        match &self.properties {
            Some(properties) => properties.clone(),
            None => Properties::new(),
        }
    }
}

} // verus!
