//! Identity and session of an application that embeds the client.

use crate::events::text_of;
use crate::ids::{random_id, UUID_TEXT_LEN};
use vstd::prelude::*;

verus! {

/// The identity under which an application reports events, and the session it
/// reports them in.
#[derive(Debug)]
pub struct PluginState {
    /// The resolved distinct ID. `None` means anonymous mode: every event gets an
    /// identifier of its own.
    distinct_id: Option<String>,
    /// The session ID for the current application lifecycle.
    session_id: String,
}

/// A plugin state as a mathematical value.
pub ghost struct PluginStateView {
    pub distinct_id: Option<Seq<char>>,
    pub session_id: Seq<char>,
}

impl View for PluginState {
    type V = PluginStateView;

    closed spec fn view(&self) -> PluginStateView {
        PluginStateView { distinct_id: text_of(self.distinct_id), session_id: self.session_id@ }
    }
}

impl PluginState {
    /// The state with the given distinct ID and session ID.
    pub fn with_session(distinct_id: Option<String>, session_id: String) -> (state: PluginState)
        ensures
            state@ == (PluginStateView {
                distinct_id: text_of(distinct_id),
                session_id: session_id@,
            }),
    {
        PluginState { distinct_id, session_id }
    }

    /// The state with the given distinct ID and a freshly generated session ID,
    /// which stays the same for the lifetime of the application.
    ///
    /// The session ID is made from random bits. Where the random source of the
    /// system fails the generator stops the program.
    pub fn new(distinct_id: Option<String>) -> (state: PluginState)
        ensures
            state@.distinct_id == text_of(distinct_id),
            state@.session_id.len() == UUID_TEXT_LEN,
    {
        PluginState::with_session(distinct_id, random_id())
    }

    /// Returns the session ID for the current application lifecycle.
    pub fn session_id(&self) -> (id: &str)
        ensures
            id@ == self@.session_id,
    {
        self.session_id.as_str()
    }

    /// Returns the distinct ID if available, `None` in anonymous mode.
    pub fn distinct_id(&self) -> (id: Option<&str>)
        ensures
            match id {
                Some(text) => self@.distinct_id == Some(text@),
                None => self@.distinct_id is None,
            },
    {
        match &self.distinct_id {
            Some(text) => Some(text.as_str()),
            None => None,
        }
    }
}

} // verus!
