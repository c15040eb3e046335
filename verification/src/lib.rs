//! A client-side event-telemetry dispatcher.
//!
//! Application code hands events to a bounded queue and never waits for the
//! network. A single consumer takes the tasks in the order of their arrival,
//! enriches each event with library and system metadata, runs it through the
//! `before_send` hooks and frames it as an HTTP request for the collection
//! service. This crate holds the rules of that pipeline and proves them; threads,
//! clocks and sockets belong to the program around it.

pub mod client;
pub mod commands;
pub mod context;
pub mod events;
pub mod hooks;
pub mod ids;
pub mod json;
pub mod pipeline;
pub mod properties;
pub mod state;
pub mod transport;
pub mod wire;
pub mod worker;

use crate::client::ClientOptions;
use crate::context::Context;
use crate::events::Event;
use crate::hooks::HookOutcome;
use crate::pipeline::Pipeline;
use crate::worker::{Task, Worker, WorkerState, WorkerView, QUEUE_CAPACITY};
use std::time::Duration;
use vstd::prelude::*;

verus! {

/// The state of an initialised client: the producer side of its worker.
pub struct Client<A> {
    pub worker: Worker<A>,
}

impl<A> Client<A> {
    /// A client with the given options, and the pipeline that its consumer runs.
    /// The options must hold an API key.
    pub fn new<H: FnMut(Event) -> HookOutcome>(options: ClientOptions<H>, context: Context) -> (made:
        (Client<A>, Pipeline<H>))
        requires
            options.api_key is Some,
        ensures
            made.0.worker@ == fresh_worker::<A>(),
            made.1.api_key == options.api_key->0,
            made.1.host == options.host,
            made.1.context == context,
            made.1.hooks == options.before_send,
    {
        let (worker, pipeline) = Worker::new(options, context);
        (Client { worker }, pipeline)
    }
}

/// The worker of a client that has just been initialised: running, with an
/// empty queue of [`QUEUE_CAPACITY`] places.
pub open spec fn fresh_worker<A>() -> WorkerView<A> {
    WorkerView { tasks: Seq::empty(), capacity: QUEUE_CAPACITY as nat, state: WorkerState::Running }
}

/// The guard of a client's lifetime. Whoever holds it ends the client by
/// releasing it, and then waits for pending events no longer than the timeout
/// that the guard carries.
#[must_use]
pub struct ClientGuard {
    shutdown_timeout: Duration,
}

impl ClientGuard {
    /// The longest time that the release of the guard waits for pending events.
    pub closed spec fn timeout(self) -> Duration {
        self.shutdown_timeout
    }

    /// The longest time that the release of the guard waits for pending events.
    pub fn shutdown_timeout(&self) -> (timeout: Duration)
        ensures
            timeout == self.timeout(),
    {
        self.shutdown_timeout
    }
}

/// The cell that holds the client of a process. It is initialised once, with or
/// without an API key, and never emptied again.
pub enum ClientCell<A> {
    /// Nothing has been initialised yet.
    Empty,
    /// Initialised without an API key: there is no client, and every capture,
    /// batch and flush is a no-op.
    Inert,
    /// Initialised with an API key: the client.
    Active(Client<A>),
}

impl<A> ClientCell<A> {
    /// The cell before any initialisation.
    pub fn new() -> (cell: ClientCell<A>)
        ensures
            cell is Empty,
    {
        ClientCell::Empty
    }

    /// Whether [`init`] has been called on the cell, with or without an API key.
    pub fn is_initialized(&self) -> (initialized: bool)
        ensures
            initialized == !(*self is Empty),
    {
        match self {
            ClientCell::Empty => false,
            ClientCell::Inert => true,
            ClientCell::Active(_) => true,
        }
    }

    /// Whether the cell holds a client.
    pub fn is_active(&self) -> (active: bool)
        ensures
            active == (*self is Active),
    {
        match self {
            ClientCell::Empty => false,
            ClientCell::Inert => false,
            ClientCell::Active(_) => true,
        }
    }
}

/// Initialises the client cell with the given options.
///
/// Without an API key the cell becomes inert and there is no pipeline to run.
/// With one, the cell gets a client with a fresh worker, and the pipeline for
/// its consumer comes back beside the guard.
///
/// A cell is initialised once. A second call on the same cell is a programming
/// error, whatever the options of either call hold: the cell must be empty.
pub fn init<H: FnMut(Event) -> HookOutcome, A>(
    client: &mut ClientCell<A>,
    options: ClientOptions<H>,
    context: Context,
) -> (started: (ClientGuard, Option<Pipeline<H>>))
    requires
        *old(client) is Empty,
    ensures
        started.0.timeout() == options.shutdown_timeout,
        !(*final(client) is Empty),
        options.api_key is None ==> *final(client) is Inert && started.1 is None,
        options.api_key is Some ==> {
            &&& *final(client) matches ClientCell::Active(made)
            &&& made.worker@ == fresh_worker::<A>()
            &&& started.1 matches Some(pipeline)
            &&& pipeline.api_key == options.api_key->0
            &&& pipeline.host == options.host
            &&& pipeline.context == context
            &&& pipeline.hooks == options.before_send
        },
{
    let guard = ClientGuard { shutdown_timeout: options.shutdown_timeout };
    if options.api_key.is_none() {
        *client = ClientCell::Inert;
        return (guard, None);
    }
    let (made, pipeline) = Client::new(options, context);
    *client = ClientCell::Active(made);
    (guard, Some(pipeline))
}

/// Asks the client in the cell for a flush: a request that is acknowledged
/// through `ack` once every task enqueued before it has been handed to the
/// consumer.
///
/// The handle comes back where there is no client in the cell, or where its
/// worker does not accept the request.
pub fn flush<A>(client: &mut ClientCell<A>, ack: A) -> (refused: Result<(), A>)
    ensures
        match *old(client) {
            ClientCell::Active(before) => {
                &&& *final(client) matches ClientCell::Active(after)
                &&& after.worker@ == before.worker@.send(Task::Flush(ack))
                &&& refused == if before.worker@.accepts() {
                    Ok::<(), A>(())
                } else {
                    Err::<(), A>(ack)
                }
            },
            _ => *final(client) == *old(client) && refused == Err::<(), A>(ack),
        },
{
    match client {
        ClientCell::Active(running) => running.worker.flush(ack),
        _ => Err(ack),
    }
}

} // verus!
