//! The consumer side of the dispatch worker: what is done about each task that
//! the queue hands out.
//!
//! The pipeline decides; it performs no I/O. For a data-bearing task it enriches
//! the events, runs the hooks and frames the request, and answers with the
//! [`Action`] that the caller is to perform.

use crate::client::{ApiKey, ClientOptions, Host};
use crate::context::{enriched, saturate_event, Context};
use crate::events::{views_of, Event};
use crate::hooks::{
    accept_all, apply_before_send, lemma_discarding_hook_ends_every_pass, passes, settled,
    HookOutcome,
};
use crate::json::Json;
use crate::wire::{
    batch_document, batch_request, capture_document, capture_request, request_of, Request,
    RequestView,
};
use crate::worker::Task;
use vstd::prelude::*;

verus! {

/// Why a task led to no request.
#[derive(Debug, Clone, Copy, PartialEq, Eq)]
pub enum Skipped {
    /// No event was left after the hooks.
    Filtered,
    /// The payload could not be serialised.
    Unencodable,
}

/// What the consumer is to do after a task has been processed.
#[derive(Debug)]
pub enum Action<A> {
    /// Send the request, once, and go on with the next task.
    Post(Request),
    /// Acknowledge a flush through its handle and go on with the next task.
    Ack(A),
    /// Nothing is to be sent; go on with the next task.
    Skip(Skipped),
    /// End the loop.
    Stop,
}

/// The outcome of preparing a delivery, by view.
pub open spec fn prepared_view(prepared: Result<Request, Skipped>) -> Result<RequestView, Skipped> {
    match prepared {
        Ok(request) => Ok(request@),
        Err(skipped) => Err(skipped),
    }
}

/// The request of a document, or the reason why there is none.
pub open spec fn request_or_skip(url: Seq<char>, document: Json) -> Result<
    RequestView,
    Skipped,
> {
    match request_of(url, document) {
        Some(request) => Ok(request),
        None => Err(Skipped::Unencodable),
    }
}

/// The action that carries out a prepared delivery.
pub open spec fn carries_out<A>(action: Action<A>, prepared: Result<RequestView, Skipped>) -> bool {
    match prepared {
        Ok(request) => action matches Action::Post(posted) && posted@ == request,
        Err(skipped) => action == Action::<A>::Skip(skipped),
    }
}

/// What the consumer works with: the key and host of the service, the metadata
/// for enrichment and the hooks, in the order in which they run.
pub struct Pipeline<H> {
    pub api_key: ApiKey,
    pub host: Host,
    pub context: Context,
    pub hooks: Vec<H>,
}

impl<H: FnMut(Event) -> HookOutcome> Pipeline<H> {
    /// Both pipelines have the same key, host, metadata and hooks.
    pub open spec fn same_as(self, other: Pipeline<H>) -> bool {
        &&& self.api_key == other.api_key
        &&& self.host == other.host
        &&& self.context == other.context
        &&& self.hooks@ == other.hooks@
    }

    /// `survivor` is a possible result of enriching `event` and passing it
    /// through the hooks.
    pub open spec fn survivor_of(self, event: Event, survivor: Option<Event>) -> bool {
        exists|entered: Event| #[trigger]
            passes(self.hooks@, 0, entered, survivor) && entered@ == enriched(
                event@,
                self.context,
            )
    }

    /// `survivors` is a possible result of enriching each of `events` and passing
    /// it through the hooks on its own: the events that came through, in the
    /// order of `events`.
    pub open spec fn survivors_of(self, events: Seq<Event>, survivors: Seq<Event>) -> bool
        decreases events.len(),
    {
        if events.len() == 0 {
            survivors.len() == 0
        } else {
            exists|survivor: Option<Event>| #[trigger]
                self.survivor_of(events.last(), survivor) && match survivor {
                    Some(event) => survivors.len() > 0 && survivors.last() == event
                        && self.survivors_of(events.drop_last(), survivors.drop_last()),
                    None => self.survivors_of(events.drop_last(), survivors),
                }
        }
    }

    /// What is done about a single event after the hooks: nothing if it was
    /// discarded, else the single-capture request, if the payload has a text.
    pub open spec fn capture_delivery(self, survivor: Option<Event>) -> Result<
        RequestView,
        Skipped,
    > {
        match survivor {
            None => Err(Skipped::Filtered),
            Some(event) => request_or_skip(
                self.host.capture_endpoint(),
                capture_document(self.api_key@, event@),
            ),
        }
    }

    /// What is done about a batch after the hooks: nothing if no event is left,
    /// else one batch request for the events that are, if the payload has a text.
    pub open spec fn batch_delivery(self, survivors: Seq<Event>) -> Result<RequestView, Skipped> {
        if survivors.len() == 0 {
            Err(Skipped::Filtered)
        } else {
            request_or_skip(
                self.host.batch_endpoint(),
                batch_document(self.api_key@, views_of(survivors)),
            )
        }
    }

    /// `action` is a possible answer of the pipeline to `task`.
    pub open spec fn handles<A>(self, task: Task<A>, action: Action<A>) -> bool {
        match task {
            Task::Capture(event) => exists|survivor: Option<Event>| #[trigger]
                self.survivor_of(event, survivor) && carries_out(
                    action,
                    self.capture_delivery(survivor),
                ),
            Task::Batch(events) => exists|survivors: Seq<Event>| #[trigger]
                self.survivors_of(events@, survivors) && carries_out(
                    action,
                    self.batch_delivery(survivors),
                ),
            Task::Flush(ack) => action == Action::Ack(ack),
            Task::Shutdown => action == Action::<A>::Stop,
        }
    }

    /// The pipeline that a client with the given options runs. The options must
    /// hold an API key.
    pub fn new(options: ClientOptions<H>, context: Context) -> (pipeline: Pipeline<H>)
        requires
            options.api_key is Some,
        ensures
            pipeline.api_key == options.api_key->0,
            pipeline.host == options.host,
            pipeline.context == context,
            pipeline.hooks == options.before_send,
    {
        Pipeline {
            api_key: options.api_key.unwrap(),
            host: options.host,
            context,
            hooks: options.before_send,
        }
    }

    /// Enriches an event and passes it through the hooks.
    pub fn filter(&mut self, event: Event) -> (survivor: Option<Event>)
        requires
            accept_all(old(self).hooks@),
        ensures
            final(self).same_as(*old(self)),
            old(self).survivor_of(event, survivor),
    {
        let mut event = event;
        saturate_event(&mut event, &self.context);
        let survivor = apply_before_send(&mut self.hooks, event);
        assert(passes(old(self).hooks@, 0, event, survivor));
        survivor
    }

    /// Enriches each event and passes it through the hooks on its own.
    pub fn filter_batch(&mut self, events: Vec<Event>) -> (survivors: Vec<Event>)
        requires
            accept_all(old(self).hooks@),
        ensures
            final(self).same_as(*old(self)),
            old(self).survivors_of(events@, survivors@),
    {
        let ghost all = events@;
        let ghost start = *self;
        let mut survivors: Vec<Event> = Vec::new();
        for event in iter: events
            invariant
                iter.seq() == all,
                self.same_as(start),
                accept_all(self.hooks@),
                start.survivors_of(all.take(iter.index() as int), survivors@),
        {
            let ghost done = all.take(iter.index() as int);
            let ghost kept = survivors@;
            let survivor = self.filter(event);
            proof {
                let next = all.take(iter.index() as int + 1);
                assert(next.drop_last() == done);
                assert(next.last() == event);
                assert(start.survivor_of(event, survivor));
            }
            match survivor {
                Some(event) => {
                    survivors.push(event);
                    assert(survivors@.drop_last() == kept);
                },
                None => {},
            }
        }
        proof {
            assert(all.take(all.len() as int) == all);
        }
        survivors
    }

    /// Prepares the delivery of a single event after the hooks.
    pub fn prepare_capture(&self, survivor: Option<Event>) -> (prepared: Result<Request, Skipped>)
        ensures
            prepared_view(prepared) == self.capture_delivery(survivor),
    {
        match survivor {
            None => Err(Skipped::Filtered),
            Some(event) => match capture_request(&self.host, &self.api_key, &event) {
                Ok(request) => Ok(request),
                Err(_) => Err(Skipped::Unencodable),
            },
        }
    }

    /// Prepares the delivery of a batch after the hooks.
    pub fn prepare_batch(&self, survivors: Vec<Event>) -> (prepared: Result<Request, Skipped>)
        ensures
            prepared_view(prepared) == self.batch_delivery(survivors@),
    {
        if survivors.len() == 0 {
            Err(Skipped::Filtered)
        } else {
            match batch_request(&self.host, &self.api_key, &survivors) {
                Ok(request) => Ok(request),
                Err(_) => Err(Skipped::Unencodable),
            }
        }
    }

    /// Processes one task and says what the consumer is to do.
    ///
    /// A single event is enriched and passed through the hooks; if it comes
    /// through, the answer is its single-capture request. The events of a batch
    /// are enriched and passed through the hooks one by one; if any comes through,
    /// the answer is one batch request for those that did. A flush is answered
    /// with its acknowledgement, the shutdown task with `Stop`. Whatever the hooks
    /// do, the pipeline is afterwards as it was, ready for the next task.
    pub fn process<A>(&mut self, task: Task<A>) -> (action: Action<A>)
        requires
            accept_all(old(self).hooks@),
        ensures
            final(self).same_as(*old(self)),
            accept_all(final(self).hooks@),
            old(self).handles(task, action),
    {
        match task {
            Task::Capture(event) => {
                let survivor = self.filter(event);
                match self.prepare_capture(survivor) {
                    Ok(request) => Action::Post(request),
                    Err(skipped) => Action::Skip(skipped),
                }
            },
            Task::Batch(events) => {
                let survivors = self.filter_batch(events);
                let ghost kept = survivors@;
                let prepared = self.prepare_batch(survivors);
                assert(old(self).survivors_of(events@, kept));
                match prepared {
                    Ok(request) => Action::Post(request),
                    Err(skipped) => Action::Skip(skipped),
                }
            },
            Task::Flush(ack) => Action::Ack(ack),
            Task::Shutdown => Action::Stop,
        }
    }
}

/// An event that no pass through the hooks lets through is never sent: the
/// answer to its task is to skip, not to post.
pub proof fn lemma_discarded_event_is_not_sent<H: FnMut(Event) -> HookOutcome, A>(
    pipeline: Pipeline<H>,
    event: Event,
    action: Action<A>,
)
    requires
        pipeline.handles(Task::Capture(event), action),
        forall|survivor: Option<Event>| #[trigger]
            pipeline.survivor_of(event, survivor) ==> survivor is None,
    ensures
        action == Action::<A>::Skip(Skipped::Filtered),
        !(action is Post),
{
}

/// A pipeline with a hook that hands on no event sends nothing: every single
/// event and every batch is skipped.
pub proof fn lemma_discarding_hook_blocks_delivery<H: FnMut(Event) -> HookOutcome, A>(
    pipeline: Pipeline<H>,
    position: int,
    task: Task<A>,
    action: Action<A>,
)
    requires
        0 <= position < pipeline.hooks@.len(),
        forall|event: Event, outcome: HookOutcome| #[trigger]
            call_ensures(pipeline.hooks@[position], (event,), outcome) ==> settled(outcome)
                is None,
        task is Capture || task is Batch,
        pipeline.handles(task, action),
    ensures
        action == Action::<A>::Skip(Skipped::Filtered),
{
    match task {
        Task::Capture(event) => {
            assert forall|survivor: Option<Event>| #[trigger]
                pipeline.survivor_of(event, survivor) implies survivor is None by {
                lemma_survivor_needs_every_hook(pipeline, position, event, survivor);
            }
        },
        Task::Batch(events) => {
            assert forall|survivors: Seq<Event>| #[trigger]
                pipeline.survivors_of(events@, survivors) implies survivors.len() == 0 by {
                lemma_no_survivors(pipeline, position, events@, survivors);
            }
        },
        _ => {},
    }
}

/// With a hook that hands on no event, no event comes through.
proof fn lemma_survivor_needs_every_hook<H: FnMut(Event) -> HookOutcome>(
    pipeline: Pipeline<H>,
    position: int,
    event: Event,
    survivor: Option<Event>,
)
    requires
        0 <= position < pipeline.hooks@.len(),
        forall|event: Event, outcome: HookOutcome| #[trigger]
            call_ensures(pipeline.hooks@[position], (event,), outcome) ==> settled(outcome)
                is None,
        pipeline.survivor_of(event, survivor),
    ensures
        survivor is None,
{
    let entered = choose|entered: Event| #[trigger]
        passes(pipeline.hooks@, 0, entered, survivor) && entered@ == enriched(
            event@,
            pipeline.context,
        );
    lemma_discarding_hook_ends_every_pass(pipeline.hooks@, position, 0, entered, survivor);
}

/// With a hook that hands on no event, no event of a batch comes through.
proof fn lemma_no_survivors<H: FnMut(Event) -> HookOutcome>(
    pipeline: Pipeline<H>,
    position: int,
    events: Seq<Event>,
    survivors: Seq<Event>,
)
    requires
        0 <= position < pipeline.hooks@.len(),
        forall|event: Event, outcome: HookOutcome| #[trigger]
            call_ensures(pipeline.hooks@[position], (event,), outcome) ==> settled(outcome)
                is None,
        pipeline.survivors_of(events, survivors),
    ensures
        survivors.len() == 0,
    decreases events.len(),
{
    if events.len() > 0 {
        let survivor = choose|survivor: Option<Event>| #[trigger]
            pipeline.survivor_of(events.last(), survivor) && match survivor {
                Some(event) => survivors.len() > 0 && survivors.last() == event
                    && pipeline.survivors_of(events.drop_last(), survivors.drop_last()),
                None => pipeline.survivors_of(events.drop_last(), survivors),
            };
        lemma_survivor_needs_every_hook(pipeline, position, events.last(), survivor);
        lemma_no_survivors(pipeline, position, events.drop_last(), survivors);
    }
}

/// Pipelines with the same key, host, metadata and hooks let the same events
/// through.
proof fn lemma_same_survivors<H: FnMut(Event) -> HookOutcome>(
    first: Pipeline<H>,
    second: Pipeline<H>,
    events: Seq<Event>,
    survivors: Seq<Event>,
)
    requires
        first.same_as(second),
    ensures
        first.survivors_of(events, survivors) == second.survivors_of(events, survivors),
    decreases events.len(),
{
    if events.len() > 0 {
        lemma_same_survivors(first, second, events.drop_last(), survivors);
        lemma_same_survivors(first, second, events.drop_last(), survivors.drop_last());
        assert forall|survivor: Option<Event>|
            first.survivor_of(events.last(), survivor) == second.survivor_of(
                events.last(),
                survivor,
            ) by {}
    }
}

/// What a pipeline answers depends on its key, host, metadata and hooks alone.
/// Since processing a task leaves these as they were, an event that a hook
/// discarded, or on which a hook failed, has no bearing on the tasks after it:
/// they are answered as by a pipeline that never saw that event.
pub proof fn lemma_answers_depend_on_configuration<H: FnMut(Event) -> HookOutcome, A>(
    first: Pipeline<H>,
    second: Pipeline<H>,
    task: Task<A>,
    action: Action<A>,
)
    requires
        first.same_as(second),
    ensures
        first.handles(task, action) == second.handles(task, action),
{
    match task {
        Task::Capture(event) => {
            assert forall|survivor: Option<Event>|
                first.survivor_of(event, survivor) == second.survivor_of(event, survivor) by {}
            assert(first.handles(task, action) == second.handles(task, action));
        },
        Task::Batch(events) => {
            assert forall|survivors: Seq<Event>|
                first.survivors_of(events@, survivors) == second.survivors_of(
                    events@,
                    survivors,
                ) by {
                lemma_same_survivors(first, second, events@, survivors);
            }
            assert(first.handles(task, action) == second.handles(task, action));
        },
        _ => {},
    }
}

/// Without hooks every single event is sent as enriched, if its payload has a
/// text: the answer to its task is never to skip it as filtered.
pub proof fn lemma_no_hooks_deliver<H: FnMut(Event) -> HookOutcome, A>(
    pipeline: Pipeline<H>,
    event: Event,
    action: Action<A>,
)
    requires
        pipeline.hooks@.len() == 0,
        pipeline.handles(Task::Capture(event), action),
    ensures
        carries_out(
            action,
            request_or_skip(
                pipeline.host.capture_endpoint(),
                capture_document(pipeline.api_key@, enriched(event@, pipeline.context)),
            ),
        ),
{
}

} // verus!
