//! The hook pipeline: an ordered list of mutate-or-drop transformations that
//! every event passes before it is sent.

use crate::events::Event;
use vstd::prelude::*;

verus! {

/// What one hook made of an event.
#[derive(Debug)]
pub enum HookOutcome {
    /// The hook hands on the event, possibly changed.
    Continue(Event),
    /// The hook discards the event.
    Discard,
    /// The hook failed while it ran. The event is lost with it.
    Fault,
}

/// The event that goes on after a hook, if any: a fault discards the event just
/// as a discard does.
pub open spec fn settled(outcome: HookOutcome) -> Option<Event> {
    match outcome {
        HookOutcome::Continue(event) => Some(event),
        HookOutcome::Discard => None,
        HookOutcome::Fault => None,
    }
}

/// The event that goes on after a hook, if any.
pub fn settle(outcome: HookOutcome) -> (next: Option<Event>)
    ensures
        next == settled(outcome),
{
    match outcome {
        HookOutcome::Continue(event) => Some(event),
        HookOutcome::Discard => None,
        HookOutcome::Fault => None,
    }
}

/// Every hook may be called on every event.
pub open spec fn accept_all<H: FnMut(Event) -> HookOutcome>(hooks: Seq<H>) -> bool {
    forall|i: int, event: Event|
        0 <= i < hooks.len() ==> #[trigger] call_requires(hooks[i], (event,))
}

/// `result` is a possible result of passing `event` through the hooks from
/// position `from` on, in order: each hook gets what the one before handed on,
/// and the first hook that does not hand on an event ends the pass with `None`.
pub open spec fn passes<H: FnMut(Event) -> HookOutcome>(
    hooks: Seq<H>,
    from: int,
    event: Event,
    result: Option<Event>,
) -> bool
    decreases hooks.len() - from,
{
    if from < 0 || from >= hooks.len() {
        result == Some(event)
    } else {
        exists|outcome: HookOutcome|
            #[trigger] call_ensures(hooks[from], (event,), outcome) && match settled(outcome) {
                Some(next) => passes(hooks, from + 1, next, result),
                None => result is None,
            }
    }
}

/// Applies all `before_send` hooks to an event, in order.
///
/// Returns the event that the last hook handed on, or `None` as soon as a hook
/// discards the event or fails. The hooks themselves are left as they were.
pub fn apply_before_send<H: FnMut(Event) -> HookOutcome>(hooks: &mut Vec<H>, event: Event) -> (result:
    Option<Event>)
    requires
        accept_all(old(hooks)@),
    ensures
        final(hooks)@ == old(hooks)@,
        passes(old(hooks)@, 0, event, result),
{
    let mut current = event;
    let mut index: usize = 0;
    while index < hooks.len()
        invariant
            index <= hooks@.len(),
            hooks@ == old(hooks)@,
            accept_all(hooks@),
            forall|result: Option<Event>| #[trigger]
                passes(hooks@, index as int, current, result) ==> passes(hooks@, 0, event, result),
        decreases hooks@.len() - index,
    {
        let ghost before = current;
        let ghost all = hooks@;
        let hook = &mut hooks[index];
        let outcome = hook(current);
        assert(call_ensures(all[index as int], (before,), outcome));
        assert(hooks@ =~= all);
        match settle(outcome) {
            Some(next) => {
                assert forall|result: Option<Event>| #[trigger]
                    passes(all, index + 1, next, result) implies passes(all, 0, event, result) by {
                    assert(passes(all, index as int, before, result));
                }
                current = next;
            },
            None => {
                assert(passes(all, index as int, before, None));
                return None;
            },
        }
        index += 1;
    }
    assert(passes(hooks@, index as int, current, Some(current)));
    Some(current)
}

/// A hook that does not hand on a given event, because it discards the event or
/// because it fails, ends the pass of that event with `None`: the hooks after it
/// are not asked.
pub proof fn lemma_discard_or_fault_ends_pass<H: FnMut(Event) -> HookOutcome>(
    hooks: Seq<H>,
    from: int,
    event: Event,
    outcome: HookOutcome,
)
    requires
        0 <= from < hooks.len(),
        call_ensures(hooks[from], (event,), outcome),
        outcome is Discard || outcome is Fault,
    ensures
        passes(hooks, from, event, None),
{
}

/// A hook that never hands on a given event ends every pass of that event
/// through it with `None`, whatever the hooks after it would do.
pub proof fn lemma_discard_ends_pass<H: FnMut(Event) -> HookOutcome>(
    hooks: Seq<H>,
    from: int,
    event: Event,
    result: Option<Event>,
)
    requires
        0 <= from < hooks.len(),
        forall|outcome: HookOutcome| #[trigger]
            call_ensures(hooks[from], (event,), outcome) ==> settled(outcome) is None,
        passes(hooks, from, event, result),
    ensures
        result is None,
{
}

/// A hook that hands on no event at all ends every pass with `None`, wherever it
/// stands in the list and whatever the hooks before it hand on.
pub proof fn lemma_discarding_hook_ends_every_pass<H: FnMut(Event) -> HookOutcome>(
    hooks: Seq<H>,
    position: int,
    from: int,
    event: Event,
    result: Option<Event>,
)
    requires
        0 <= from <= position < hooks.len(),
        forall|event: Event, outcome: HookOutcome| #[trigger]
            call_ensures(hooks[position], (event,), outcome) ==> settled(outcome) is None,
        passes(hooks, from, event, result),
    ensures
        result is None,
    decreases position - from,
{
    if from < position {
        let outcome = choose|outcome: HookOutcome|
            #[trigger] call_ensures(hooks[from], (event,), outcome) && match settled(outcome) {
                Some(next) => passes(hooks, from + 1, next, result),
                None => result is None,
            };
        match settled(outcome) {
            Some(next) => {
                lemma_discarding_hook_ends_every_pass(hooks, position, from + 1, next, result);
            },
            None => {},
        }
    }
}

/// Without hooks every event passes unchanged.
pub proof fn lemma_no_hooks_pass<H: FnMut(Event) -> HookOutcome>(
    hooks: Seq<H>,
    event: Event,
    result: Option<Event>,
)
    requires
        hooks.len() == 0,
    ensures
        passes(hooks, 0, event, result) <==> result == Some(event),
{
}

} // verus!
