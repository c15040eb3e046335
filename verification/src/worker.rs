//! The dispatch worker: the bounded task queue that producers fill and the single
//! consumer empties, in the order of arrival.

use crate::client::ClientOptions;
use crate::context::Context;
use crate::events::Event;
use crate::hooks::HookOutcome;
use crate::pipeline::Pipeline;
use std::collections::VecDeque;
use vstd::prelude::*;

verus! {

/// The number of tasks that the queue of a client holds at most.
pub const QUEUE_CAPACITY: usize = 256;

/// One unit of work or control signal in the queue. `A` is the type of the
/// handle through which a flush is acknowledged.
#[derive(Debug)]
pub enum Task<A> {
    /// A single event to capture.
    Capture(Event),
    /// A batch of events to send together.
    Batch(Vec<Event>),
    /// A flush request with its acknowledgement handle.
    Flush(A),
    /// The shutdown signal.
    Shutdown,
}

/// Where a worker stands in its life.
#[derive(Debug, Clone, Copy, PartialEq, Eq, Structural)]
pub enum WorkerState {
    /// Tasks are accepted and handed out.
    Running,
    /// Shutdown has been signalled: the consumer works off what was enqueued
    /// before the shutdown task and stops when it reaches that task.
    Draining,
    /// The consumer has stopped. Nothing is accepted or handed out any more.
    Stopped,
}

/// What the consumer gets when it asks for the next task.
#[derive(Debug)]
pub enum Fetched<A> {
    /// Nothing is queued: the consumer waits.
    Idle,
    /// The task at the front of the queue.
    Work(Task<A>),
    /// The worker has stopped: the consumer ends its loop.
    Halt,
}

/// A worker as a mathematical value: the queued tasks from front to back, the
/// capacity of the queue, and the state.
pub ghost struct WorkerView<A> {
    pub tasks: Seq<Task<A>>,
    pub capacity: nat,
    pub state: WorkerState,
}

impl<A> WorkerView<A> {
    /// Whether the shutdown task stands somewhere in the queue.
    pub open spec fn has_shutdown(self) -> bool {
        exists|i: int| 0 <= i < self.tasks.len() && (#[trigger] self.tasks[i]) is Shutdown
    }

    /// What holds of every worker. While it runs, the queue is within its
    /// capacity. Once shutdown has been signalled the shutdown task is in the
    /// queue, which may hold that one task beyond its capacity. A stopped worker
    /// has an empty queue.
    pub open spec fn valid(self) -> bool {
        match self.state {
            WorkerState::Running => self.tasks.len() <= self.capacity,
            WorkerState::Draining => self.tasks.len() <= self.capacity + 1 && self.has_shutdown(),
            WorkerState::Stopped => self.tasks.len() == 0,
        }
    }

    /// Whether one more task is taken in: the worker has not stopped and the
    /// queue is not full.
    pub open spec fn accepts(self) -> bool {
        self.state != WorkerState::Stopped && self.tasks.len() < self.capacity
    }

    /// The worker after an attempt to enqueue `task`: the task stands at the
    /// back where it was accepted; otherwise nothing has changed.
    pub open spec fn send(self, task: Task<A>) -> WorkerView<A> {
        if self.accepts() {
            WorkerView { tasks: self.tasks.push(task), ..self }
        } else {
            self
        }
    }

    /// The worker after shutdown has been signalled. A running worker goes over
    /// to draining and gets the shutdown task at the back of its queue, full or
    /// not: the signal is never dropped. Signalling again changes nothing.
    pub open spec fn signal(self) -> WorkerView<A> {
        if self.state == WorkerState::Running {
            WorkerView {
                tasks: self.tasks.push(Task::Shutdown),
                state: WorkerState::Draining,
                ..self
            }
        } else {
            self
        }
    }

    /// The worker once the consumer has stopped: whatever was queued is dropped.
    pub open spec fn halted(self) -> WorkerView<A> {
        WorkerView { tasks: Seq::empty(), state: WorkerState::Stopped, ..self }
    }

    /// Whether the consumer's next request for a task ends its loop: the worker
    /// has stopped, or the shutdown task stands at the front of the queue.
    pub open spec fn halts(self) -> bool {
        self.state == WorkerState::Stopped || (self.tasks.len() > 0 && self.tasks[0] is Shutdown)
    }

    /// What the consumer's next request for a task returns.
    pub open spec fn fetched(self) -> Fetched<A> {
        if self.halts() {
            Fetched::Halt
        } else if self.tasks.len() == 0 {
            Fetched::Idle
        } else {
            Fetched::Work(self.tasks[0])
        }
    }

    /// The worker after the consumer's next request for a task.
    pub open spec fn fetch(self) -> WorkerView<A> {
        if self.halts() {
            self.halted()
        } else if self.tasks.len() == 0 {
            self
        } else {
            WorkerView { tasks: self.tasks.drop_first(), ..self }
        }
    }
}

/// One step in the life of a worker: a producer tries to enqueue a task, shutdown
/// is signalled, or the consumer asks for the next task.
pub ghost enum Op<A> {
    Send(Task<A>),
    Signal,
    Fetch,
}

/// The consumer asks for the next task, `count` times in a row.
pub open spec fn fetches<A>(count: nat) -> Seq<Op<A>> {
    Seq::new(count, |i: int| Op::Fetch)
}

impl<A> WorkerView<A> {
    /// The worker after one step.
    pub open spec fn apply(self, op: Op<A>) -> WorkerView<A> {
        match op {
            Op::Send(task) => self.send(task),
            Op::Signal => self.signal(),
            Op::Fetch => self.fetch(),
        }
    }

    /// The worker after a sequence of steps.
    pub open spec fn run(self, ops: Seq<Op<A>>) -> WorkerView<A>
        decreases ops.len(),
    {
        if ops.len() == 0 {
            self
        } else {
            self.run(ops.drop_last()).apply(ops.last())
        }
    }

    /// The tasks that entered the queue during a sequence of steps, in the order
    /// of their entry: every task that was accepted, and the shutdown task of the
    /// signal that took effect.
    pub open spec fn accepted(self, ops: Seq<Op<A>>) -> Seq<Task<A>>
        decreases ops.len(),
    {
        if ops.len() == 0 {
            Seq::empty()
        } else {
            let earlier = self.accepted(ops.drop_last());
            let then = self.run(ops.drop_last());
            match ops.last() {
                Op::Send(task) => if then.accepts() {
                    earlier.push(task)
                } else {
                    earlier
                },
                Op::Signal => if then.state == WorkerState::Running {
                    earlier.push(Task::Shutdown)
                } else {
                    earlier
                },
                Op::Fetch => earlier,
            }
        }
    }

    /// The tasks that were handed to the consumer during a sequence of steps, in
    /// the order in which it got them.
    pub open spec fn handed_out(self, ops: Seq<Op<A>>) -> Seq<Task<A>>
        decreases ops.len(),
    {
        if ops.len() == 0 {
            Seq::empty()
        } else {
            let earlier = self.handed_out(ops.drop_last());
            match ops.last() {
                Op::Fetch => match self.run(ops.drop_last()).fetched() {
                    Fetched::Work(task) => earlier.push(task),
                    _ => earlier,
                },
                _ => earlier,
            }
        }
    }
}

/// Every step leaves a worker valid.
pub proof fn lemma_steps_keep_valid<A>(worker: WorkerView<A>, op: Op<A>)
    requires
        worker.valid(),
    ensures
        worker.apply(op).valid(),
{
    let after = worker.apply(op);
    match op {
        Op::Send(task) => {
            if worker.accepts() && worker.state == WorkerState::Draining {
                let i = choose|i: int|
                    0 <= i < worker.tasks.len() && (#[trigger] worker.tasks[i]) is Shutdown;
                assert(after.tasks[i] is Shutdown);
            }
        },
        Op::Signal => {
            if worker.state == WorkerState::Running {
                assert(after.tasks[worker.tasks.len() as int] is Shutdown);
            }
        },
        Op::Fetch => {
            if !worker.halts() && worker.tasks.len() > 0 && worker.state == WorkerState::Draining {
                let i = choose|i: int|
                    0 <= i < worker.tasks.len() && (#[trigger] worker.tasks[i]) is Shutdown;
                assert(after.tasks[i - 1] is Shutdown);
            }
        },
    }
}

/// First in, first out. Whatever producers and consumer do and in whatever order,
/// the consumer gets the tasks in the order in which they entered the queue, none
/// twice and none skipped: what has been handed out is always the front part of
/// what was queued at the start followed by what has entered since. Until the
/// worker stops, the rest is exactly what is still queued.
pub proof fn lemma_first_in_first_out<A>(worker: WorkerView<A>, ops: Seq<Op<A>>)
    requires
        worker.valid(),
    ensures
        worker.run(ops).valid(),
        worker.handed_out(ops).is_prefix_of(worker.tasks + worker.accepted(ops)),
        worker.run(ops).state != WorkerState::Stopped ==> worker.tasks + worker.accepted(ops)
            == worker.handed_out(ops) + worker.run(ops).tasks,
    decreases ops.len(),
{
    let all = worker.tasks + worker.accepted(ops);
    let out = worker.handed_out(ops);
    if ops.len() == 0 {
        assert(all =~= out + worker.tasks);
        assert(out.is_prefix_of(all));
    } else {
        let before = ops.drop_last();
        lemma_first_in_first_out(worker, before);
        let then = worker.run(before);
        lemma_steps_keep_valid(then, ops.last());
        let all_before = worker.tasks + worker.accepted(before);
        let out_before = worker.handed_out(before);
        match ops.last() {
            Op::Send(task) => {
                if then.accepts() {
                    assert(all =~= all_before.push(task));
                    assert(all =~= out + worker.run(ops).tasks);
                } else {
                    assert(all =~= all_before);
                }
            },
            Op::Signal => {
                if then.state == WorkerState::Running {
                    assert(all =~= all_before.push(Task::Shutdown));
                    assert(all =~= out + worker.run(ops).tasks);
                } else {
                    assert(all =~= all_before);
                }
            },
            Op::Fetch => {
                assert(all =~= all_before);
                if !then.halts() && then.tasks.len() > 0 {
                    assert(out == out_before.push(then.tasks[0]));
                    assert(all =~= out + then.tasks.drop_first());
                }
            },
        }
        assert(out.is_prefix_of(all));
    }
}

/// A flush is a barrier. When the consumer gets a flush request, every task that
/// was queued or accepted before that request has been handed to the consumer
/// before it, in the order of acceptance.
pub proof fn lemma_flush_is_a_barrier<A>(worker: WorkerView<A>, ops: Seq<Op<A>>, position: int)
    requires
        worker.valid(),
        0 <= position < worker.handed_out(ops).len(),
        worker.handed_out(ops)[position] is Flush,
    ensures
        position < (worker.tasks + worker.accepted(ops)).len(),
        (worker.tasks + worker.accepted(ops))[position] == worker.handed_out(ops)[position],
        forall|earlier: int|
            0 <= earlier < position ==> (worker.tasks + worker.accepted(ops))[earlier]
                == #[trigger] worker.handed_out(ops)[earlier],
{
    lemma_first_in_first_out(worker, ops);
}

/// Shutdown comes strictly after the work that was enqueued before it. Where the
/// first shutdown task stands at `position` in the queue, the consumer gets
/// every task in front of it, in order, whether or not shutdown has been
/// signalled. Its next request ends the loop: the worker is stopped and what
/// stood behind the shutdown task is dropped, never handed out. Every request
/// after that ends the loop as well.
pub proof fn lemma_shutdown_follows_earlier_tasks<A>(
    worker: WorkerView<A>,
    position: int,
    count: nat,
)
    requires
        worker.state != WorkerState::Stopped,
        0 <= position < worker.tasks.len(),
        worker.tasks[position] is Shutdown,
        forall|i: int| 0 <= i < position ==> !((#[trigger] worker.tasks[i]) is Shutdown),
    ensures
        count <= position ==> worker.handed_out(fetches(count)) == worker.tasks.take(
            count as int,
        ) && worker.run(fetches(count)) == (WorkerView {
            tasks: worker.tasks.skip(count as int),
            ..worker
        }),
        count > position ==> worker.handed_out(fetches(count)) == worker.tasks.take(position)
            && worker.run(fetches(count)) == worker.halted(),
    decreases count,
{
    let ops = fetches::<A>(count);
    if count == 0 {
        assert(worker.tasks.take(0) =~= Seq::empty());
        assert(worker.tasks.skip(0) =~= worker.tasks);
    } else {
        let fewer = (count - 1) as nat;
        lemma_shutdown_follows_earlier_tasks(worker, position, fewer);
        assert(ops.drop_last() =~= fetches::<A>(fewer));
        assert(ops.last() == Op::<A>::Fetch);
        let then = worker.run(fetches(fewer));
        if fewer < position {
            assert(then.tasks[0] == worker.tasks[fewer as int]);
            assert(!then.halts());
            assert(worker.tasks.take(fewer as int).push(worker.tasks[fewer as int])
                =~= worker.tasks.take(count as int));
            assert(then.tasks.drop_first() =~= worker.tasks.skip(count as int));
        } else if fewer == position {
            assert(then.tasks[0] == worker.tasks[position]);
            assert(then.halts());
        } else {
            assert(then.halts());
        }
    }
}

/// A worker on which shutdown is signalled stops after the work that was
/// enqueued before the signal: the consumer gets every task that was queued at
/// the signal, in order, and its next request ends the loop.
pub proof fn lemma_signalled_worker_drains<A>(worker: WorkerView<A>)
    requires
        worker.valid(),
        worker.state == WorkerState::Running,
        !worker.has_shutdown(),
    ensures
        worker.signal().handed_out(fetches(worker.tasks.len())) == worker.tasks,
        worker.signal().run(fetches(worker.tasks.len())).state == WorkerState::Draining,
        worker.signal().handed_out(fetches(worker.tasks.len() + 1)) == worker.tasks,
        worker.signal().run(fetches(worker.tasks.len() + 1)) == worker.signal().halted(),
{
    let signalled = worker.signal();
    let position = worker.tasks.len() as int;
    assert(signalled.tasks[position] is Shutdown);
    assert forall|i: int| 0 <= i < position implies !((#[trigger] signalled.tasks[i])
        is Shutdown) by {
        assert(signalled.tasks[i] == worker.tasks[i]);
    }
    lemma_shutdown_follows_earlier_tasks(signalled, position, worker.tasks.len());
    lemma_shutdown_follows_earlier_tasks(signalled, position, worker.tasks.len() + 1);
    assert(signalled.tasks.take(position) =~= worker.tasks);
}

/// The producer-facing side of the dispatch worker: a bounded first-in-first-out
/// queue of tasks with the shutdown state.
pub struct Worker<A> {
    queue: VecDeque<Task<A>>,
    capacity: usize,
    state: WorkerState,
}

impl<A> View for Worker<A> {
    type V = WorkerView<A>;

    closed spec fn view(&self) -> WorkerView<A> {
        WorkerView { tasks: self.queue@, capacity: self.capacity as nat, state: self.state }
    }
}

impl<A> Worker<A> {
    #[verifier::type_invariant]
    spec fn well_formed(self) -> bool {
        self@.valid()
    }

    /// The two sides of the dispatch worker of a client with the given options:
    /// a running worker with an empty queue of [`QUEUE_CAPACITY`] places for the
    /// producers, and the pipeline that the consumer runs. The options must hold
    /// an API key.
    pub fn new<H: FnMut(Event) -> HookOutcome>(options: ClientOptions<H>, context: Context) -> (sides:
        (Worker<A>, Pipeline<H>))
        requires
            options.api_key is Some,
        ensures
            sides.0@ == (WorkerView::<A> {
                tasks: Seq::empty(),
                capacity: QUEUE_CAPACITY as nat,
                state: WorkerState::Running,
            }),
            sides.1.api_key == options.api_key->0,
            sides.1.host == options.host,
            sides.1.context == context,
            sides.1.hooks == options.before_send,
    {
        (Worker::with_capacity(QUEUE_CAPACITY), Pipeline::new(options, context))
    }

    /// A running worker with an empty queue that holds at most `capacity` tasks.
    pub fn with_capacity(capacity: usize) -> (worker: Worker<A>)
        ensures
            worker@ == (WorkerView::<A> {
                tasks: Seq::empty(),
                capacity: capacity as nat,
                state: WorkerState::Running,
            }),
    {
        Worker { queue: VecDeque::new(), capacity, state: WorkerState::Running }
    }

    /// Takes the queue out of the worker, which is left stopped and empty until
    /// [`Worker::put`] gives it a queue and a state again.
    fn take(&mut self) -> (queue: VecDeque<Task<A>>)
        ensures
            queue@ == old(self)@.tasks,
            final(self)@ == old(self)@.halted(),
    {
        let mut taken = Worker {
            queue: VecDeque::new(),
            capacity: self.capacity,
            state: WorkerState::Stopped,
        };
        core::mem::swap(self, &mut taken);
        let Worker { queue, capacity: _, state: _ } = taken;
        queue
    }

    /// Gives the worker a queue and a state.
    fn put(&mut self, queue: VecDeque<Task<A>>, state: WorkerState)
        requires
            (WorkerView { tasks: queue@, capacity: old(self)@.capacity, state }).valid(),
        ensures
            final(self)@ == (WorkerView { tasks: queue@, capacity: old(self)@.capacity, state }),
    {
        let mut given = Worker { queue, capacity: self.capacity, state };
        core::mem::swap(self, &mut given);
    }

    /// The number of queued tasks.
    pub fn len(&self) -> (count: usize)
        ensures
            count == self@.tasks.len(),
            self@.valid(),
    {
        proof {
            use_type_invariant(self);
        }
        self.queue.len()
    }

    /// The number of tasks that the queue holds at most, the shutdown task of a
    /// signalled shutdown not counted.
    pub fn capacity(&self) -> (capacity: usize)
        ensures
            capacity == self@.capacity,
    {
        self.capacity
    }

    /// The state of the worker.
    pub fn state(&self) -> (state: WorkerState)
        ensures
            state == self@.state,
    {
        self.state
    }

    /// Whether one more task would be taken in.
    pub fn accepts(&self) -> (room: bool)
        ensures
            room == self@.accepts(),
    {
        self.state != WorkerState::Stopped && self.queue.len() < self.capacity
    }

    /// Whether a task would be waiting for the consumer, or the end of its loop.
    pub fn has_work(&self) -> (ready: bool)
        ensures
            ready == !(self@.fetched() is Idle),
    {
        self.state == WorkerState::Stopped || self.queue.len() > 0
    }

    /// Enqueues `task` without waiting. A full queue, or a stopped worker, leaves
    /// the queue as it is and hands the task back.
    pub fn try_send(&mut self, task: Task<A>) -> (refused: Result<(), Task<A>>)
        ensures
            final(self)@ == old(self)@.send(task),
            refused == if old(self)@.accepts() {
                Ok::<(), Task<A>>(())
            } else {
                Err::<(), Task<A>>(task)
            },
            old(self)@.tasks.len() >= old(self)@.capacity ==> refused is Err && final(self)@
                == old(self)@,
    {
        proof {
            use_type_invariant(&*self);
        }
        if self.state == WorkerState::Stopped || self.queue.len() >= self.capacity {
            Err(task)
        } else {
            let state = self.state;
            let mut queue = self.take();
            queue.push_back(task);
            proof {
                lemma_steps_keep_valid(old(self)@, Op::Send(task));
            }
            self.put(queue, state);
            Ok(())
        }
    }

    /// Enqueues a single event. When the queue is full the event is dropped.
    ///
    /// Returns whether the event was enqueued.
    pub fn capture(&mut self, event: Event) -> (enqueued: bool)
        ensures
            enqueued == old(self)@.accepts(),
            final(self)@ == old(self)@.send(Task::Capture(event)),
            old(self)@.tasks.len() >= old(self)@.capacity ==> !enqueued && final(self)@ == old(
                self,
            )@,
    {
        self.try_send(Task::Capture(event)).is_ok()
    }

    /// Enqueues a batch of events as one task. When the queue is full the batch
    /// is dropped.
    ///
    /// Returns whether the batch was enqueued.
    pub fn batch(&mut self, events: Vec<Event>) -> (enqueued: bool)
        ensures
            enqueued == old(self)@.accepts(),
            final(self)@ == old(self)@.send(Task::Batch(events)),
            old(self)@.tasks.len() >= old(self)@.capacity ==> !enqueued && final(self)@ == old(
                self,
            )@,
    {
        self.try_send(Task::Batch(events)).is_ok()
    }

    /// Enqueues a flush request that is acknowledged through `ack` once every
    /// task enqueued before it has been handed out. When the request is not
    /// accepted the handle comes back.
    pub fn flush(&mut self, ack: A) -> (refused: Result<(), A>)
        ensures
            final(self)@ == old(self)@.send(Task::Flush(ack)),
            refused == if old(self)@.accepts() {
                Ok::<(), A>(())
            } else {
                Err::<(), A>(ack)
            },
    {
        if self.accepts() {
            let _ = self.try_send(Task::Flush(ack));
            Ok(())
        } else {
            Err(ack)
        }
    }

    /// Signals shutdown. On a running worker the shutdown task is enqueued behind
    /// everything that is queued, also where the queue is full, and the worker
    /// goes over to draining: the consumer still gets every task in front of the
    /// shutdown task and stops when it reaches it. On a worker that is draining or
    /// stopped the call changes nothing.
    ///
    /// Returns whether this call signalled the shutdown.
    pub fn shutdown(&mut self) -> (signalled: bool)
        ensures
            signalled == (old(self)@.state == WorkerState::Running),
            final(self)@ == old(self)@.signal(),
            signalled ==> final(self)@.tasks == old(self)@.tasks.push(Task::Shutdown)
                && final(self)@.state == WorkerState::Draining,
    {
        proof {
            use_type_invariant(&*self);
        }
        if self.state == WorkerState::Running {
            let mut queue = self.take();
            queue.push_back(Task::Shutdown);
            proof {
                lemma_steps_keep_valid(old(self)@, Op::Signal);
            }
            self.put(queue, WorkerState::Draining);
            true
        } else {
            false
        }
    }

    /// Hands out the task at the front of the queue, also after shutdown has been
    /// signalled.
    ///
    /// When the shutdown task stands at the front the worker stops instead: the
    /// queue is emptied, so that nothing behind the shutdown task is handed out,
    /// and this and every later call return [`Fetched::Halt`].
    pub fn next(&mut self) -> (fetched: Fetched<A>)
        ensures
            fetched == old(self)@.fetched(),
            final(self)@ == old(self)@.fetch(),
            fetched matches Fetched::Work(task) ==> !(task is Shutdown),
    {
        proof {
            use_type_invariant(&*self);
        }
        if self.state == WorkerState::Stopped {
            assert(self@.tasks =~= Seq::empty());
            return Fetched::Halt;
        }
        let state = self.state;
        let mut queue = self.take();
        match queue.pop_front() {
            None => {
                assert(queue@ =~= old(self)@.tasks);
                self.put(queue, state);
                Fetched::Idle
            },
            Some(Task::Shutdown) => Fetched::Halt,
            Some(task) => {
                assert(queue@ =~= old(self)@.tasks.drop_first());
                proof {
                    lemma_steps_keep_valid(old(self)@, Op::Fetch);
                }
                self.put(queue, state);
                Fetched::Work(task)
            },
        }
    }
}

} // verus!
