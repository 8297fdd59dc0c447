//! Workers: what makes one take up a task, and when it ends.

use std::collections::VecDeque;

use vstd::prelude::*;

use crate::actor::error::Error;
use crate::actor::model::{InternalMessage, ResponseSignal, Task};
use crate::ids::{hyphenated_text, id_text};

verus! {

/// How long a worker waits for a signal, in nanoseconds.
pub const SIGNAL_WAIT: u64 = 1_000_000_000;

/// How long a task takes, in nanoseconds.
pub const TASK_TIME: u64 = 100_000_000;

/// What a worker's wait for a signal comes to.
#[derive(Debug)]
pub enum WorkerEvent {
    Signal(InternalMessage),
    /// The topic is closed or the worker has fallen too far behind.
    ReceiveError,
    /// No signal came in time; `pending` tasks wait in the queue.
    Timeout { pending: usize },
}

/// What a worker does next.
#[derive(Debug, Clone, Copy, PartialEq, Eq, Structural)]
pub enum WorkerAction {
    /// Take up the next task, and then wait for a signal.
    ProcessNext,
    /// Wait for a signal.
    Wait,
    Exit,
}

/// Whether a worker winds down after `event`.
pub open spec fn graceful_after(graceful_stop: bool, event: WorkerEvent) -> bool {
    graceful_stop || event == WorkerEvent::Signal(InternalMessage::GracefulStop)
}

/// What a worker does at `event`. One that winds down takes up no task, and
/// ends when it hears nothing and no task waits.
pub open spec fn action_at(graceful_stop: bool, event: WorkerEvent) -> WorkerAction {
    match event {
        WorkerEvent::Signal(InternalMessage::TaskAdded) => if graceful_stop {
            WorkerAction::Wait
        } else {
            WorkerAction::ProcessNext
        },
        WorkerEvent::Signal(InternalMessage::Stop) => WorkerAction::Exit,
        WorkerEvent::Signal(_) => WorkerAction::Wait,
        WorkerEvent::ReceiveError => WorkerAction::Exit,
        WorkerEvent::Timeout { pending } => if graceful_stop && pending == 0 {
            WorkerAction::Exit
        } else {
            WorkerAction::Wait
        },
    }
}

/// A worker's state.
#[derive(Debug)]
pub struct Worker {
    /// Whether the worker winds down.
    pub graceful_stop: bool,
}

impl Worker {
    pub fn new() -> (worker: Self)
        ensures
            !worker.graceful_stop,
    {
        Worker { graceful_stop: false }
    }

    /// Deals with what the wait for a signal came to.
    pub fn on_event(&mut self, event: WorkerEvent) -> (action: WorkerAction)
        ensures
            final(self).graceful_stop == graceful_after(old(self).graceful_stop, event),
            action == action_at(old(self).graceful_stop, event),
    {
        match event {
            WorkerEvent::Signal(signal) => match signal {
                InternalMessage::TaskAdded => if !self.graceful_stop {
                    WorkerAction::ProcessNext
                } else {
                    WorkerAction::Wait
                },
                InternalMessage::GracefulStop => {
                    self.graceful_stop = true;
                    WorkerAction::Wait
                },
                InternalMessage::Stop => WorkerAction::Exit,
                _ => WorkerAction::Wait,
            },
            WorkerEvent::ReceiveError => WorkerAction::Exit,
            WorkerEvent::Timeout { pending } => {
                if self.graceful_stop {
                    if pending == 0 {
                        return WorkerAction::Exit;
                    }
                }
                WorkerAction::Wait
            },
        }
    }
}

impl Default for Worker {
    fn default() -> (worker: Self)
        ensures
            !worker.graceful_stop,
    {
        Worker::new()
    }
}

/// One active task more; the count wraps.
pub open spec fn one_more(count: usize) -> usize {
    if count == usize::MAX {
        0
    } else {
        (count + 1) as usize
    }
}

/// One active task less; the count wraps.
pub open spec fn one_less(count: usize) -> usize {
    if count == 0 {
        usize::MAX
    } else {
        (count - 1) as usize
    }
}

/// Takes the task that has waited longest and counts it as active.
pub fn start_next(queue: &mut VecDeque<Task>, active_tasks: &mut usize) -> (started: Result<
    Task,
    Error,
>)
    ensures
        match started {
            Ok(task) => {
                &&& old(queue)@.len() > 0
                &&& task == old(queue)@[0]
                &&& final(queue)@ == old(queue)@.subrange(1, old(queue)@.len() as int)
                &&& *final(active_tasks) == one_more(*old(active_tasks))
            },
            Err(error) => {
                &&& old(queue)@.len() == 0
                &&& error is QueueEmptyError
                &&& final(queue)@ == old(queue)@
                &&& *final(active_tasks) == *old(active_tasks)
            },
        },
{
    match queue.pop_front() {
        Some(task) => {
            *active_tasks = active_tasks.wrapping_add(1);
            Ok(task)
        },
        None => Err(Error::QueueEmptyError),
    }
}

/// Counts a task as done and says what its owner is told.
pub fn complete(active_tasks: &mut usize, task: &Task) -> (response: ResponseSignal)
    ensures
        *final(active_tasks) == one_less(*old(active_tasks)),
        response matches ResponseSignal::Success(text) && text@ == "Task "@ + hyphenated_text(
            task.id,
        ) + " completed"@,
{
    *active_tasks = active_tasks.wrapping_sub(1);
    ResponseSignal::Success(
        "Task ".to_string().concat(id_text(task.id).as_str()).concat(" completed"),
    )
}

/// Whether a worker winds down after `events`.
pub open spec fn winds_down(events: Seq<WorkerEvent>) -> bool
    decreases events.len(),
{
    if events.len() == 0 {
        false
    } else {
        graceful_after(winds_down(events.drop_last()), events.last())
    }
}

/// Once a worker has been told to wind down it takes up no task, whatever it
/// hears.
pub proof fn law_no_task_after_graceful_stop(
    events: Seq<WorkerEvent>,
    i: int,
    event: WorkerEvent,
)
    requires
        0 <= i < events.len(),
        events[i] == WorkerEvent::Signal(InternalMessage::GracefulStop),
    ensures
        winds_down(events),
        action_at(winds_down(events), event) != WorkerAction::ProcessNext,
    decreases events.len(),
{
    if i < events.len() - 1 {
        law_no_task_after_graceful_stop(events.drop_last(), i, event);
    }
}

/// A worker takes up a task at every `TaskAdded` until it is told to wind down.
pub proof fn law_task_added_is_heard(events: Seq<WorkerEvent>)
    requires
        forall|i: int|
            0 <= i < events.len() ==> #[trigger] events[i] != WorkerEvent::Signal(
                InternalMessage::GracefulStop,
            ),
    ensures
        action_at(winds_down(events), WorkerEvent::Signal(InternalMessage::TaskAdded))
            == WorkerAction::ProcessNext,
    decreases events.len(),
{
    if events.len() > 0 {
        law_task_added_is_heard(events.drop_last());
        assert(events.last() == events[events.len() - 1]);
    }
}

/// `Stop` ends a worker, whatever it has heard before.
pub proof fn law_stop_ends_a_worker(events: Seq<WorkerEvent>)
    ensures
        action_at(winds_down(events), WorkerEvent::Signal(InternalMessage::Stop))
            == WorkerAction::Exit,
{
}

/// A task that has been started and completed is no longer counted.
pub proof fn law_completed_task_is_not_counted(count: usize)
    ensures
        one_less(one_more(count)) == count,
{
}

/// The queue once `n` tasks have been started.
pub open spec fn queue_without(queue: Seq<Task>, n: nat) -> Seq<Task>
    decreases n,
{
    if n == 0 {
        queue
    } else {
        let before = queue_without(queue, (n - 1) as nat);
        before.subrange(1, before.len() as int)
    }
}

/// Tasks are started in the order in which they wait.
pub proof fn law_tasks_start_in_order(queue: Seq<Task>, n: nat)
    requires
        n < queue.len(),
    ensures
        queue_without(queue, n)[0] == queue[n as int],
        queue_without(queue, n).len() == queue.len() - n,
{
    lemma_queue_without(queue, n);
}

proof fn lemma_queue_without(queue: Seq<Task>, n: nat)
    requires
        n <= queue.len(),
    ensures
        queue_without(queue, n) == queue.skip(n as int),
    decreases n,
{
    if n == 0 {
        assert(queue.skip(0) =~= queue);
    } else {
        lemma_queue_without(queue, (n - 1) as nat);
        let before = queue.skip(n - 1);
        assert(before.subrange(1, before.len() as int) =~= queue.skip(n as int));
    }
}

} // verus!
