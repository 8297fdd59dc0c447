//! What a worker does.

use std::collections::VecDeque;

use vstd::prelude::*;

use crate::actor::error::Error;
use crate::actor::model::{InternalMessage, ResponseSignal, Task};
use crate::actor::worker::{
    complete, start_next, Worker, WorkerAction, WorkerEvent, SIGNAL_WAIT, TASK_TIME,
};
use crate::ids::hyphenated_text;

verus! {

/// A worker takes up a task when told that there is one, unless it winds down.
pub proof fn law_task_added_starts_a_task(worker: &mut Worker, action: WorkerAction)
    requires
        call_ensures(
            Worker::on_event,
            (worker, WorkerEvent::Signal(InternalMessage::TaskAdded)),
            action,
        ),
    ensures
        !old(worker).graceful_stop ==> action == WorkerAction::ProcessNext,
        old(worker).graceful_stop ==> action == WorkerAction::Wait,
        final(worker).graceful_stop == old(worker).graceful_stop,
{
}

/// Told to wind down, a worker does, and waits for what comes.
pub proof fn law_graceful_stop_is_remembered(worker: &mut Worker, action: WorkerAction)
    requires
        call_ensures(
            Worker::on_event,
            (worker, WorkerEvent::Signal(InternalMessage::GracefulStop)),
            action,
        ),
    ensures
        action == WorkerAction::Wait,
        final(worker).graceful_stop,
{
}

/// Told to stop, or deaf, a worker ends.
pub proof fn law_stop_and_deafness_end_a_worker(
    worker: &mut Worker,
    event: WorkerEvent,
    action: WorkerAction,
)
    requires
        call_ensures(Worker::on_event, (worker, event), action),
        event is ReceiveError || event == WorkerEvent::Signal(InternalMessage::Stop),
    ensures
        action == WorkerAction::Exit,
{
}

/// Where nothing is heard a worker waits on, but one that winds down ends as
/// soon as no task waits.
pub proof fn law_silence_ends_only_who_winds_down(
    worker: &mut Worker,
    pending: usize,
    action: WorkerAction,
)
    requires
        call_ensures(Worker::on_event, (worker, WorkerEvent::Timeout { pending }), action),
    ensures
        !old(worker).graceful_stop ==> action == WorkerAction::Wait,
        old(worker).graceful_stop && pending > 0 ==> action == WorkerAction::Wait,
        old(worker).graceful_stop && pending == 0 ==> action == WorkerAction::Exit,
        final(worker).graceful_stop == old(worker).graceful_stop,
{
}

/// What is said to others a worker passes over.
pub proof fn law_worker_passes_over(
    worker: &mut Worker,
    message: InternalMessage,
    action: WorkerAction,
)
    requires
        call_ensures(Worker::on_event, (worker, WorkerEvent::Signal(message)), action),
        !(message is TaskAdded),
        !(message is GracefulStop),
        !(message is Stop),
    ensures
        action == WorkerAction::Wait,
        final(worker).graceful_stop == old(worker).graceful_stop,
{
}

/// A new worker does not wind down.
pub proof fn law_new_worker_is_ready(worker: Worker)
    requires
        call_ensures(Worker::new, (), worker),
    ensures
        !worker.graceful_stop,
{
}

/// The task that has waited longest is started and counted; the others wait on
/// in their order.
pub proof fn law_longest_waiting_task_starts(
    queue: &mut VecDeque<Task>,
    active: &mut usize,
    started: Result<Task, Error>,
)
    requires
        call_ensures(start_next, (queue, active), started),
        old(queue)@.len() > 0,
    ensures
        started is Ok,
        started->Ok_0 == old(queue)@[0],
        final(queue)@.len() == old(queue)@.len() - 1,
        forall|i: int|
            0 <= i < final(queue)@.len() ==> #[trigger] final(queue)@[i] == old(queue)@[i + 1],
        *old(active) < usize::MAX ==> *final(active) == *old(active) + 1,
        *old(active) == usize::MAX ==> *final(active) == 0,
{
}

/// Without a waiting task none is started or counted.
pub proof fn law_empty_queue_starts_nothing(
    queue: &mut VecDeque<Task>,
    active: &mut usize,
    started: Result<Task, Error>,
)
    requires
        call_ensures(start_next, (queue, active), started),
        old(queue)@.len() == 0,
    ensures
        started == Err::<Task, Error>(Error::QueueEmptyError),
        final(queue)@.len() == 0,
        *final(active) == *old(active),
{
}

/// Once a task is complete it is no longer counted, and its owner is told which
/// one it was.
pub proof fn law_completion_is_told(
    active: &mut usize,
    task: Task,
    response: ResponseSignal,
)
    requires
        call_ensures(complete, (active, &task), response),
    ensures
        *old(active) > 0 ==> *final(active) == *old(active) - 1,
        *old(active) == 0 ==> *final(active) == usize::MAX,
        response matches ResponseSignal::Success(text) && text@ == "Task "@ + hyphenated_text(
            task.id,
        ) + " completed"@,
{
}

/// Starting a task and completing it leaves the count of active tasks as it was.
pub proof fn law_started_and_completed_counts_nothing(
    queue: &mut VecDeque<Task>,
    active: &mut usize,
    started: Result<Task, Error>,
    later: &mut usize,
    response: ResponseSignal,
)
    requires
        call_ensures(start_next, (queue, active), started),
        started is Ok,
        *old(later) == *final(active),
        call_ensures(complete, (later, &started->Ok_0), response),
    ensures
        *final(later) == *old(active),
{
}

/// How long a worker waits for a signal and how long a task takes, in
/// nanoseconds.
pub proof fn law_working_times()
    ensures
        SIGNAL_WAIT == 1_000 * 1_000_000,
        TASK_TIME == 100 * 1_000_000,
{
}

} // verus!
