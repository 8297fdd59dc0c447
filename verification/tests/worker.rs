use std::collections::VecDeque;

use building_game::actor::error::Error;
use building_game::actor::model::{InternalMessage, ResponseSignal, Task, TaskKind};
use building_game::actor::worker::{
    complete, start_next, Worker, WorkerAction, WorkerEvent, SIGNAL_WAIT, TASK_TIME,
};
use tokio::sync::mpsc;
use uuid::Uuid;

fn task(id: u128) -> Task {
    let (tx, _rx) = mpsc::channel(1);
    Task {
        id,
        request_id: "test_request".to_string(),
        kind: TaskKind::Build("test_item".to_string()),
        respond_to: tx,
    }
}

/// Takes up the next task and completes it.
fn process_next(queue: &mut VecDeque<Task>, active_tasks: &mut usize) -> Result<(), Error> {
    let task = start_next(queue, active_tasks)?;
    let response = complete(active_tasks, &task);
    let _ = task.respond_to.try_send(response);
    Ok(())
}

#[test]
fn test_process_next_success() {
    let mut queue: VecDeque<Task> = VecDeque::new();
    let mut active_tasks = 0;
    queue.push_back(task(Uuid::new_v4().as_u128()));

    let res = process_next(&mut queue, &mut active_tasks);

    assert_eq!(active_tasks, 0);
    assert!(res.is_ok());
    assert!(queue.is_empty());
}

#[test]
fn test_process_next_queue_empty() {
    let mut queue: VecDeque<Task> = VecDeque::new();
    let mut active_tasks = 0;

    let res = process_next(&mut queue, &mut active_tasks);

    assert_eq!(active_tasks, 0);
    assert!(res.is_err());
    assert!(matches!(res, Err(Error::QueueEmptyError)));
    assert!(queue.is_empty());
}

#[test]
fn a_started_task_is_counted_until_it_is_complete() {
    let mut queue: VecDeque<Task> = VecDeque::new();
    queue.push_back(task(0xff));
    queue.push_back(task(2));
    let mut active_tasks = 4;
    let started = start_next(&mut queue, &mut active_tasks).unwrap();
    assert_eq!(started.id, 0xff);
    assert_eq!(active_tasks, 5);
    assert_eq!(queue.len(), 1);
    let response = complete(&mut active_tasks, &started);
    assert_eq!(active_tasks, 4);
    assert!(matches!(
        response,
        ResponseSignal::Success(text)
            if text == "Task 00000000-0000-0000-0000-0000000000ff completed"
    ));
}

#[test]
fn the_owner_is_told() {
    let (tx, mut rx) = mpsc::channel(1);
    let id = Uuid::new_v4();
    let mut queue: VecDeque<Task> = VecDeque::new();
    queue.push_back(Task {
        respond_to: tx,
        ..task(id.as_u128())
    });
    process_next(&mut queue, &mut 0).unwrap();
    assert_eq!(
        rx.try_recv().unwrap().text(),
        format!("Success: Task {id} completed")
    );
}

#[test]
fn counts_wrap() {
    let mut active_tasks = usize::MAX;
    let mut queue: VecDeque<Task> = VecDeque::new();
    queue.push_back(task(1));
    let started = start_next(&mut queue, &mut active_tasks).unwrap();
    assert_eq!(active_tasks, 0);
    complete(&mut active_tasks, &started);
    assert_eq!(active_tasks, usize::MAX);
}

#[test]
fn a_worker_takes_up_tasks_until_it_winds_down() {
    let mut worker = Worker::new();
    let added = || WorkerEvent::Signal(InternalMessage::TaskAdded);
    assert_eq!(worker.on_event(added()), WorkerAction::ProcessNext);
    assert_eq!(
        worker.on_event(WorkerEvent::Timeout { pending: 0 }),
        WorkerAction::Wait
    );
    assert_eq!(worker.on_event(added()), WorkerAction::ProcessNext);
    assert_eq!(
        worker.on_event(WorkerEvent::Signal(InternalMessage::GracefulStop)),
        WorkerAction::Wait
    );
    assert!(worker.graceful_stop);
    assert_eq!(worker.on_event(added()), WorkerAction::Wait);
    assert_eq!(
        worker.on_event(WorkerEvent::Timeout { pending: 1 }),
        WorkerAction::Wait
    );
    assert_eq!(
        worker.on_event(WorkerEvent::Timeout { pending: 0 }),
        WorkerAction::Exit
    );
}

#[test]
fn a_worker_ends_at_stop_and_when_it_cannot_hear() {
    let mut worker = Worker::default();
    assert_eq!(
        worker.on_event(WorkerEvent::Signal(InternalMessage::InventoryReleaseRequest(1))),
        WorkerAction::Wait
    );
    assert_eq!(
        worker.on_event(WorkerEvent::Signal(InternalMessage::Stop)),
        WorkerAction::Exit
    );
    assert_eq!(
        worker.on_event(WorkerEvent::ReceiveError),
        WorkerAction::Exit
    );
}

#[test]
fn times_are_in_nanoseconds() {
    assert_eq!(SIGNAL_WAIT, 1_000_000_000);
    assert_eq!(TASK_TIME, 100_000_000);
}
