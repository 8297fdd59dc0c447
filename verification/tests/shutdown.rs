use building_game::actor::dispatcher::{CONCURRENT_TASKS, HANDLE_WAIT, MAX_WAIT_TIME, POLL_PAUSE};
use building_game::actor::shutdown::{
    poll_handles, poll_tasks, Action, Event, HandlesAction, JoinOutcome, Phase, Shutdown,
};

const SECOND: u128 = 1_000_000_000;

fn tasks(elapsed: u128, active: usize, pending: usize) -> Event {
    Event::Tasks {
        elapsed,
        active,
        pending,
    }
}

#[test]
fn tasks_are_waited_for_but_not_for_ever() {
    assert!(!poll_tasks(0, 0, 0));
    assert!(poll_tasks(0, 1, 0));
    assert!(poll_tasks(0, 0, 1));
    assert!(poll_tasks(10 * SECOND, 1, 0));
    assert!(!poll_tasks(10 * SECOND + 1, 1, 1));
}

#[test]
fn handles_are_waited_for_but_not_for_ever() {
    assert_eq!(poll_handles(0, true), HandlesAction::Done);
    assert_eq!(poll_handles(9 * SECOND, true), HandlesAction::Done);
    assert_eq!(poll_handles(5 * SECOND, false), HandlesAction::JoinNext);
    assert_eq!(poll_handles(5 * SECOND + 1, false), HandlesAction::Abort);
}

#[test]
fn a_shutdown_goes_through_its_phases() {
    let mut shutdown = Shutdown::new();
    assert_eq!(
        shutdown.on_event(Event::Proceed),
        Action::BroadcastGracefulStop
    );
    assert_eq!(shutdown.on_event(tasks(0, 2, 1)), Action::Wait);
    assert_eq!(shutdown.on_event(tasks(SECOND, 0, 1)), Action::Wake);
    assert_eq!(
        shutdown.on_event(tasks(2 * SECOND, 0, 0)),
        Action::BroadcastStop
    );
    assert_eq!(shutdown.on_event(Event::Proceed), Action::AwaitConnections);
    let some_left = Event::Workers {
        elapsed: 0,
        none_left: false,
    };
    assert_eq!(shutdown.on_event(some_left), Action::JoinNext);
    assert_eq!(
        shutdown.on_event(Event::Join(JoinOutcome::Joined)),
        Action::CheckWorkers
    );
    assert_eq!(shutdown.on_event(some_left), Action::JoinNext);
    assert_eq!(
        shutdown.on_event(Event::Join(JoinOutcome::TimedOut)),
        Action::CheckWorkers
    );
    assert_eq!(
        shutdown.on_event(Event::Workers {
            elapsed: SECOND,
            none_left: true
        }),
        Action::Finish
    );
    assert_eq!(shutdown.phase, Phase::Finished);
}

#[test]
fn a_shutdown_ends_what_does_not_end() {
    let mut shutdown = Shutdown::default();
    shutdown.on_event(Event::Proceed);
    assert_eq!(
        shutdown.on_event(tasks(11 * SECOND, 3, 9)),
        Action::BroadcastStop
    );
    shutdown.on_event(Event::Proceed);
    assert_eq!(
        shutdown.on_event(Event::Workers {
            elapsed: 6 * SECOND,
            none_left: false
        }),
        Action::AbortWorkers
    );
    assert_eq!(shutdown.phase, Phase::Finished);
}

#[test]
fn a_shutdown_finishes_when_no_worker_is_left_to_join() {
    let mut shutdown = Shutdown {
        phase: Phase::Workers,
    };
    assert_eq!(
        shutdown.on_event(Event::Join(JoinOutcome::NoneLeft)),
        Action::Finish
    );
    assert_eq!(shutdown.phase, Phase::Finished);
}

#[test]
fn what_does_not_belong_is_ignored() {
    let mut shutdown = Shutdown::new();
    assert_eq!(shutdown.on_event(tasks(0, 0, 0)), Action::Ignore);
    assert_eq!(shutdown.phase, Phase::Start);
    let mut finished = Shutdown {
        phase: Phase::Finished,
    };
    assert_eq!(finished.on_event(Event::Proceed), Action::Ignore);
}

#[test]
fn waiting_times_are_in_nanoseconds() {
    assert_eq!(MAX_WAIT_TIME, 10_000_000_000);
    assert_eq!(HANDLE_WAIT, 5_000_000_000);
    assert_eq!(POLL_PAUSE, 100_000_000);
    assert_eq!(CONCURRENT_TASKS, 10);
}
