//! How the dispatcher winds down: no new tasks, a wait for the ones under
//! way, and then the end of connections and workers.

use vstd::prelude::*;

use crate::actor::dispatcher::{HANDLE_WAIT, MAX_WAIT_TIME};

verus! {

/// Whether to wait on for tasks: some wait or are being worked on, and the
/// time for that is not over. Times are in nanoseconds.
pub open spec fn waits_for_tasks(elapsed: u128, active: usize, pending: usize) -> bool {
    (active > 0 || pending > 0) && elapsed <= MAX_WAIT_TIME
}

/// Whether to wait on for tasks.
pub fn poll_tasks(elapsed: u128, active: usize, pending: usize) -> (waits: bool)
    ensures
        waits == waits_for_tasks(elapsed, active, pending),
{
    if active == 0 && pending == 0 {
        return false;
    }
    if elapsed > MAX_WAIT_TIME as u128 {
        return false;
    }
    true
}

/// What to do about things under way that are to end.
#[derive(Debug, Clone, Copy, PartialEq, Eq, Structural)]
pub enum HandlesAction {
    /// None is left.
    Done,
    /// End those that are left.
    Abort,
    /// Wait a moment for one to end, then look again.
    JoinNext,
}

/// What to do about workers or connections that are to end: wait until none is
/// left or the time for that is over.
pub open spec fn handles_action(elapsed: u128, none_left: bool) -> HandlesAction {
    if none_left {
        HandlesAction::Done
    } else if elapsed > HANDLE_WAIT {
        HandlesAction::Abort
    } else {
        HandlesAction::JoinNext
    }
}

/// What to do about workers or connections that are to end, after `elapsed`
/// nanoseconds.
pub fn poll_handles(elapsed: u128, none_left: bool) -> (action: HandlesAction)
    ensures
        action == handles_action(elapsed, none_left),
{
    if none_left {
        return HandlesAction::Done;
    }
    if elapsed > HANDLE_WAIT as u128 {
        return HandlesAction::Abort;
    }
    HandlesAction::JoinNext
}

/// How far a shutdown has come.
#[derive(Debug, Clone, Copy, PartialEq, Eq, Structural)]
pub enum Phase {
    /// Nothing has been done.
    Start,
    /// Workers take up no new tasks; those under way may finish.
    Draining,
    /// Workers have been told to stop.
    Connections,
    /// The end of the connections has been waited for.
    Workers,
    Finished,
}

/// How the wait for the next worker to end came out.
#[derive(Debug, Clone, Copy, PartialEq, Eq, Structural)]
pub enum JoinOutcome {
    /// A worker has ended, well or not.
    Joined,
    NoneLeft,
    TimedOut,
}

/// What a shutdown learns.
#[derive(Debug, Clone, Copy, PartialEq, Eq, Structural)]
pub enum Event {
    /// What it asked for has been done.
    Proceed,
    /// How many tasks there are, and how long it has waited for them.
    Tasks { elapsed: u128, active: usize, pending: usize },
    /// Whether any worker is left, and how long it has waited for them.
    Workers { elapsed: u128, none_left: bool },
    Join(JoinOutcome),
}

/// What a shutdown asks for.
#[derive(Debug, Clone, Copy, PartialEq, Eq, Structural)]
pub enum Action {
    /// Tell all actors to wind down, then look at the tasks.
    BroadcastGracefulStop,
    /// Pause, then look at the tasks again.
    Wait,
    /// Signal that there is a task, pause, then look at the tasks again.
    Wake,
    /// Tell all actors to stop.
    BroadcastStop,
    /// Wait for the connections to end, but not for long.
    AwaitConnections,
    /// Look whether any worker is left.
    CheckWorkers,
    /// Wait a moment for a worker to end.
    JoinNext,
    /// End all workers that are left.
    AbortWorkers,
    /// Nothing is left to do.
    Finish,
    /// The event does not belong here.
    Ignore,
}

/// What a shutdown does at `event`.
pub open spec fn step(phase: Phase, event: Event) -> (Phase, Action) {
    match (phase, event) {
        (Phase::Start, Event::Proceed) => (Phase::Draining, Action::BroadcastGracefulStop),
        (Phase::Draining, Event::Tasks { elapsed, active, pending }) => if !waits_for_tasks(
            elapsed,
            active,
            pending,
        ) {
            (Phase::Connections, Action::BroadcastStop)
        } else if pending > 0 && active == 0 {
            (Phase::Draining, Action::Wake)
        } else {
            (Phase::Draining, Action::Wait)
        },
        (Phase::Connections, Event::Proceed) => (Phase::Workers, Action::AwaitConnections),
        (Phase::Workers, Event::Workers { elapsed, none_left }) => match handles_action(
            elapsed,
            none_left,
        ) {
            HandlesAction::Done => (Phase::Finished, Action::Finish),
            HandlesAction::Abort => (Phase::Finished, Action::AbortWorkers),
            HandlesAction::JoinNext => (Phase::Workers, Action::JoinNext),
        },
        (Phase::Workers, Event::Join(JoinOutcome::NoneLeft)) => (Phase::Finished, Action::Finish),
        (Phase::Workers, Event::Join(_)) => (Phase::Workers, Action::CheckWorkers),
        _ => (phase, Action::Ignore),
    }
}

/// A shutdown under way.
#[derive(Debug)]
pub struct Shutdown {
    pub phase: Phase,
}

impl Shutdown {
    pub fn new() -> (shutdown: Self)
        ensures
            shutdown.phase == Phase::Start,
    {
        Shutdown { phase: Phase::Start }
    }

    /// Deals with `event` and says what to do.
    pub fn on_event(&mut self, event: Event) -> (action: Action)
        ensures
            (final(self).phase, action) == step(old(self).phase, event),
    {
        match (self.phase, event) {
            (Phase::Start, Event::Proceed) => {
                self.phase = Phase::Draining;
                Action::BroadcastGracefulStop
            },
            (Phase::Draining, Event::Tasks { elapsed, active, pending }) => {
                if !poll_tasks(elapsed, active, pending) {
                    self.phase = Phase::Connections;
                    return Action::BroadcastStop;
                }
                if pending > 0 && active == 0 {
                    Action::Wake
                } else {
                    Action::Wait
                }
            },
            (Phase::Connections, Event::Proceed) => {
                self.phase = Phase::Workers;
                Action::AwaitConnections
            },
            (Phase::Workers, Event::Workers { elapsed, none_left }) => {
                match poll_handles(elapsed, none_left) {
                    HandlesAction::Done => {
                        self.phase = Phase::Finished;
                        Action::Finish
                    },
                    HandlesAction::Abort => {
                        self.phase = Phase::Finished;
                        Action::AbortWorkers
                    },
                    HandlesAction::JoinNext => Action::JoinNext,
                }
            },
            (Phase::Workers, Event::Join(outcome)) => match outcome {
                JoinOutcome::NoneLeft => {
                    self.phase = Phase::Finished;
                    Action::Finish
                },
                _ => Action::CheckWorkers,
            },
            _ => Action::Ignore,
        }
    }
}

impl Default for Shutdown {
    fn default() -> (shutdown: Self)
        ensures
            shutdown.phase == Phase::Start,
    {
        Shutdown::new()
    }
}

/// How far a shutdown has come after `events`.
pub open spec fn phase_after(events: Seq<Event>) -> Phase
    decreases events.len(),
{
    if events.len() == 0 {
        Phase::Start
    } else {
        step(phase_after(events.drop_last()), events.last()).0
    }
}

/// What a shutdown did at the event `i`.
pub open spec fn action_of(events: Seq<Event>, i: int) -> Action {
    step(phase_after(events.take(i)), events[i]).1
}

/// Workers are told to stop only when no task is left or the wait for tasks
/// has taken its time, and only after they were told to wind down.
pub proof fn law_stop_comes_after_the_wait(events: Seq<Event>, i: int)
    requires
        0 <= i < events.len(),
        action_of(events, i) == Action::BroadcastStop,
    ensures
        events[i] matches Event::Tasks { elapsed, active, pending } && (active == 0 && pending == 0
            || elapsed > MAX_WAIT_TIME),
        exists|j: int|
            0 <= j < i && #[trigger] action_of(events, j) == Action::BroadcastGracefulStop,
{
    lemma_draining_was_announced(events, i);
}

proof fn lemma_draining_was_announced(events: Seq<Event>, n: int)
    requires
        0 <= n <= events.len(),
        phase_after(events.take(n)) != Phase::Start,
    ensures
        exists|j: int|
            0 <= j < n && #[trigger] action_of(events, j) == Action::BroadcastGracefulStop,
    decreases n,
{
    if n > 0 {
        assert(events.take(n).drop_last() =~= events.take(n - 1));
        assert(events.take(n).last() == events[n - 1]);
        if phase_after(events.take(n - 1)) == Phase::Start {
            assert(action_of(events, n - 1) == Action::BroadcastGracefulStop);
        } else {
            lemma_draining_was_announced(events, n - 1);
        }
    }
}

/// No shutdown finishes without having told the workers to stop.
pub proof fn law_finish_comes_after_stop(events: Seq<Event>)
    requires
        phase_after(events) == Phase::Finished,
    ensures
        exists|j: int| 0 <= j < events.len() && #[trigger] action_of(events, j)
            == Action::BroadcastStop,
{
    assert(events.take(events.len() as int) =~= events);
    lemma_stop_was_sent(events, events.len() as int);
}

proof fn lemma_stop_was_sent(events: Seq<Event>, n: int)
    requires
        0 <= n <= events.len(),
        phase_after(events.take(n)) != Phase::Start,
        phase_after(events.take(n)) != Phase::Draining,
    ensures
        exists|j: int| 0 <= j < n && #[trigger] action_of(events, j) == Action::BroadcastStop,
    decreases n,
{
    if n > 0 {
        assert(events.take(n).drop_last() =~= events.take(n - 1));
        assert(events.take(n).last() == events[n - 1]);
        if phase_after(events.take(n - 1)) == Phase::Draining {
            assert(action_of(events, n - 1) == Action::BroadcastStop);
        } else {
            lemma_stop_was_sent(events, n - 1);
        }
    }
}

/// The wait for tasks ends when its time is over, and the wait for workers
/// too: then the workers that are left are ended.
pub proof fn law_waits_end(elapsed: u128, active: usize, pending: usize)
    ensures
        elapsed > MAX_WAIT_TIME ==> step(
            Phase::Draining,
            Event::Tasks { elapsed, active, pending },
        ) == (Phase::Connections, Action::BroadcastStop),
        elapsed > HANDLE_WAIT ==> step(
            Phase::Workers,
            Event::Workers { elapsed, none_left: false },
        ) == (Phase::Finished, Action::AbortWorkers),
{
}

} // verus!
