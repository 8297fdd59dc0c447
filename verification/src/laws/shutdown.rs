//! How a shutdown goes on.

use vstd::prelude::*;

use crate::actor::dispatcher::{CONCURRENT_TASKS, HANDLE_WAIT, MAX_WAIT_TIME, POLL_PAUSE};
use crate::actor::shutdown::{
    action_of, phase_after, poll_handles, poll_tasks, Action, Event, HandlesAction,
    JoinOutcome, Phase, Shutdown,
};

verus! {

/// Tasks are waited for as long as there are any and ten seconds are not over.
pub proof fn law_tasks_get_ten_seconds(elapsed: u128, active: usize, pending: usize, waits: bool)
    requires
        call_ensures(poll_tasks, (elapsed, active, pending), waits),
    ensures
        active == 0 && pending == 0 ==> !waits,
        elapsed > 10_000_000_000 ==> !waits,
        active > 0 && elapsed <= 10_000_000_000 ==> waits,
        pending > 0 && elapsed <= 10_000_000_000 ==> waits,
{
}

/// What is to end gets five seconds, and is then ended.
pub proof fn law_handles_get_five_seconds(elapsed: u128, none_left: bool, action: HandlesAction)
    requires
        call_ensures(poll_handles, (elapsed, none_left), action),
    ensures
        none_left ==> action == HandlesAction::Done,
        !none_left && elapsed <= 5_000_000_000 ==> action == HandlesAction::JoinNext,
        !none_left && elapsed > 5_000_000_000 ==> action == HandlesAction::Abort,
{
}

/// While tasks are waited for, a signal goes out whenever some wait and none is
/// being worked on; while one is being worked on there is none.
pub proof fn law_waiting_tasks_wake_idle_workers(
    shutdown: &mut Shutdown,
    elapsed: u128,
    active: usize,
    pending: usize,
    action: Action,
)
    requires
        call_ensures(
            Shutdown::on_event,
            (shutdown, Event::Tasks { elapsed, active, pending }),
            action,
        ),
        old(shutdown).phase == Phase::Draining,
    ensures
        elapsed <= 10_000_000_000 && active == 0 && pending > 0 ==> action == Action::Wake
            && final(shutdown).phase == Phase::Draining,
        elapsed <= 10_000_000_000 && active > 0 ==> action == Action::Wait
            && final(shutdown).phase == Phase::Draining,
        active == 0 && pending == 0 ==> action == Action::BroadcastStop && final(shutdown).phase
            == Phase::Connections,
        elapsed > 10_000_000_000 ==> action == Action::BroadcastStop && final(shutdown).phase
            == Phase::Connections,
{
}

/// A shutdown begins with the word to wind down, and after the word to stop it
/// waits for the connections before it looks at the workers.
pub proof fn law_shutdown_goes_in_order(shutdown: &mut Shutdown, action: Action)
    requires
        call_ensures(Shutdown::on_event, (shutdown, Event::Proceed), action),
    ensures
        old(shutdown).phase == Phase::Start ==> action == Action::BroadcastGracefulStop
            && final(shutdown).phase == Phase::Draining,
        old(shutdown).phase == Phase::Connections ==> action == Action::AwaitConnections
            && final(shutdown).phase == Phase::Workers,
        old(shutdown).phase == Phase::Draining ==> action == Action::Ignore
            && final(shutdown).phase == Phase::Draining,
        old(shutdown).phase == Phase::Workers ==> action == Action::Ignore
            && final(shutdown).phase == Phase::Workers,
{
}

/// Workers are joined one by one until none is left, or five seconds are over
/// and those that are left are ended.
pub proof fn law_workers_are_joined_or_ended(
    shutdown: &mut Shutdown,
    elapsed: u128,
    none_left: bool,
    action: Action,
)
    requires
        call_ensures(
            Shutdown::on_event,
            (shutdown, Event::Workers { elapsed, none_left }),
            action,
        ),
        old(shutdown).phase == Phase::Workers,
    ensures
        none_left ==> action == Action::Finish && final(shutdown).phase == Phase::Finished,
        !none_left && elapsed <= 5_000_000_000 ==> action == Action::JoinNext
            && final(shutdown).phase == Phase::Workers,
        !none_left && elapsed > 5_000_000_000 ==> action == Action::AbortWorkers
            && final(shutdown).phase == Phase::Finished,
{
}

/// After each attempt to join a worker the shutdown looks again, unless none
/// was left to join.
pub proof fn law_joining_goes_on(shutdown: &mut Shutdown, outcome: JoinOutcome, action: Action)
    requires
        call_ensures(Shutdown::on_event, (shutdown, Event::Join(outcome)), action),
        old(shutdown).phase == Phase::Workers,
    ensures
        outcome == JoinOutcome::NoneLeft ==> action == Action::Finish && final(shutdown).phase
            == Phase::Finished,
        outcome == JoinOutcome::Joined ==> action == Action::CheckWorkers && final(shutdown).phase
            == Phase::Workers,
        outcome == JoinOutcome::TimedOut ==> action == Action::CheckWorkers && final(shutdown).phase
            == Phase::Workers,
{
}

/// What a shutdown did not ask for does not move it, and nothing moves one that
/// has finished.
pub proof fn law_strange_events_are_ignored(
    shutdown: &mut Shutdown,
    event: Event,
    action: Action,
)
    requires
        call_ensures(Shutdown::on_event, (shutdown, event), action),
        old(shutdown).phase == Phase::Finished || (event is Tasks && old(shutdown).phase
            != Phase::Draining) || (event is Workers && old(shutdown).phase != Phase::Workers) || (
        event is Join && old(shutdown).phase != Phase::Workers),
    ensures
        action == Action::Ignore,
        final(shutdown).phase == old(shutdown).phase,
{
}

/// A new shutdown has done nothing.
pub proof fn law_new_shutdown_has_done_nothing(shutdown: Shutdown)
    requires
        call_ensures(Shutdown::new, (), shutdown),
    ensures
        shutdown.phase == Phase::Start,
{
}

/// How far along a phase is.
spec fn rank(phase: Phase) -> int {
    match phase {
        Phase::Start => 0,
        Phase::Draining => 1,
        Phase::Connections => 2,
        Phase::Workers => 3,
        Phase::Finished => 4,
    }
}

proof fn lemma_never_back(events: Seq<Event>, i: int, j: int)
    requires
        0 <= i <= j <= events.len(),
    ensures
        rank(phase_after(events.take(i))) <= rank(phase_after(events.take(j))),
    decreases j,
{
    if i < j {
        lemma_never_back(events, i, j - 1);
        assert(events.take(j).drop_last() =~= events.take(j - 1));
        assert(events.take(j).last() == events[j - 1]);
    }
}

/// The word to stop is given once, and no signal to take up a task follows it.
pub proof fn law_nothing_is_woken_after_stop(events: Seq<Event>, i: int, j: int)
    requires
        0 <= i < j < events.len(),
        action_of(events, i) == Action::BroadcastStop,
    ensures
        action_of(events, j) != Action::Wake,
        action_of(events, j) != Action::BroadcastStop,
        action_of(events, j) != Action::BroadcastGracefulStop,
{
    assert(events.take(i + 1).drop_last() =~= events.take(i));
    assert(events.take(i + 1).last() == events[i]);
    lemma_never_back(events, i + 1, j);
}

/// The waiting times, in nanoseconds, and how many requests are handled at a
/// time.
pub proof fn law_waiting_times()
    ensures
        MAX_WAIT_TIME == 10 * 1_000_000_000,
        HANDLE_WAIT == 5 * 1_000_000_000,
        POLL_PAUSE == 100 * 1_000_000,
        CONCURRENT_TASKS == 10,
{
}

} // verus!
