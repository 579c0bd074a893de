use vstd::prelude::*;

use crate::clock::ActivityClock;

verus! {

/// Seconds of inactivity after which the server shuts down.
pub const IDLE_LIMIT_SECS: u64 = 60;

/// Seconds between two polls of the watchdog.
pub const POLL_INTERVAL_SECS: u64 = 1;

/// The watchdog's state; `ShuttingDown` is terminal.
#[derive(Debug, Clone, Copy, PartialEq, Eq, Structural)]
pub enum WatchState {
    Running,
    ShuttingDown,
}

/// What the loop that drives the watchdog does next.
#[derive(Debug, Clone, Copy, PartialEq, Eq, Structural)]
pub enum WatchAction {
    /// Sleep for this many seconds, then poll again.
    Wait(u64),
    /// Cancel the serving task and end the loop.
    Shutdown,
}

/// The next state after a poll that saw `elapsed` idle seconds and whether
/// the serving task has already ended.
pub open spec fn next_state(state: WatchState, elapsed: u64, server_finished: bool) -> WatchState {
    match state {
        WatchState::Running => if elapsed >= IDLE_LIMIT_SECS || server_finished {
            WatchState::ShuttingDown
        } else {
            WatchState::Running
        },
        WatchState::ShuttingDown => WatchState::ShuttingDown,
    }
}

/// The action that goes with a state reached by a poll.
pub open spec fn action_for(state: WatchState) -> WatchAction {
    match state {
        WatchState::Running => WatchAction::Wait(POLL_INTERVAL_SECS),
        WatchState::ShuttingDown => WatchAction::Shutdown,
    }
}

/// The periodic check that decides when the idle limit has been reached.
#[derive(Debug, Clone, Copy, PartialEq, Eq, Structural)]
pub struct IdleWatchdog {
    pub state: WatchState,
}

impl IdleWatchdog {
    /// A watchdog in its initial state.
    pub fn new() -> (r: IdleWatchdog)
        ensures
            r.state == WatchState::Running,
    {
        IdleWatchdog { state: WatchState::Running }
    }

    /// Whether the watchdog is still running.
    pub fn is_running(&self) -> (r: bool)
        ensures
            r == (self.state == WatchState::Running),
    {
        match self.state {
            WatchState::Running => true,
            WatchState::ShuttingDown => false,
        }
    }

    /// One poll: compares the idle time with the limit and notes whether the
    /// serving task has ended; returns what the driving loop does next.
    pub fn poll(&mut self, elapsed: u64, server_finished: bool) -> (r: WatchAction)
        ensures
            final(self).state == next_state(old(self).state, elapsed, server_finished),
            r == action_for(final(self).state),
    {
        let next = match self.state {
            WatchState::Running => if elapsed >= IDLE_LIMIT_SECS || server_finished {
                WatchState::ShuttingDown
            } else {
                WatchState::Running
            },
            WatchState::ShuttingDown => WatchState::ShuttingDown,
        };
        self.state = next;
        match next {
            WatchState::Running => WatchAction::Wait(POLL_INTERVAL_SECS),
            WatchState::ShuttingDown => WatchAction::Shutdown,
        }
    }
}

/// Once no touch has come for the idle limit, the next poll of a running
/// watchdog shuts the server down, whether or not the serving task is alive;
/// and the shutdown is never undone by later polls, touches included.
pub proof fn lemma_idle_clock_stops_server(
    c: ActivityClock,
    now: u64,
    server_finished: bool,
    later_elapsed: u64,
    later_finished: bool,
)
    requires
        c.elapsed_spec(now) >= IDLE_LIMIT_SECS,
    ensures
        next_state(WatchState::Running, c.elapsed_spec(now), server_finished)
            == WatchState::ShuttingDown,
        action_for(next_state(WatchState::Running, c.elapsed_spec(now), server_finished))
            == WatchAction::Shutdown,
        next_state(WatchState::ShuttingDown, later_elapsed, later_finished)
            == WatchState::ShuttingDown,
{
}

/// While the serving task is alive and the idle time stays under the limit,
/// a running watchdog keeps running and waits one interval.
pub proof fn lemma_activity_keeps_running(c: ActivityClock, now: u64)
    requires
        c.elapsed_spec(now) < IDLE_LIMIT_SECS,
    ensures
        next_state(WatchState::Running, c.elapsed_spec(now), false) == WatchState::Running,
        action_for(WatchState::Running) == WatchAction::Wait(POLL_INTERVAL_SECS),
{
}

} // verus!
