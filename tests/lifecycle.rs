use decky_file_server::clock::now_secs;
use decky_file_server::watchdog::{IDLE_LIMIT_SECS, POLL_INTERVAL_SECS};
use decky_file_server::{browse_response, ActivityClock, DirectoryUnreadable, IdleWatchdog, WatchAction, WatchState};

#[test]
fn many_touches_leave_idle_near_zero() {
    for t in [1u64, 2, 10, 1000] {
        let mut clock = ActivityClock::starting_at(0);
        for i in 0..t {
            clock.touch_at(500 + i);
        }
        let last = 500 + t - 1;
        assert_eq!(clock.elapsed_at(last), 0);
        assert!(clock.elapsed_at(last + 1) <= POLL_INTERVAL_SECS);
    }
}

#[test]
fn idle_time_grows_without_touches() {
    let clock = ActivityClock::starting_at(1000);
    let mut prev = 0;
    for now in 1000..1100u64 {
        let e = clock.elapsed_at(now);
        assert!(e >= prev);
        assert_eq!(e, now - 1000);
        prev = e;
    }
}

#[test]
fn clock_stepping_back_reads_zero() {
    let clock = ActivityClock::starting_at(1000);
    assert_eq!(clock.elapsed_at(900), 0);
}

#[test]
fn real_clock_touch_resets_idle() {
    let mut clock = ActivityClock::starting_at(0);
    let at = clock.touch();
    assert!(at > 1_500_000_000);
    assert_eq!(clock.last_touch, at);
    assert!(clock.elapsed_since_last_touch() <= 5);
    assert!(now_secs() >= at);
    let started = ActivityClock::start();
    assert!(started.last_touch > 1_500_000_000);
}

#[test]
fn browse_at_present_touches_clock() {
    let mut clock = ActivityClock::starting_at(0);
    let r = browse_response(&mut clock, &Err(DirectoryUnreadable));
    assert!(r.is_err());
    assert!(clock.last_touch > 1_500_000_000);
}

#[test]
fn watchdog_waits_under_limit() {
    let mut dog = IdleWatchdog::new();
    assert!(dog.is_running());
    assert_eq!(dog.poll(0, false), WatchAction::Wait(1));
    assert_eq!(dog.poll(59, false), WatchAction::Wait(POLL_INTERVAL_SECS));
    assert_eq!(dog.state, WatchState::Running);
}

#[test]
fn watchdog_shuts_down_at_limit() {
    let mut dog = IdleWatchdog::new();
    assert_eq!(IDLE_LIMIT_SECS, 60);
    assert_eq!(dog.poll(60, false), WatchAction::Shutdown);
    assert_eq!(dog.state, WatchState::ShuttingDown);
    assert!(!dog.is_running());
}

#[test]
fn watchdog_shuts_down_when_server_ended() {
    let mut dog = IdleWatchdog::new();
    assert_eq!(dog.poll(0, true), WatchAction::Shutdown);
}

#[test]
fn watchdog_shutdown_is_terminal() {
    let mut dog = IdleWatchdog::new();
    assert_eq!(dog.poll(61, false), WatchAction::Shutdown);
    assert_eq!(dog.poll(0, false), WatchAction::Shutdown);
    assert_eq!(dog.state, WatchState::ShuttingDown);
}

#[test]
fn idle_clock_drives_watchdog() {
    let clock = ActivityClock::starting_at(100);
    let mut dog = IdleWatchdog::new();
    let mut now = 100;
    loop {
        match dog.poll(clock.elapsed_at(now), false) {
            WatchAction::Wait(s) => now += s,
            WatchAction::Shutdown => break,
        }
    }
    assert_eq!(now, 160);
}
