use vstd::prelude::*;

verus! {

/// Relies on `SystemTime::elapsed` taken from `UNIX_EPOCH`: the wall-clock
/// time in whole seconds since the epoch, or `None` when the clock reads
/// before the epoch. Nothing is promised of the value.
#[verifier::external_body]
fn unix_now_secs() -> (r: Option<u64>) {
    match std::time::UNIX_EPOCH.elapsed() {
        Ok(d) => Some(d.as_secs()),
        Err(_) => None,
    }
}

/// The current instant in seconds since the epoch; a clock that reads before
/// the epoch counts as the epoch itself.
pub fn now_secs() -> (r: u64) {
    match unix_now_secs() {
        Some(t) => t,
        None => 0,
    }
}

/// The instant of the last observed client activity, in seconds since the
/// epoch.
#[derive(Debug, Clone, Copy, PartialEq, Eq, Structural)]
pub struct ActivityClock {
    pub last_touch: u64,
}

/// Seconds from `last` to `now`; a clock that stepped back reads as no time
/// having passed.
pub open spec fn elapsed_between(last: u64, now: u64) -> u64 {
    if now >= last {
        (now - last) as u64
    } else {
        0
    }
}

impl ActivityClock {
    /// The clock after a touch at `now`.
    pub open spec fn touched_spec(self, now: u64) -> ActivityClock {
        ActivityClock { last_touch: now }
    }

    /// Seconds since the last touch, as seen at `now`.
    pub open spec fn elapsed_spec(self, now: u64) -> u64 {
        elapsed_between(self.last_touch, now)
    }

    /// A clock whose last activity is `now`.
    pub fn starting_at(now: u64) -> (r: ActivityClock)
        ensures
            r.last_touch == now,
    {
        ActivityClock { last_touch: now }
    }

    /// A clock whose last activity is the present instant.
    pub fn start() -> (r: ActivityClock) {
        ActivityClock::starting_at(now_secs())
    }

    /// Records `now` as the latest activity.
    pub fn touch_at(&mut self, now: u64)
        ensures
            *final(self) == old(self).touched_spec(now),
    {
        self.last_touch = now;
    }

    /// Records the present instant as the latest activity, and returns it.
    pub fn touch(&mut self) -> (at: u64)
        ensures
            *final(self) == old(self).touched_spec(at),
    {
        let now: u64 = now_secs();
        self.touch_at(now);
        now
    }

    /// Seconds between the last touch and `now`.
    pub fn elapsed_at(&self, now: u64) -> (r: u64)
        ensures
            r == self.elapsed_spec(now),
    {
        if now >= self.last_touch {
            now - self.last_touch
        } else {
            0
        }
    }

    /// Seconds between the last touch and the present instant.
    pub fn elapsed_since_last_touch(&self) -> (r: u64)
        ensures
            exists|now: u64| r == self.elapsed_spec(now),
    {
        let now: u64 = now_secs();
        self.elapsed_at(now)
    }
}

/// The clock after touches at each of the instants `ts`, in order.
pub open spec fn after_touches(c: ActivityClock, ts: Seq<u64>) -> ActivityClock
    decreases ts.len(),
{
    if ts.len() == 0 {
        c
    } else {
        after_touches(c, ts.drop_last()).touched_spec(ts.last())
    }
}

/// However many touches were made, the clock is as if only the last one had
/// been: seen at any instant from the last touch on, the idle time is the
/// time since that touch, so it is close to zero right after it.
pub proof fn lemma_touches_reset_idle(c: ActivityClock, ts: Seq<u64>, now: u64)
    requires
        ts.len() > 0,
        ts.last() <= now,
    ensures
        after_touches(c, ts) == c.touched_spec(ts.last()),
        after_touches(c, ts).elapsed_spec(now) == now - ts.last(),
{
}

/// Without further touches, the idle time never decreases as the clock
/// advances.
pub proof fn lemma_idle_grows(c: ActivityClock, now1: u64, now2: u64)
    requires
        now1 <= now2,
    ensures
        c.elapsed_spec(now1) <= c.elapsed_spec(now2),
        now1 >= c.last_touch ==> c.elapsed_spec(now2) - c.elapsed_spec(now1) == now2 - now1,
{
}

} // verus!
