//! When the poller fetches.
//!
//! The poller fetches at once when it starts, and from then on whenever the
//! poll interval has passed since the start of the previous fetch. Times are
//! milliseconds on a clock that never runs backwards.

use vstd::prelude::*;

verus! {

/// What the poller does next.
#[derive(Clone, Copy, Debug, PartialEq, Eq, Structural)]
pub enum PollAction {
    /// Fetch now.
    Fetch,
    /// Sleep for this many milliseconds, then ask again.
    Wait(u64),
}

/// The poller's schedule.
#[derive(Clone, Copy, Debug, PartialEq, Eq, Structural)]
pub struct Poller {
    /// Seconds between the starts of two fetches.
    pub interval_seconds: u64,
    /// When the previous fetch started; `None` before the first.
    pub last_fetch_started: Option<u64>,
}

impl Poller {
    /// The time from which the next fetch is due.
    pub open spec fn due_at(self) -> int {
        match self.last_fetch_started {
            None => 0,
            Some(started) => started + 1000 * self.interval_seconds,
        }
    }

    /// The action at `now`: fetch once the next fetch is due, else wait for
    /// what is left, at most `u64::MAX` milliseconds at a time.
    pub open spec fn spec_next_action(self, now: u64) -> PollAction {
        if now >= self.due_at() {
            PollAction::Fetch
        } else if self.due_at() - now > u64::MAX {
            PollAction::Wait(u64::MAX)
        } else {
            PollAction::Wait((self.due_at() - now) as u64)
        }
    }

    /// A poller that has not fetched yet.
    pub fn new(interval_seconds: u64) -> (poller: Poller)
        ensures
            poller == (Poller { interval_seconds, last_fetch_started: None }),
            forall|now: u64| poller.spec_next_action(now) == PollAction::Fetch,
    {
        Poller { interval_seconds, last_fetch_started: None }
    }

    /// Decides what to do at `now`. The first fetch is due at once; a later
    /// one when the interval has passed since the previous fetch started.
    /// A wait is never empty.
    pub fn next_action(&self, now: u64) -> (action: PollAction)
        ensures
            action == self.spec_next_action(now),
            action == PollAction::Fetch <==> (self.last_fetch_started matches Some(started)
                ==> now - started >= 1000 * self.interval_seconds),
            action matches PollAction::Wait(millis) ==> millis > 0,
    {
        match self.last_fetch_started {
            None => PollAction::Fetch,
            Some(started) => {
                let due: u128 = started as u128 + 1000 * (self.interval_seconds as u128);
                let now_wide: u128 = now as u128;
                if now_wide >= due {
                    PollAction::Fetch
                } else if due - now_wide > u64::MAX as u128 {
                    PollAction::Wait(u64::MAX)
                } else {
                    PollAction::Wait((due - now_wide) as u64)
                }
            },
        }
    }

    /// Notes that a fetch starts at `now`. The interval to the next fetch
    /// runs from here, however long this fetch takes.
    pub fn fetch_started(&mut self, now: u64)
        ensures
            *final(self) == (Poller { last_fetch_started: Some(now), ..*old(self) }),
    {
        self.last_fetch_started = Some(now);
    }
}

/// Sleeping for as long as the poller says leads to a fetch: after a wait
/// that was not cut short at `u64::MAX` the next fetch is due, and it was
/// not due a millisecond earlier.
pub proof fn lemma_wait_ends_in_fetch(poller: Poller, now: u64, millis: u64)
    requires
        poller.spec_next_action(now) == PollAction::Wait(millis),
        millis < u64::MAX,
        now + millis <= u64::MAX,
    ensures
        poller.spec_next_action((now + millis) as u64) == PollAction::Fetch,
        poller.spec_next_action((now + millis - 1) as u64) != PollAction::Fetch,
{
}

/// Once a fetch has started at `started`, the next one is due exactly when
/// the interval has passed since then: no sooner, and with no further delay
/// when the fetch itself took longer than the interval.
pub proof fn lemma_interval_runs_from_start(interval_seconds: u64, started: u64, now: u64)
    ensures
        (Poller { interval_seconds, last_fetch_started: Some(started) }).spec_next_action(now)
            == PollAction::Fetch <==> now - started >= 1000 * interval_seconds,
{
}

} // verus!
