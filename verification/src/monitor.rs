//! The monitor's record shared between a poller and a renderer that run
//! side by side: the configuration, which never changes, beside the latest
//! snapshot behind a reader/writer lock.

use vstd::prelude::*;
use parking_lot::lock_api::RwLock;
use parking_lot::RawRwLock;
use crate::cli::Options;
use crate::fetch::FetchError;
use crate::presentation::Presentation;
use crate::snapshot::RateLimit;
use crate::state::MonitorState;

verus! {

/// `RawRwLock` of parking_lot, the lock's own state. Nothing of it is
/// visible here.
#[verifier::external_type_specification]
#[verifier::external_body]
pub struct ExRawRwLock(RawRwLock);

/// `RwLock` of lock_api, which parking_lot's `RwLock` is made of. What it
/// guards changes behind a shared reference, so nothing of it is visible
/// here.
#[verifier::external_type_specification]
#[verifier::external_body]
#[verifier::reject_recursive_types(R)]
#[verifier::reject_recursive_types(T)]
pub struct ExRwLock<R, T: ?Sized>(RwLock<R, T>);

/// Calls `RwLock::new` of parking_lot: a new, unlocked lock around
/// `rate_limit`. Nothing is claimed of the lock.
#[verifier::external_body]
fn lock_new(rate_limit: Option<RateLimit>) -> RwLock<RawRwLock, Option<RateLimit>> {
    RwLock::new(rate_limit)
}

/// Calls `RwLock::read` of parking_lot and copies the snapshot out while the
/// shared access is held. Which snapshot comes back depends on what other
/// threads have stored, so nothing is claimed of it. The call returns
/// because no access to this lock outlives one of the calls made here.
#[verifier::external_body]
fn lock_load(lock: &RwLock<RawRwLock, Option<RateLimit>>) -> Option<RateLimit> {
    *lock.read()
}

/// Calls `RwLock::write` of parking_lot and puts `rate_limit` in place of
/// the snapshot held, as one step under exclusive access.
#[verifier::external_body]
fn lock_store(lock: &RwLock<RawRwLock, Option<RateLimit>>, rate_limit: Option<RateLimit>) {
    *lock.write() = rate_limit;
}

/// A monitor's record, shared between the poller that updates it and the
/// renderer that reads it. The configuration is fixed when the monitor is
/// made; the snapshot is swapped as a whole, so a reader always gets one
/// that was stored, never parts of two.
pub struct Monitor {
    args: Options,
    rate_limit: RwLock<RawRwLock, Option<RateLimit>>,
}

impl Monitor {
    /// The configuration the monitor was made with.
    pub closed spec fn options(&self) -> Options {
        self.args
    }

    /// Makes the monitor for `args`, with no snapshot yet.
    pub fn new(args: Options) -> (monitor: Monitor)
        ensures
            monitor.options() == args,
    {
        Monitor { args, rate_limit: lock_new(None) }
    }

    /// A copy of the record as it is now: the configuration the monitor was
    /// made with, beside the snapshot that the lock holds at this moment.
    pub fn read_state(&self) -> (state: MonitorState)
        ensures
            state@.poll_frequency == self.options().frequency,
            state@.auth == self.options().auth@,
    {
        let mut state = MonitorState::new(self.args.clone());
        match lock_load(&self.rate_limit) {
            Some(snapshot) => state.replace_snapshot(snapshot),
            None => {},
        }
        state
    }

    /// The latest snapshot, if one has arrived.
    pub fn read_snapshot(&self) -> Option<RateLimit> {
        lock_load(&self.rate_limit)
    }

    /// Puts `snapshot` in place of the one held. Only the poller calls this.
    pub fn replace_snapshot(&self, snapshot: RateLimit) {
        lock_store(&self.rate_limit, Some(snapshot));
    }

    /// Takes in the outcome of a fetch: a snapshot that arrived is stored and
    /// nothing is reported; after a failure nothing is stored and the
    /// failure's report is returned.
    pub fn record_fetch(&self, outcome: Result<RateLimit, FetchError>) -> (report: Option<String>)
        ensures
            outcome is Ok <==> report is None,
            outcome matches Err(error) ==> report matches Some(line) && line@ == error@.report(),
    {
        match outcome {
            Ok(snapshot) => {
                self.replace_snapshot(snapshot);
                None
            },
            Err(error) => Some(error.report()),
        }
    }

    /// Derives the gauge at `now` from the record as it is now: none while
    /// no snapshot has arrived. Every part of a gauge comes from one and the
    /// same snapshot, and its position never exceeds its length.
    pub fn render(&self, now: u64) -> (shown: Option<Presentation>)
        ensures
            shown matches Some(gauge) ==> 0 <= gauge.gauge_position <= gauge.gauge_length,
            shown matches Some(gauge) ==> exists|snapshot: RateLimit|
                gauge@ == #[trigger] snapshot.spec_presentation(now),
    {
        self.read_state().render(now)
    }
}

} // verus!
