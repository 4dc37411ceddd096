//! The monitor's record: the latest snapshot beside the configuration it
//! was started with.

use vstd::prelude::*;
use crate::auth::{AuthModel, AuthType};
use crate::cli::Options;
use crate::fetch::{FetchError, FetchErrorModel};
use crate::presentation::{Presentation, PresentationModel};
use crate::snapshot::RateLimit;
use crate::style;

verus! {

/// The most recent snapshot and the configuration. Only the snapshot ever
/// changes once the record is made.
#[derive(Clone, Debug, PartialEq, Eq)]
pub struct MonitorState {
    rate_limit: Option<RateLimit>,
    poll_frequency: u64,
    auth: AuthType,
}

/// The record as plain values.
pub struct MonitorStateModel {
    /// `None` until the first fetch has succeeded.
    pub rate_limit: Option<RateLimit>,
    /// Seconds between two fetches.
    pub poll_frequency: u64,
    pub auth: AuthModel,
}

/// The outcome of a fetch, with a failure as plain values.
pub open spec fn outcome_model(outcome: Result<RateLimit, FetchError>) -> Result<
    RateLimit,
    FetchErrorModel,
> {
    match outcome {
        Ok(snapshot) => Ok(snapshot),
        Err(error) => Err(error@),
    }
}

impl MonitorStateModel {
    /// The record a monitor starts with: no snapshot yet.
    pub open spec fn initial(args: Options) -> MonitorStateModel {
        MonitorStateModel { rate_limit: None, poll_frequency: args.frequency, auth: args.auth@ }
    }

    /// The record with `snapshot` in place of the one it held.
    pub open spec fn with_snapshot(self, snapshot: RateLimit) -> MonitorStateModel {
        MonitorStateModel { rate_limit: Some(snapshot), ..self }
    }

    /// The record after the outcome of a fetch: a snapshot that arrived
    /// replaces the one held, a failure changes nothing.
    pub open spec fn after_fetch(
        self,
        outcome: Result<RateLimit, FetchErrorModel>,
    ) -> MonitorStateModel {
        match outcome {
            Ok(snapshot) => self.with_snapshot(snapshot),
            Err(_) => self,
        }
    }

    /// The line to show the user after the outcome of a fetch: none for a
    /// snapshot, the failure's report otherwise.
    pub open spec fn fetch_report(outcome: Result<RateLimit, FetchErrorModel>) -> Option<
        Seq<char>,
    > {
        match outcome {
            Ok(_) => None,
            Err(error) => Some(error.report()),
        }
    }

    /// The gauge at `now`: none while no snapshot has arrived.
    pub open spec fn shown(self, now: u64) -> Option<PresentationModel> {
        match self.rate_limit {
            None => None,
            Some(snapshot) => Some(snapshot.spec_presentation(now)),
        }
    }

    /// The length of the gauge: the quota of the snapshot, or the quota
    /// assumed for the credentials while no snapshot has arrived.
    pub open spec fn gauge_length(self) -> u64 {
        match self.rate_limit {
            None => self.auth.initial_length(),
            Some(snapshot) => snapshot.limit,
        }
    }

    /// The colour of the gauge position: white while no snapshot has
    /// arrived, the colour of the snapshot's tier otherwise.
    pub open spec fn rate_color(self) -> Seq<char> {
        match self.rate_limit {
            None => "white"@,
            Some(snapshot) => snapshot.spec_color_tier().spec_color(),
        }
    }

    /// The colour of the countdown at `now`: white while no snapshot has
    /// arrived, the colour of the snapshot's tier otherwise.
    pub open spec fn message_color(self, now: u64) -> Seq<char> {
        match self.rate_limit {
            None => "white"@,
            Some(snapshot) => snapshot.spec_message_tier(now).spec_color(),
        }
    }

    /// The bar characters: those of an exhausted gauge when the snapshot
    /// has no request left.
    pub open spec fn progress_chars(self) -> Seq<char> {
        match self.rate_limit {
            Some(snapshot) if snapshot.remaining == 0 => style::spec_exhausted_chars(),
            _ => style::spec_progress_chars(),
        }
    }

    /// The template of the gauge at `now`.
    pub open spec fn template(self, now: u64) -> Seq<char> {
        match self.rate_limit {
            None => style::spec_initial_template(),
            Some(_) => style::spec_template(self.rate_color(), self.message_color(now)),
        }
    }
}

impl View for MonitorState {
    type V = MonitorStateModel;

    closed spec fn view(&self) -> MonitorStateModel {
        MonitorStateModel {
            rate_limit: self.rate_limit,
            poll_frequency: self.poll_frequency,
            auth: self.auth@,
        }
    }
}

impl MonitorState {
    /// Makes the record of a monitor that has not fetched yet.
    pub fn new(args: Options) -> (state: MonitorState)
        ensures
            state@ == MonitorStateModel::initial(args),
    {
        MonitorState { rate_limit: None, poll_frequency: args.frequency, auth: args.auth }
    }

    /// The latest snapshot, if one has arrived.
    pub fn read_snapshot(&self) -> (snapshot: Option<RateLimit>)
        ensures
            snapshot == self@.rate_limit,
    {
        self.rate_limit
    }

    /// Puts `snapshot` in place of the one held. The configuration stays.
    pub fn replace_snapshot(&mut self, snapshot: RateLimit)
        ensures
            final(self)@ == old(self)@.with_snapshot(snapshot),
    {
        self.rate_limit = Some(snapshot);
    }

    /// Seconds between two fetches.
    pub fn poll_frequency(&self) -> (seconds: u64)
        ensures
            seconds == self@.poll_frequency,
    {
        self.poll_frequency
    }

    /// The credentials to fetch with.
    pub fn auth(&self) -> (auth: &AuthType)
        ensures
            auth@ == self@.auth,
    {
        &self.auth
    }

    /// Takes in the outcome of a fetch. A snapshot that arrived replaces the
    /// one held and nothing is reported; a failure leaves the record as it
    /// was and its report is returned.
    pub fn record_fetch(&mut self, outcome: Result<RateLimit, FetchError>) -> (report: Option<
        String,
    >)
        ensures
            final(self)@ == old(self)@.after_fetch(outcome_model(outcome)),
            outcome is Err ==> final(self)@ == old(self)@,
            outcome is Ok <==> report is None,
            match report {
                Some(line) => Some(line@),
                None => None,
            } == MonitorStateModel::fetch_report(outcome_model(outcome)),
    {
        match outcome {
            Ok(snapshot) => {
                self.replace_snapshot(snapshot);
                None
            },
            Err(error) => Some(error.report()),
        }
    }

    /// Derives the gauge at `now`: none while no snapshot has arrived. The
    /// position of a gauge never exceeds its length.
    pub fn render(&self, now: u64) -> (shown: Option<Presentation>)
        ensures
            match shown {
                Some(gauge) => Some(gauge@),
                None => None,
            } == self@.shown(now),
            shown is None <==> self@.rate_limit is None,
            shown matches Some(gauge) ==> 0 <= gauge.gauge_position <= gauge.gauge_length,
    {
        match self.rate_limit {
            None => None,
            Some(snapshot) => Some(snapshot.presentation(now)),
        }
    }

    /// The length of the gauge.
    pub fn gauge_length(&self) -> (length: u64)
        ensures
            length == self@.gauge_length(),
    {
        match self.rate_limit {
            None => self.auth.initial_length(),
            Some(snapshot) => snapshot.limit,
        }
    }

    /// The colour of the gauge position.
    pub fn rate_color(&self) -> (color: &'static str)
        ensures
            color@ == self@.rate_color(),
    {
        match self.rate_limit {
            None => "white",
            Some(snapshot) => snapshot.color_tier().color(),
        }
    }

    /// The colour of the countdown at `now`.
    pub fn message_color(&self, now: u64) -> (color: &'static str)
        ensures
            color@ == self@.message_color(now),
    {
        match self.rate_limit {
            None => "white",
            Some(snapshot) => snapshot.message_tier(now).color(),
        }
    }

    /// The bar characters.
    pub fn progress_chars(&self) -> (chars: &'static str)
        ensures
            chars@ == self@.progress_chars(),
    {
        match self.rate_limit {
            Some(snapshot) => {
                if snapshot.remaining == 0 {
                    style::exhausted_chars()
                } else {
                    style::progress_chars()
                }
            },
            None => style::progress_chars(),
        }
    }

    /// The template of the gauge at `now`.
    pub fn template(&self, now: u64) -> (template: String)
        ensures
            template@ == self@.template(now),
    {
        match self.rate_limit {
            None => String::from_str(style::initial_template()),
            Some(_) => style::template(self.rate_color(), self.message_color(now)),
        }
    }
}

/// A failed fetch changes neither the snapshot nor any gauge derived
/// afterwards: at every time the gauge is the one the record gave before.
pub proof fn lemma_failed_fetch_keeps_gauge(
    state: MonitorStateModel,
    error: FetchErrorModel,
    now: u64,
)
    ensures
        state.after_fetch(Err(error)) == state,
        state.after_fetch(Err(error)).rate_limit == state.rate_limit,
        state.after_fetch(Err(error)).shown(now) == state.shown(now),
{
}

/// A fetched snapshot is what the next tick shows, whatever was held before.
pub proof fn lemma_fetched_snapshot_is_shown(
    state: MonitorStateModel,
    snapshot: RateLimit,
    now: u64,
)
    ensures
        state.after_fetch(Ok(snapshot)).rate_limit == Some(snapshot),
        state.after_fetch(Ok(snapshot)).shown(now) == Some(snapshot.spec_presentation(now)),
{
}

/// No outcome of a fetch changes the configuration: the poll frequency and
/// the credentials stay as they were when the record was made.
pub proof fn lemma_fetch_keeps_configuration(
    state: MonitorStateModel,
    outcome: Result<RateLimit, FetchErrorModel>,
)
    ensures
        state.after_fetch(outcome).poll_frequency == state.poll_frequency,
        state.after_fetch(outcome).auth == state.auth,
{
}

} // verus!
