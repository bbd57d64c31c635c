//! One cycle of the watch: announce the start, take in what the fetch
//! brought, say what to show and how long to pause.

use vstd::prelude::*;
use crate::descriptor::{BuildInfo, BuildInfoView};
use crate::fetch::FetchError;
use crate::history::{State, StateView, Transition};

verus! {

/// The pause between two cycles, in seconds.
pub const POLL_INTERVAL_SECS: u64 = 30;

/// The day and time, in UTC, of the instant `secs` seconds after the
/// start of 1970, written as chrono writes it for the pattern
/// `%d/%m/%Y %T`; `None` for an instant that chrono cannot hold.
pub uninterp spec fn utc_date_time_text(secs: i64) -> Option<Seq<char>>;

/// Calls chrono's `DateTime::from_timestamp` with no nanoseconds and,
/// where that gives an instant, `DateTime::format` with the pattern
/// `%d/%m/%Y %T`. Nothing is proved of the text: the contract only
/// gives it its name, which says that it depends on `secs` alone.
#[verifier::external_body]
fn utc_date_time(secs: i64) -> (text: Option<String>)
    ensures
        match text {
            Some(t) => utc_date_time_text(secs) == Some(t@),
            None => utc_date_time_text(secs) is None,
        },
{
    match chrono::DateTime::from_timestamp(secs, 0) {
        Some(instant) => Some(instant.format("%d/%m/%Y %T").to_string()),
        None => None,
    }
}

/// The line that opens a cycle, around the text of its start.
pub open spec fn check_started_text(stamp: Seq<char>) -> Seq<char> {
    "["@ + stamp + "] Check started"@
}

/// The line that opens a cycle which started at the time that `stamp`
/// writes.
pub fn check_started_line(stamp: &str) -> (line: String)
    ensures
        line@ == check_started_text(stamp@),
{
    let mut line = "[".to_owned();
    line.append(stamp);
    line.append("] Check started");
    line
}

/// The line that opens a cycle which started `secs` seconds after the
/// start of 1970; `None` for a time too far off to be written.
pub fn cycle_banner(secs: i64) -> (line: Option<String>)
    ensures
        match line {
            Some(l) => utc_date_time_text(secs) matches Some(stamp) && l@ == check_started_text(
                stamp,
            ),
            None => utc_date_time_text(secs) is None,
        },
{
    match utc_date_time(secs) {
        Some(stamp) => Some(check_started_line(stamp.as_str())),
        None => None,
    }
}

/// What the watch does when a fetch fails.
#[derive(Clone, Copy, Debug, PartialEq, Eq, Structural)]
pub enum FailurePolicy {
    /// The first failure ends the watch.
    FailFast,
    /// A failure is shown and the watch goes on after the usual pause.
    KeepGoing,
}

/// What is to be done at the end of a cycle, as plain values.
pub enum ActionView {
    Report { transition: Transition, text: Seq<char>, pause_secs: u64 },
    Skip { error: FetchError, pause_secs: u64 },
    Abort { error: FetchError },
}

/// What is to be done at the end of a cycle.
#[derive(Debug, PartialEq, Eq)]
pub enum Action {
    /// Show `text`, the report of the history, then pause.
    Report { transition: Transition, text: String, pause_secs: u64 },
    /// Show the error, then pause and try again.
    Skip { error: FetchError, pause_secs: u64 },
    /// Show the error and end the watch.
    Abort { error: FetchError },
}

impl View for Action {
    type V = ActionView;

    open spec fn view(&self) -> ActionView {
        match *self {
            Action::Report { transition, text, pause_secs } => ActionView::Report {
                transition,
                text: text@,
                pause_secs,
            },
            Action::Skip { error, pause_secs } => ActionView::Skip { error, pause_secs },
            Action::Abort { error } => ActionView::Abort { error },
        }
    }
}

/// What a fetch brought, as plain values.
pub open spec fn outcome_view(outcome: Result<BuildInfo, FetchError>) -> Result<
    BuildInfoView,
    FetchError,
> {
    match outcome {
        Ok(build) => Ok(build@),
        Err(error) => Err(error),
    }
}

/// The history after a cycle and what is to be done at its end. A
/// fetched build is observed and the new history reported. A failure
/// leaves the history as it was; the policy says whether the watch ends.
pub open spec fn step_spec(
    history: StateView,
    policy: FailurePolicy,
    outcome: Result<BuildInfoView, FetchError>,
) -> (StateView, ActionView) {
    match outcome {
        Ok(build) => (
            history.observe(build),
            ActionView::Report {
                transition: history.transition(build),
                text: history.observe(build).text(),
                pause_secs: POLL_INTERVAL_SECS,
            },
        ),
        Err(error) => (
            history,
            match policy {
                FailurePolicy::FailFast => ActionView::Abort { error },
                FailurePolicy::KeepGoing => ActionView::Skip {
                    error,
                    pause_secs: POLL_INTERVAL_SECS,
                },
            },
        ),
    }
}

/// Ends one cycle: takes in what the fetch brought and says what to do
/// next. Whatever the policy, a failed fetch does not touch the history.
pub fn step(state: &mut State, policy: FailurePolicy, outcome: Result<BuildInfo, FetchError>) -> (action:
    Action)
    ensures
        (final(state)@, action@) == step_spec(old(state)@, policy, outcome_view(outcome)),
        outcome is Err ==> *final(state) == *old(state),
{
    match outcome {
        Ok(build) => {
            let transition = state.observe(build);
            Action::Report { transition, text: state.render(), pause_secs: POLL_INTERVAL_SECS }
        },
        Err(error) => match policy {
            FailurePolicy::FailFast => Action::Abort { error },
            FailurePolicy::KeepGoing => Action::Skip { error, pause_secs: POLL_INTERVAL_SECS },
        },
    }
}

/// A failed fetch leaves the history as it was, whatever its error and
/// whatever the policy.
pub proof fn lemma_failure_keeps_history(
    history: StateView,
    policy: FailurePolicy,
    error: FetchError,
)
    ensures
        step_spec(history, policy, Err(error)).0 == history,
{
}

} // verus!
