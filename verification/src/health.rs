//! The health check proper: what one bounded probe of the database came to,
//! and the result that is reported for it.
//!
//! A probe is a race between a unit of work (borrow a pooled connection, run a
//! trivial query) and a timer. Running the race needs a clock and a database;
//! this module starts where the race ends. Whoever ran it hands over a
//! [`ProbeOutcome`], and [`check_health`] turns it into a [`HealthResult`].

use vstd::prelude::*;
use vstd::string::*;

verus! {

/// How long a probe may run before it is given up, in seconds.
pub const PROBE_TIMEOUT_SECS: u64 = 10;

/// The statement that a probe runs: it selects a constant and touches no data.
pub const PROBE_QUERY: &'static str = "SELECT 1";

/// What the race between the probe and its timer came to.
///
/// The two texts are whatever the runner of the race knows about the fault:
/// the rendering of the connection or query error, and the rendering of the
/// timer's own report.
#[derive(Debug, PartialEq, Eq)]
pub enum ProbeOutcome {
    /// The query finished before the timer fired.
    Completed,
    /// Borrowing a connection or running the query failed before the timer
    /// fired; the text describes the underlying error.
    Failed(String),
    /// The timer fired first; the text describes the expiry.
    TimedOut(String),
}

/// The mathematical value of a [`ProbeOutcome`].
pub enum ProbeOutcomeView {
    Completed,
    Failed(Seq<char>),
    TimedOut(Seq<char>),
}

impl View for ProbeOutcome {
    type V = ProbeOutcomeView;

    open spec fn view(&self) -> ProbeOutcomeView {
        match self {
            ProbeOutcome::Completed => ProbeOutcomeView::Completed,
            ProbeOutcome::Failed(detail) => ProbeOutcomeView::Failed(detail@),
            ProbeOutcome::TimedOut(detail) => ProbeOutcomeView::TimedOut(detail@),
        }
    }
}

/// The result of one health check. It is built, turned into a response and
/// dropped; nothing keeps it.
#[derive(Debug, PartialEq, Eq)]
pub enum HealthResult {
    /// The database answered.
    Success,
    /// The database could not be reached or refused the query.
    Failure(String),
    /// The database did not answer in time.
    Timeout(String),
}

/// The mathematical value of a [`HealthResult`].
pub enum HealthResultView {
    Success,
    Failure(Seq<char>),
    Timeout(Seq<char>),
}

impl View for HealthResult {
    type V = HealthResultView;

    open spec fn view(&self) -> HealthResultView {
        match self {
            HealthResult::Success => HealthResultView::Success,
            HealthResult::Failure(message) => HealthResultView::Failure(message@),
            HealthResult::Timeout(message) => HealthResultView::Timeout(message@),
        }
    }
}

/// What every failure message starts with.
pub open spec fn failure_prefix() -> Seq<char> {
    "❌ DB error: "@
}

/// What every timeout message starts with.
pub open spec fn timeout_prefix() -> Seq<char> {
    "❌ DB check timeout: "@
}

/// The message reported for a failed probe: the prefix, then the underlying
/// error.
pub open spec fn failure_message(detail: Seq<char>) -> Seq<char> {
    failure_prefix() + detail
}

/// The message reported for a probe that ran out of time.
pub open spec fn timeout_message(detail: Seq<char>) -> Seq<char> {
    timeout_prefix() + detail
}

/// The health result that belongs to an outcome.
pub open spec fn health_of(outcome: ProbeOutcomeView) -> HealthResultView {
    match outcome {
        ProbeOutcomeView::Completed => HealthResultView::Success,
        ProbeOutcomeView::Failed(detail) => HealthResultView::Failure(failure_message(detail)),
        ProbeOutcomeView::TimedOut(detail) => HealthResultView::Timeout(timeout_message(detail)),
    }
}

/// Judges one probe. Each probe is judged on its own: there is no retry and
/// no memory of earlier probes.
pub fn check_health(outcome: ProbeOutcome) -> (result: HealthResult)
    ensures
        result@ == health_of(outcome@),
{
    match outcome {
        ProbeOutcome::Completed => HealthResult::Success,
        ProbeOutcome::Failed(detail) => {
            let message = String::from_str("❌ DB error: ").concat(detail.as_str());
            HealthResult::Failure(message)
        },
        ProbeOutcome::TimedOut(detail) => {
            let message = String::from_str("❌ DB check timeout: ").concat(detail.as_str());
            HealthResult::Timeout(message)
        },
    }
}

impl HealthResult {
    /// Whether the database answered.
    pub fn is_success(&self) -> (yes: bool)
        ensures
            yes == (self@ is Success),
    {
        match self {
            HealthResult::Success => true,
            _ => false,
        }
    }

    /// The message of a failure or a timeout; a success carries none.
    pub fn message(&self) -> (message: Option<&str>)
        ensures
            match self@ {
                HealthResultView::Success => message is None,
                HealthResultView::Failure(text) => message is Some && message.unwrap()@ == text,
                HealthResultView::Timeout(text) => message is Some && message.unwrap()@ == text,
            },
    {
        match self {
            HealthResult::Success => None,
            HealthResult::Failure(message) => Some(message.as_str()),
            HealthResult::Timeout(message) => Some(message.as_str()),
        }
    }
}

} // verus!
