//! The refresh loop of watch mode as a machine that is told what happened and says
//! what to do next. Fetching, printing and sleeping are left to the caller.

use vstd::prelude::*;

verus! {

/// Seconds between two reports in watch mode.
pub const REFRESH_SECONDS: u64 = 60;

/// What happened last.
#[derive(Clone, Copy, Debug, PartialEq, Eq, Structural)]
pub enum WatchEvent {
    /// Nothing yet: the train has just been found.
    Started,
    /// A report was fetched and shown.
    Reported,
    /// A report could not be fetched.
    ReportFailed,
    /// The pause between two reports is over.
    Slept,
}

/// What to do next.
#[derive(Clone, Copy, Debug, PartialEq, Eq, Structural)]
pub enum WatchAction {
    /// Fetch and show a report.
    Report,
    /// Pause for so many seconds.
    Sleep(u64),
    /// End.
    Stop,
}

/// The next step of tracking a train.
///
/// One report is always made. Without watch mode that is all; in watch mode a pause
/// of a minute and a fresh report follow each other until a stop is asked for. A
/// report that fails ends the tracking.
pub open spec fn next_action_spec(watch: bool, stop_requested: bool, event: WatchEvent) -> WatchAction {
    match event {
        WatchEvent::Started => WatchAction::Report,
        WatchEvent::ReportFailed => WatchAction::Stop,
        WatchEvent::Reported => if watch && !stop_requested {
            WatchAction::Sleep(60)
        } else {
            WatchAction::Stop
        },
        WatchEvent::Slept => if watch && !stop_requested {
            WatchAction::Report
        } else {
            WatchAction::Stop
        },
    }
}

/// Says what to do after an event.
pub fn next_action(watch: bool, stop_requested: bool, event: WatchEvent) -> (action: WatchAction)
    ensures
        action == next_action_spec(watch, stop_requested, event),
{
    match event {
        WatchEvent::Started => WatchAction::Report,
        WatchEvent::ReportFailed => WatchAction::Stop,
        WatchEvent::Reported => if watch && !stop_requested {
            WatchAction::Sleep(REFRESH_SECONDS)
        } else {
            WatchAction::Stop
        },
        WatchEvent::Slept => if watch && !stop_requested {
            WatchAction::Report
        } else {
            WatchAction::Stop
        },
    }
}

/// Once a stop is asked for, no further report is made and no pause begun.
pub proof fn lemma_stop_is_honoured(watch: bool, event: WatchEvent)
    requires
        event != WatchEvent::Started,
    ensures
        next_action_spec(watch, true, event) == WatchAction::Stop,
{
}

/// Without watch mode exactly one report is made.
pub proof fn lemma_single_report(stop_requested: bool)
    ensures
        next_action_spec(false, stop_requested, WatchEvent::Started) == WatchAction::Report,
        next_action_spec(false, stop_requested, WatchEvent::Reported) == WatchAction::Stop,
{
}

} // verus!
