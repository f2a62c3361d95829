//! The decision taken on each report about a submitted action.
//!
//! An action is polled until the provider reports an end. There is no limit
//! on the number of polls: how long an action may take is for the provider
//! to say.

use crate::model::{ActionFailure, ActionFailureView, ActionStatus, ActionStatusView};
use vstd::prelude::*;

verus! {

/// The pause between two polls of an action, in milliseconds.
pub const ACTION_POLL_INTERVAL_MS: u64 = 300;

/// What to show the user while an action runs.
#[derive(Clone, Copy, Debug, PartialEq, Eq, Structural)]
pub enum Progress {
    /// The provider gives no estimate.
    Waiting,
    /// The provider's estimate, in percent.
    Percent(i32),
}

/// What follows a report about an action.
#[derive(Clone, Debug, PartialEq, Eq)]
pub enum PollDecision {
    /// The action is still running: show `progress`, pause for
    /// [`ACTION_POLL_INTERVAL_MS`] and poll again.
    Pause { progress: Progress },
    /// The action succeeded.
    Finished,
    /// The action ended in error.
    Failed(ActionFailure),
}

/// The view of a [`PollDecision`].
pub enum PollDecisionView {
    Pause { progress: Progress },
    Finished,
    Failed(ActionFailureView),
}

impl View for PollDecision {
    type V = PollDecisionView;

    open spec fn view(&self) -> PollDecisionView {
        match *self {
            PollDecision::Pause { progress } => PollDecisionView::Pause { progress },
            PollDecision::Finished => PollDecisionView::Finished,
            PollDecision::Failed(failure) => PollDecisionView::Failed(failure@),
        }
    }
}

/// The progress shown for a running action that reports `progress` percent.
pub open spec fn spec_progress(progress: i32) -> Progress {
    if progress <= 0 {
        Progress::Waiting
    } else {
        Progress::Percent(progress)
    }
}

/// The decision that a report calls for.
pub open spec fn spec_poll(status: ActionStatusView) -> PollDecisionView {
    match status {
        ActionStatusView::Running { progress } => PollDecisionView::Pause {
            progress: spec_progress(progress),
        },
        ActionStatusView::Success => PollDecisionView::Finished,
        ActionStatusView::Error { code, message } => PollDecisionView::Failed(
            ActionFailureView { code, message },
        ),
    }
}

/// Decides what follows the report `status` about an action.
///
/// A running action calls for a pause and another poll, a successful one
/// ends the polling, and a failed one ends it with the provider's code and
/// message.
pub fn poll(status: ActionStatus) -> (decision: PollDecision)
    ensures
        decision@ == spec_poll(status@),
{
    match status {
        ActionStatus::Running { progress } => {
            if progress <= 0 {
                PollDecision::Pause { progress: Progress::Waiting }
            } else {
                PollDecision::Pause { progress: Progress::Percent(progress) }
            }
        },
        ActionStatus::Success => PollDecision::Finished,
        ActionStatus::Error { code, message } => PollDecision::Failed(
            ActionFailure { code, message },
        ),
    }
}

} // verus!
