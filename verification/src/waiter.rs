//! The bounded wait for a node to be powered down.
//!
//! That a shutdown action succeeded says only that the provider took the
//! command. Before a node is resized it has to be seen powered down, and it
//! is given a fixed number of looks to get there.

use crate::model::NodeStatus;
use vstd::prelude::*;

verus! {

/// The pause between two looks at the node, in milliseconds.
pub const OFF_WAIT_INTERVAL_MS: u64 = 100;

/// The number of looks after which the wait is given up.
pub const OFF_WAIT_ATTEMPTS: u32 = 50;

/// What follows a look at the node.
#[derive(Clone, Copy, Debug, PartialEq, Eq, Structural)]
pub enum WaitDecision {
    /// The node is not down yet: pause for [`OFF_WAIT_INTERVAL_MS`] and look
    /// again. `tick` asks for a mark of progress to be shown.
    Pause { tick: bool },
    /// The node is powered down.
    Confirmed,
    /// The node was not seen powered down in any of the looks allowed.
    TimedOut,
}

/// Whether a mark of progress is due after the pause that follows look
/// number `attempt`: once in every three looks, when the number of looks
/// that are left is a multiple of three.
pub open spec fn spec_tick(attempt: int) -> bool {
    (OFF_WAIT_ATTEMPTS - attempt) % 3 == 0
}

/// The decision after look number `earlier + 1` reported `status`.
pub open spec fn spec_wait(earlier: int, status: NodeStatus) -> WaitDecision {
    if status.spec_is_off() {
        WaitDecision::Confirmed
    } else if earlier + 1 >= OFF_WAIT_ATTEMPTS {
        WaitDecision::TimedOut
    } else {
        WaitDecision::Pause { tick: spec_tick(earlier + 1) }
    }
}

/// Decides what follows a look at a node that reported `status`, after
/// `earlier` looks that did not find it powered down.
///
/// A node that is off confirms the wait at once. Otherwise the wait goes on
/// as long as fewer than [`OFF_WAIT_ATTEMPTS`] looks were taken, this one
/// included, and times out with the last look allowed.
pub fn wait(earlier: u32, status: NodeStatus) -> (decision: WaitDecision)
    ensures
        decision == spec_wait(earlier as int, status),
{
    if status.is_off() {
        WaitDecision::Confirmed
    } else if earlier >= OFF_WAIT_ATTEMPTS - 1 {
        WaitDecision::TimedOut
    } else {
        let left: u32 = OFF_WAIT_ATTEMPTS - (earlier + 1);
        WaitDecision::Pause { tick: left % 3 == 0 }
    }
}

} // verus!
