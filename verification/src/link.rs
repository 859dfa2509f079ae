//! Decision logic of the link-establishment wait loop: the radio driver is
//! polled once per iteration, and each observation either ends the wait or
//! consumes one watchdog credit before the next poll.

use vstd::prelude::*;
use crate::reset_on_failure_count::{fire_delta, ResetAction, ResettingCounter};

verus! {

/// How long to wait between two polls of the radio's connection status, in
/// milliseconds.
pub const LINK_RETRY_DELAY_MS: u64 = 500;

/// One observation of the radio driver's connection status.
#[derive(Clone, Copy, PartialEq, Eq, Structural, Debug)]
pub enum LinkPollStatus {
    /// The driver reported an error when asked for its status.
    Fault,
    /// The link is up.
    Connected,
    /// The link is still coming up.
    Pending,
}

/// What the wait loop does after one status observation.
#[derive(Clone, Copy, PartialEq, Eq, Structural, Debug)]
pub enum LinkWaitAction {
    /// Stop waiting without a connected link; the failure surfaces at the
    /// next connectivity check.
    AbandonWait,
    /// The link is up: leave the wait loop and go on to the next phase.
    Proceed,
    /// Wait `LINK_RETRY_DELAY_MS` and poll again.
    RetryAfterDelay,
}

/// Decide one iteration of the link wait loop and account for it on the
/// watchdog: a connected link clears the failure count, a pending link
/// consumes one watchdog credit, and a driver fault ends the wait untouched.
///
/// The wait loop has no timeout of its own: a link that never comes up costs
/// one credit per poll, so the watchdog fires the device reset after exactly
/// `threshold` polls since the last fully successful phase.
pub fn link_wait_step<F: ResetAction>(
    watchdog: &mut ResettingCounter<F>,
    status: LinkPollStatus,
) -> (action: LinkWaitAction)
    requires
        old(watchdog).count() < u32::MAX as nat,
    ensures
        action == (match status {
            LinkPollStatus::Fault => LinkWaitAction::AbandonWait,
            LinkPollStatus::Connected => LinkWaitAction::Proceed,
            LinkPollStatus::Pending => LinkWaitAction::RetryAfterDelay,
        }),
        final(watchdog).threshold() == old(watchdog).threshold(),
        match status {
            LinkPollStatus::Fault => *final(watchdog) == *old(watchdog),
            LinkPollStatus::Connected => final(watchdog).count() == 0 && final(watchdog).fires()
                == old(watchdog).fires(),
            LinkPollStatus::Pending => final(watchdog).count() == old(watchdog).count() + 1
                && final(watchdog).fires() == old(watchdog).fires() + fire_delta(
                old(watchdog).count(),
                old(watchdog).threshold(),
            ),
        },
{
    match status {
        LinkPollStatus::Fault => LinkWaitAction::AbandonWait,
        LinkPollStatus::Connected => {
            watchdog.reset();
            LinkWaitAction::Proceed
        },
        LinkPollStatus::Pending => {
            watchdog.increment_failure();
            LinkWaitAction::RetryAfterDelay
        },
    }
}

} // verus!
