//! Startup connection policy for the job-queue broker: a fixed retry
//! interval and a bounded number of attempts, after which the failure is
//! fatal.

use vstd::prelude::*;

verus! {

/// Seconds to wait between connection attempts.
pub const RETRY_INTERVAL: u64 = 5;

/// How many failed attempts may be retried before giving up.
pub const MAX_RETRIES: u32 = 12;

/// What the connection loop does next.
#[derive(Debug, Clone, Copy, PartialEq, Eq, Structural)]
pub enum RetryDecision {
    /// Connected: use the connection.
    Proceed,
    /// Not connected yet: sleep this many seconds, then try again.
    RetryAfterDelay(u64),
    /// The retry budget is spent: treat the failure as fatal.
    GiveUp,
}

/// Decides the next step of the startup connection loop from the number of
/// retries spent so far and whether the last attempt connected. The loop is
/// bounded: once `MAX_RETRIES` retries are spent, a failed attempt is fatal.
pub fn retry_decision(retries: u32, connected: bool) -> (d: RetryDecision)
    ensures
        connected ==> d == RetryDecision::Proceed,
        !connected && retries < MAX_RETRIES ==> d == RetryDecision::RetryAfterDelay(RETRY_INTERVAL),
        !connected && retries >= MAX_RETRIES ==> d == RetryDecision::GiveUp,
{
    if connected {
        RetryDecision::Proceed
    } else if retries < MAX_RETRIES {
        RetryDecision::RetryAfterDelay(RETRY_INTERVAL)
    } else {
        RetryDecision::GiveUp
    }
}

} // verus!
