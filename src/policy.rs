use vstd::prelude::*;

verus! {

/// How a scheduled task waits for the moment to execute: a task asks
/// `ready` with the pool's running flag, and when the answer is no it waits
/// `poll_interval_ms` milliseconds and asks again.
pub trait TaskPolicy {
    /// Whether the policy lets a task start while the running flag is `running`.
    spec fn admits(running: bool) -> bool;

    /// Decides whether a task may start now.
    fn ready(running: bool) -> (r: bool)
        ensures
            r == Self::admits(running),
    ;

    /// The pause between two polls, in milliseconds.
    fn poll_interval_ms() -> (r: u64)
        ensures
            r > 0,
    ;
}

/// The default policy: a task starts once the pool is running, polling the
/// flag every five milliseconds until then.
#[derive(Debug, Clone, Copy, PartialEq, Eq, Structural)]
pub struct Once;

/// The pause between two polls of the default policy, in milliseconds.
pub const ONCE_POLL_INTERVAL_MS: u64 = 5;

impl TaskPolicy for Once {
    open spec fn admits(running: bool) -> bool {
        running
    }

    fn ready(running: bool) -> (r: bool) {
        running
    }

    fn poll_interval_ms() -> (r: u64) {
        ONCE_POLL_INTERVAL_MS
    }
}

} // verus!
