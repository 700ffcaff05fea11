//! Bounded-concurrency task execution: the state of a counting semaphore,
//! a one-shot result cell, a one-shot release guard, the policy that decides
//! when a scheduled task may start, and a pool whose lifecycle phase is part
//! of its type.
//!
//! Every operation here is the state change of one step. Waiting (for a
//! permit, for a result, for threads to finish) is left to the caller, which
//! holds these values behind its own locks and calls a step once the
//! operation's precondition holds.

mod guard;
mod policy;
mod pool;
mod promise;
mod semaphore;

pub use guard::ScopeGuard;
pub use policy::{Once, TaskPolicy, ONCE_POLL_INTERVAL_MS};
pub use pool::{lemma_lifecycle_flag, lemma_pool_admission_bounded, New, Running, Stopped, ThreadPool};
pub use promise::{lemma_get_returns_set, Promise};
pub use semaphore::{
    acquires, lemma_admission_bounded, lemma_permits_conserved, permits_trace_valid, releases, PermitOp,
    Semaphore,
};
