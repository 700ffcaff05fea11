use vstd::prelude::*;

verus! {

/// A counting semaphore: the number of permits that are free.
///
/// `acquire` takes one permit and may only be called while one is free;
/// `release` puts one back. A caller that shares the semaphore between
/// threads keeps it under a lock and waits until `available() > 0`
/// before calling `acquire`.
#[derive(Debug)]
pub struct Semaphore {
    count: usize,
}

/// One operation on a semaphore, for reasoning about sequences of them.
#[derive(Debug, Clone, Copy, PartialEq, Eq, Structural)]
pub enum PermitOp {
    Acquire,
    Release,
}

impl Semaphore {
    /// The number of free permits.
    pub closed spec fn permits(&self) -> nat {
        self.count as nat
    }

    /// `post` is `pre` after one successful `acquire`.
    pub open spec fn acquired(pre: Semaphore, post: Semaphore) -> bool {
        pre.permits() > 0 && post.permits() == pre.permits() - 1
    }

    /// `post` is `pre` after one `release`.
    pub open spec fn released(pre: Semaphore, post: Semaphore) -> bool {
        post.permits() == pre.permits() + 1
    }

    /// A semaphore with `count` free permits.
    pub fn new(count: usize) -> (s: Semaphore)
        ensures
            s.permits() == count,
    {
        Semaphore { count }
    }

    /// The number of free permits.
    pub fn available(&self) -> (r: usize)
        ensures
            r == self.permits(),
    {
        self.count
    }

    /// Takes one free permit.
    pub fn acquire(&mut self)
        requires
            old(self).permits() > 0,
        ensures
            Semaphore::acquired(*old(self), *final(self)),
    {
        self.count = self.count - 1;
    }

    /// Takes one permit if one is free, and says whether it did.
    pub fn try_acquire(&mut self) -> (r: bool)
        ensures
            r == (old(self).permits() > 0),
            r ==> Semaphore::acquired(*old(self), *final(self)),
            !r ==> *final(self) == *old(self),
    {
        if self.count > 0 {
            self.acquire();
            true
        } else {
            false
        }
    }

    /// Puts one permit back.
    pub fn release(&mut self)
        requires
            old(self).permits() < usize::MAX,
        ensures
            Semaphore::released(*old(self), *final(self)),
    {
        self.count = self.count + 1;
    }
}

/// How many of `ops` are acquires.
pub open spec fn acquires(ops: Seq<PermitOp>) -> nat
    decreases ops.len(),
{
    if ops.len() == 0 {
        0
    } else {
        acquires(ops.drop_last()) + if ops.last() == PermitOp::Acquire { 1nat } else { 0nat }
    }
}

/// How many of `ops` are releases.
pub open spec fn releases(ops: Seq<PermitOp>) -> nat
    decreases ops.len(),
{
    if ops.len() == 0 {
        0
    } else {
        releases(ops.drop_last()) + if ops.last() == PermitOp::Release { 1nat } else { 0nat }
    }
}

/// `states` are the values a semaphore takes while `ops` are applied to it
/// one by one, every acquire having found a free permit.
pub open spec fn permits_trace_valid(states: Seq<Semaphore>, ops: Seq<PermitOp>) -> bool {
    &&& states.len() == ops.len() + 1
    &&& forall|i: int|
        0 <= i < ops.len() ==> match #[trigger] ops[i] {
            PermitOp::Acquire => Semaphore::acquired(states[i], states[i + 1]),
            PermitOp::Release => Semaphore::released(states[i], states[i + 1]),
        }
}

/// No permit is lost or made: after any sequence of releases and
/// successful acquires, the free permits are the initial ones plus the
/// releases minus the acquires.
pub proof fn lemma_permits_conserved(states: Seq<Semaphore>, ops: Seq<PermitOp>)
    requires
        permits_trace_valid(states, ops),
    ensures
        states.last().permits() == states[0].permits() + releases(ops) - acquires(ops),
    decreases ops.len(),
{
    if ops.len() > 0 {
        let n = ops.len() - 1;
        let s = states.take(n + 1);
        let o = ops.take(n);
        assert(o == ops.drop_last());
        assert forall|i: int| 0 <= i < o.len() implies match #[trigger] o[i] {
            PermitOp::Acquire => Semaphore::acquired(s[i], s[i + 1]),
            PermitOp::Release => Semaphore::released(s[i], s[i + 1]),
        } by {
            assert(o[i] == ops[i]);
        }
        lemma_permits_conserved(s, o);
        assert(ops[n] == ops.last());
    }
}

/// Admission is bounded: at every point of a sequence of releases and
/// successful acquires, the permits taken and not yet given back never
/// exceed the permits free at the start.
pub proof fn lemma_admission_bounded(states: Seq<Semaphore>, ops: Seq<PermitOp>)
    requires
        permits_trace_valid(states, ops),
    ensures
        forall|k: int|
            0 <= k <= ops.len() ==> acquires(#[trigger] ops.take(k)) <= releases(ops.take(k))
                + states[0].permits(),
{
    assert forall|k: int| 0 <= k <= ops.len() implies acquires(#[trigger] ops.take(k)) <= releases(ops.take(k))
        + states[0].permits() by {
        let s = states.take(k + 1);
        let o = ops.take(k);
        assert forall|i: int| 0 <= i < o.len() implies match #[trigger] o[i] {
            PermitOp::Acquire => Semaphore::acquired(s[i], s[i + 1]),
            PermitOp::Release => Semaphore::released(s[i], s[i + 1]),
        } by {
            assert(o[i] == ops[i]);
        }
        lemma_permits_conserved(s, o);
    }
}

} // verus!
