use vstd::prelude::*;
use std::marker::PhantomData;
use crate::policy::{Once, TaskPolicy};
use crate::semaphore::{PermitOp, Semaphore, acquires, releases, permits_trace_valid, lemma_admission_bounded};

verus! {

/// Phase of a pool that has not started: tasks may be spawned.
#[derive(Debug, Clone, Copy, PartialEq, Eq, Structural)]
pub struct New;

/// Phase of a started pool: it may be joined.
#[derive(Debug, Clone, Copy, PartialEq, Eq, Structural)]
pub struct Running;

/// Phase of a joined pool: it can only be queried.
#[derive(Debug, Clone, Copy, PartialEq, Eq, Structural)]
pub struct Stopped;

/// The bookkeeping of a bounded-concurrency pool, tagged with its phase.
///
/// Each spawned task is registered under an id, its place in spawn order;
/// `handles` lists the ids not yet joined. Only `spawn` adds to it and only
/// `join` drains it. The running flag is set by `start` and cleared by
/// `join`, so it is true exactly in phase `Running`. Phases move one way:
/// `New` to `Running` to `Stopped`.
#[derive(Debug)]
pub struct ThreadPool<T: TaskPolicy = Once, State = New> {
    max_concurrency: usize,
    handles: Vec<usize>,
    running: bool,
    _marker: PhantomData<T>,
    _state: PhantomData<State>,
}

impl<T: TaskPolicy, State> ThreadPool<T, State> {
    /// The most tasks that may execute at once.
    pub closed spec fn capacity(&self) -> nat {
        self.max_concurrency as nat
    }

    /// Ids of the spawned tasks not yet joined, in spawn order.
    pub closed spec fn handles(&self) -> Seq<usize> {
        self.handles@
    }

    /// The running flag.
    pub closed spec fn running(&self) -> bool {
        self.running
    }

    /// `post` is `pre` with every field kept but the running flag, which is `running`.
    pub open spec fn retagged<U>(pre: ThreadPool<T, State>, post: ThreadPool<T, U>, running: bool) -> bool {
        &&& post.capacity() == pre.capacity()
        &&& post.handles() == pre.handles()
        &&& post.running() == running
    }

    /// Every pending id is its place in spawn order.
    pub open spec fn wf(&self) -> bool {
        forall|i: int| 0 <= i < self.handles().len() ==> #[trigger] self.handles()[i] == i
    }

    /// Whether the pool is running.
    pub fn is_running(&self) -> (r: bool)
        ensures
            r == self.running(),
    {
        self.running
    }

    /// Whether the pool is not running.
    pub fn is_stopped(&self) -> (r: bool)
        ensures
            r == !self.running(),
    {
        !self.is_running()
    }

    /// The most tasks that may execute at once.
    pub fn max_concurrency(&self) -> (r: usize)
        ensures
            r == self.capacity(),
    {
        self.max_concurrency
    }

    /// The admission control of this pool: a semaphore with one permit
    /// for each task that may execute at once.
    pub fn semaphore(&self) -> (s: Semaphore)
        ensures
            s.permits() == self.capacity(),
    {
        Semaphore::new(self.max_concurrency)
    }

    /// The same pool in another phase, every field kept.
    fn to<U>(self) -> (r: ThreadPool<T, U>)
        ensures
            ThreadPool::<T, State>::retagged(self, r, self.running()),
    {
        ThreadPool {
            max_concurrency: self.max_concurrency,
            handles: self.handles,
            running: self.running,
            _marker: PhantomData,
            _state: PhantomData,
        }
    }
}

impl ThreadPool {
    /// A pool in phase `New` that lets `max_concurrency` tasks execute at
    /// once, with no task spawned and the running flag clear.
    pub fn new(max_concurrency: usize) -> (p: ThreadPool)
        ensures
            p.wf(),
            p.capacity() == max_concurrency,
            p.handles() == Seq::<usize>::empty(),
            !p.running(),
    {
        ThreadPool {
            max_concurrency,
            handles: Vec::new(),
            running: false,
            _marker: PhantomData,
            _state: PhantomData,
        }
    }
}

impl<T: TaskPolicy> ThreadPool<T, New> {
    /// Registers one task and returns its id, the number of tasks
    /// registered before it.
    pub fn spawn(&mut self) -> (id: usize)
        requires
            old(self).wf(),
        ensures
            final(self).wf(),
            id == old(self).handles().len(),
            final(self).handles() == old(self).handles().push(id),
            final(self).capacity() == old(self).capacity(),
            final(self).running() == old(self).running(),
    {
        let id = self.handles.len();
        self.handles.push(id);
        assert forall|i: int| 0 <= i < self.handles().len() implies #[trigger] self.handles()[i] == i by {
            if i < id {
                assert(self.handles()[i] == old(self).handles()[i]);
            }
        }
        id
    }

    /// Registers `count` tasks and returns their ids in order.
    pub fn spawns(&mut self, count: usize) -> (ids: Vec<usize>)
        requires
            old(self).wf(),
        ensures
            final(self).wf(),
            ids@.len() == count,
            forall|i: int| 0 <= i < count ==> #[trigger] ids@[i] == old(self).handles().len() + i,
            final(self).handles() == old(self).handles() + ids@,
            final(self).capacity() == old(self).capacity(),
            final(self).running() == old(self).running(),
    {
        let mut ids: Vec<usize> = Vec::new();
        let mut k: usize = 0;
        while k < count
            invariant
                self.wf(),
                k <= count,
                ids@.len() == k,
                forall|i: int| 0 <= i < k ==> #[trigger] ids@[i] == old(self).handles().len() + i,
                self.handles() == old(self).handles() + ids@,
                self.capacity() == old(self).capacity(),
                self.running() == old(self).running(),
            decreases count - k,
        {
            let id = self.spawn();
            ids.push(id);
            k = k + 1;
        }
        ids
    }

    /// `post` is `pre` after `start`.
    pub open spec fn started(pre: ThreadPool<T, New>, post: ThreadPool<T, Running>) -> bool {
        ThreadPool::<T, New>::retagged(pre, post, true)
    }

    /// Sets the running flag and moves to phase `Running`.
    pub fn start(self) -> (p: ThreadPool<T, Running>)
        ensures
            ThreadPool::<T, New>::started(self, p),
    {
        let mut s = self;
        s.running = true;
        s.to()
    }

    /// `start` followed by `join`: the stopped pool, and the ids of the
    /// tasks to wait for, in spawn order.
    pub fn run(self) -> (r: (ThreadPool<T, Stopped>, Vec<usize>))
        ensures
            !r.0.running(),
            r.0.capacity() == self.capacity(),
            r.0.handles() == Seq::<usize>::empty(),
            r.1@ == self.handles(),
    {
        self.start().join()
    }
}

impl<T: TaskPolicy> ThreadPool<T, Running> {
    /// `post` is `pre` after a `join` that drained `ids`.
    pub open spec fn joined(pre: ThreadPool<T, Running>, post: ThreadPool<T, Stopped>, ids: Seq<usize>) -> bool {
        &&& !post.running()
        &&& post.capacity() == pre.capacity()
        &&& post.handles() == Seq::<usize>::empty()
        &&& ids == pre.handles()
    }

    /// Drains the registered ids, clears the running flag and moves to
    /// phase `Stopped`. Returns the stopped pool and the drained ids, in
    /// spawn order: the tasks to wait for.
    pub fn join(self) -> (r: (ThreadPool<T, Stopped>, Vec<usize>))
        ensures
            ThreadPool::<T, Running>::joined(self, r.0, r.1@),
    {
        let mut s = self;
        let mut drained: Vec<usize> = Vec::new();
        std::mem::swap(&mut s.handles, &mut drained);
        s.running = false;
        (s.to(), drained)
    }
}

/// The running flag follows the lifecycle: it is set once `start` has
/// returned and clear once `join` has returned, and `join` hands back the
/// id of every task spawned before `start`, in spawn order.
pub proof fn lemma_lifecycle_flag<T: TaskPolicy>(
    fresh: ThreadPool<T, New>,
    running: ThreadPool<T, Running>,
    stopped: ThreadPool<T, Stopped>,
    ids: Seq<usize>,
)
    requires
        fresh.wf(),
        ThreadPool::<T, New>::started(fresh, running),
        ThreadPool::<T, Running>::joined(running, stopped, ids),
    ensures
        running.running(),
        !stopped.running(),
        ids == fresh.handles(),
        forall|i: int| 0 <= i < ids.len() ==> #[trigger] ids[i] == i,
        stopped.capacity() == fresh.capacity(),
{
}

/// A pool never executes more tasks at once than its capacity: along any
/// sequence of releases and successful acquires on the pool's semaphore,
/// the permits held never exceed the pool's capacity.
pub proof fn lemma_pool_admission_bounded<T: TaskPolicy, State>(
    pool: ThreadPool<T, State>,
    states: Seq<Semaphore>,
    ops: Seq<PermitOp>,
)
    requires
        states.len() > 0,
        states[0].permits() == pool.capacity(),
        permits_trace_valid(states, ops),
    ensures
        forall|k: int|
            0 <= k <= ops.len() ==> acquires(#[trigger] ops.take(k)) - releases(ops.take(k))
                <= pool.capacity(),
{
    lemma_admission_bounded(states, ops);
}

} // verus!
