use vstd::prelude::*;

verus! {

/// A one-shot result cell: empty until a producer sets it, then holding the
/// value until one consumer takes it.
///
/// A caller that shares the cell between threads keeps it under a lock and
/// waits until `is_ready()` before calling `get`.
#[derive(Debug)]
pub struct Promise<T> {
    value: Option<T>,
}

impl<T> Promise<T> {
    /// What the cell holds.
    pub closed spec fn slot(&self) -> Option<T> {
        self.value
    }

    /// `post` is `pre` after `set(value)`.
    pub open spec fn stored(pre: Promise<T>, value: T, post: Promise<T>) -> bool {
        post.slot() == Some(value)
    }

    /// `post` is `pre` after a `get` that returned `value`.
    pub open spec fn taken(pre: Promise<T>, value: T, post: Promise<T>) -> bool {
        &&& pre.slot() == Some(value)
        &&& post.slot() == None::<T>
    }

    /// An empty cell.
    pub fn new() -> (p: Promise<T>)
        ensures
            p.slot() == None::<T>,
    {
        Promise { value: None }
    }

    /// Stores `value`; a value already stored and not taken is replaced.
    pub fn set(&mut self, value: T)
        ensures
            Promise::stored(*old(self), value, *final(self)),
    {
        self.value = Some(value);
    }

    /// Whether a value is stored.
    pub fn is_ready(&self) -> (r: bool)
        ensures
            r == self.slot().is_some(),
    {
        self.value.is_some()
    }

    /// Takes the stored value out, leaving the cell empty.
    pub fn get(&mut self) -> (r: T)
        requires
            old(self).slot().is_some(),
        ensures
            Promise::taken(*old(self), r, *final(self)),
    {
        self.value.take().unwrap()
    }

    /// Takes the stored value out if there is one.
    pub fn try_get(&mut self) -> (r: Option<T>)
        ensures
            r == old(self).slot(),
            final(self).slot() == None::<T>,
    {
        self.value.take()
    }
}

/// The consumer receives exactly what the producer stored: a `get` after a
/// `set(value)` returns `value` and leaves the cell empty.
pub proof fn lemma_get_returns_set<T>(
    before: Promise<T>,
    value: T,
    filled: Promise<T>,
    got: T,
    after: Promise<T>,
)
    requires
        Promise::stored(before, value, filled),
        Promise::taken(filled, got, after),
    ensures
        got == value,
        after.slot() == None::<T>,
{
}

} // verus!
