use vstd::prelude::*;

verus! {

/// Holds a deferred action that runs at most once: `fire` runs it if it is
/// still pending, and `dismiss` takes it out. A caller ties `fire` to the
/// end of its scope (its own `Drop`), so that the action runs on every exit.
pub struct ScopeGuard<F: FnOnce()> {
    f: Option<F>,
}

impl<F: FnOnce()> ScopeGuard<F> {
    #[verifier::type_invariant]
    spec fn runnable(self) -> bool {
        self.f matches Some(g) ==> g.requires(())
    }

    /// The action still to run, if any.
    pub closed spec fn pending(&self) -> Option<F> {
        self.f
    }

    /// A guard holding `f`, pending.
    pub fn new(f: F) -> (g: ScopeGuard<F>)
        requires
            f.requires(()),
        ensures
            g.pending() == Some(f),
    {
        ScopeGuard { f: Some(f) }
    }

    /// Takes the action out, so that a later `fire` runs nothing.
    /// Only the first call hands the action out.
    pub fn dismiss(&mut self) -> (r: Option<F>)
        ensures
            r == old(self).pending(),
            final(self).pending() == None::<F>,
            r matches Some(g) ==> g.requires(()),
        no_unwind
    {
        proof {
            use_type_invariant(&*self);
        }
        let mut out: Option<F> = None;
        std::mem::swap(&mut self.f, &mut out);
        out
    }

    /// Runs the action if it is still pending; it never runs twice.
    pub fn fire(&mut self)
        ensures
            final(self).pending() == None::<F>,
            old(self).pending() matches Some(g) ==> g.ensures((), ()),
    {
        if let Some(g) = self.dismiss() {
            g();
        }
    }
}

} // verus!
