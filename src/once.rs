//! A setup step that is run at most once.
use vstd::prelude::*;

verus! {

/// Holds a setup callable until it is run; afterwards holds nothing, so a
/// second trigger does nothing.
pub struct OneShot<F> {
    slot: Option<F>,
}

/// One call of `take`: it hands out what `before` held and leaves nothing.
pub open spec fn take_step<F>(before: OneShot<F>, after: OneShot<F>, r: Option<F>) -> bool {
    r == before.pending() && after.pending() is None
}

impl<F> OneShot<F> {
    /// The callable that has not run yet, if any.
    pub closed spec fn pending(&self) -> Option<F> {
        self.slot
    }

    /// A slot that holds `f`, to be run later.
    pub fn new(f: F) -> (r: Self)
        ensures
            r.pending() == Some(f),
    {
        OneShot { slot: Some(f) }
    }

    /// A slot with nothing to run.
    pub fn spent() -> (r: Self)
        ensures
            r.pending() is None,
    {
        OneShot { slot: None }
    }

    /// True once the callable has been handed out, or if there was none.
    pub fn is_spent(&self) -> (r: bool)
        ensures
            r == (self.pending() is None),
    {
        self.slot.is_none()
    }

    /// Hands out the callable, if it has not been handed out before.
    pub fn take(&mut self) -> (r: Option<F>)
        ensures
            take_step(*old(self), *final(self), r),
    {
        self.slot.take()
    }
}

impl<F: FnOnce()> OneShot<F> {
    /// Runs the callable if it has not run yet; does nothing otherwise.
    pub fn run(&mut self)
        requires
            old(self).pending() matches Some(f) ==> call_requires(f, ()),
        ensures
            final(self).pending() is None,
            old(self).pending() matches Some(f) ==> call_ensures(f, (), ()),
    {
        if let Some(f) = self.take() {
            f();
        }
    }
}

/// Taking twice hands out the callable at most once: the second take finds
/// nothing, whatever the first found.
pub proof fn lemma_runs_at_most_once<F>(
    a: OneShot<F>,
    b: OneShot<F>,
    c: OneShot<F>,
    first: Option<F>,
    second: Option<F>,
)
    requires
        take_step(a, b, first),
        take_step(b, c, second),
    ensures
        second is None,
        c.pending() is None,
{
}

} // verus!
