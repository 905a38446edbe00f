use vstd::prelude::*;

verus! {

/// What the suspense boundary of the demo is asked to render.
#[derive(PartialEq, Eq, Structural, Clone, Copy, Debug)]
pub enum SuspenseChild {
    /// The lazily loaded counter.
    LazyCounter,
    /// A child that never resolves, so the fallback stays on screen.
    Pending,
}

/// The state of the top-level demo: whether the lazy counter was asked for.
pub struct DemoState {
    pub show_lazy: bool,
}

/// The child that the suspense boundary holds for a given checkbox state.
pub open spec fn child_for(show_lazy: bool) -> SuspenseChild {
    if show_lazy {
        SuspenseChild::LazyCounter
    } else {
        SuspenseChild::Pending
    }
}

impl DemoState {
    /// The demo as it first renders: the lazy counter is not loaded.
    pub fn new() -> (r: DemoState)
        ensures
            !r.show_lazy,
    {
        DemoState { show_lazy: false }
    }

    /// An input event on the checkbox: the choice flips.
    pub fn toggle(&mut self)
        ensures
            final(self).show_lazy == !old(self).show_lazy,
    {
        self.show_lazy = !self.show_lazy;
    }

    /// The child to place inside the suspense boundary.
    pub fn suspense_child(&self) -> (r: SuspenseChild)
        ensures
            r == child_for(self.show_lazy),
    {
        if self.show_lazy {
            SuspenseChild::LazyCounter
        } else {
            SuspenseChild::Pending
        }
    }
}

} // verus!
