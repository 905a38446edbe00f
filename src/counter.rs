use vstd::prelude::*;

verus! {

/// The state behind one counter widget: how many times its button was pressed.
pub struct CounterState {
    pub count: i32,
}

impl CounterState {
    /// A counter that has not been pressed yet.
    pub fn new() -> (r: CounterState)
        ensures
            r.count == 0,
    {
        CounterState { count: 0 }
    }

    /// Whether one more press can be counted without leaving `i32`.
    pub fn can_increment(&self) -> (r: bool)
        ensures
            r == (self.count < i32::MAX),
    {
        self.count < i32::MAX
    }

    /// A press of the `+1` button: the count goes up by one.
    pub fn increment(&mut self)
        requires
            old(self).count < i32::MAX,
        ensures
            final(self).count == old(self).count + 1,
    {
        self.count = self.count + 1;
    }
}

} // verus!
