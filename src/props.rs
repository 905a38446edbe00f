use vstd::prelude::*;

verus! {

/// The properties of a counter widget: the heading shown above the count.
#[derive(Clone, Debug, PartialEq)]
pub struct CounterProps {
    pub label: String,
}

impl CounterProps {
    /// Properties that show `label` as the heading.
    pub fn new(label: String) -> (r: CounterProps)
        ensures
            r.label@ == label@,
    {
        CounterProps { label }
    }
}

} // verus!
