//! State of the counting exercise: a single counter that a button increments.
use vstd::prelude::*;

verus! {

/// The counter's state.
#[derive(Clone, Copy, PartialEq, Eq, Debug)]
pub struct AppData {
    pub count: u64,
}

impl AppData {
    /// A counter that starts at zero.
    pub fn new() -> (r: AppData)
        ensures
            r.count == 0,
    {
        AppData { count: 0 }
    }

    /// Adds one to the counter (what the "Count" button does).
    pub fn increment(&mut self)
        requires
            old(self).count < u64::MAX,
        ensures
            final(self).count == old(self).count + 1,
    {
        self.count = self.count + 1;
    }
}

} // verus!
