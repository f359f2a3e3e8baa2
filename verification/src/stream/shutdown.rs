//! The switch that ends what shows a page to viewers.
use vstd::prelude::*;

verus! {

/// A move of the switch for the end.
#[derive(PartialEq, Eq, Structural, Clone, Copy)]
pub struct ShutdownChange {
    /// Nobody is there any more who could move the switch.
    pub sender_gone: bool,
    /// Where the switch stands.
    pub requested: bool,
}

impl ShutdownChange {
    /// This is the end: it is asked for, or nobody is left who could ask.
    pub open spec fn ending(self) -> bool {
        self.sender_gone || self.requested
    }

    /// Tells whether this is the end.
    pub fn is_end(&self) -> (end: bool)
        ensures
            end == self.ending(),
    {
        self.sender_gone || self.requested
    }
}

} // verus!
