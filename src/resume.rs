//! The signal that lets the prompt go on once no answer is outstanding.
use vstd::prelude::*;

verus! {

/// A flag that stays raised until it is taken: raising it again before that
/// changes nothing, and a raise before anyone waits is not lost.
pub struct ResumeLatch {
    raised: bool,
}

impl View for ResumeLatch {
    type V = bool;

    closed spec fn view(&self) -> bool {
        self.raised
    }
}

impl ResumeLatch {
    /// A latch that is not raised.
    pub fn new() -> (r: ResumeLatch)
        ensures
            !r@,
    {
        ResumeLatch { raised: false }
    }

    /// Raises the latch; raising a raised latch leaves it as it was.
    pub fn raise(&mut self)
        ensures
            final(self)@,
    {
        self.raised = true;
    }

    /// Whether the latch is raised.
    pub fn is_raised(&self) -> (r: bool)
        ensures
            r == self@,
    {
        self.raised
    }

    /// Lowers the latch and tells whether it was raised: one raise, or many
    /// before it, lets exactly one take go on.
    pub fn take(&mut self) -> (r: bool)
        ensures
            r == old(self)@,
            !final(self)@,
    {
        let r = self.raised;
        self.raised = false;
        r
    }
}

} // verus!
