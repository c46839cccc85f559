//! Per-character table of sprite-sheet frame ranges, one inclusive range for
//! each animation family.

use vstd::prelude::*;

verus! {

/// A frame range is usable by the frame selector when it is ordered and, if
/// it consists of a single frame, when that frame has a neighbour on each
/// side: the selector's bounce arithmetic steps one index below the end and
/// one index above the start.
pub open spec fn range_wf(start: usize, end: usize) -> bool {
    &&& start <= end
    &&& (start == end ==> 0 < start && start < usize::MAX)
}

/// Start and end indices within the shared sprite sheet for each animation
/// family: the four movement directions plus the one-shot celebration and
/// death sequences. Both ends of every range are inclusive. The table is
/// fixed at character-spawn time and never mutated afterwards.
#[derive(Clone, Copy, Debug)]
pub struct AnimationIndices {
    pub forward_start: usize,
    pub forward_end: usize,
    pub back_start: usize,
    pub back_end: usize,
    pub left_start: usize,
    pub left_end: usize,
    pub right_start: usize,
    pub right_end: usize,
    pub celebrate_start: usize,
    pub celebrate_end: usize,
    pub die_start: usize,
    pub die_end: usize,
}

impl AnimationIndices {
    /// Every animation family holds a usable frame range.
    pub open spec fn wf(self) -> bool {
        &&& range_wf(self.forward_start, self.forward_end)
        &&& range_wf(self.back_start, self.back_end)
        &&& range_wf(self.left_start, self.left_end)
        &&& range_wf(self.right_start, self.right_end)
        &&& range_wf(self.celebrate_start, self.celebrate_end)
        &&& range_wf(self.die_start, self.die_end)
    }
}

} // verus!
