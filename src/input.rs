use vstd::prelude::*;

verus! {

/// Which of the controller's logical keys are held during one tick.
#[derive(Clone, Copy, Debug, PartialEq, Eq, Structural)]
pub struct InputSnapshot {
    pub left: bool,
    pub right: bool,
    pub jump: bool,
}

impl InputSnapshot {
    /// "move-left" is held and "move-right" is not.
    pub open spec fn only_left(self) -> bool {
        self.left && !self.right
    }

    /// "move-right" is held and "move-left" is not.
    pub open spec fn only_right(self) -> bool {
        self.right && !self.left
    }

    /// A snapshot with the given keys held.
    pub fn new(left: bool, right: bool, jump: bool) -> (r: InputSnapshot)
        ensures
            r.left == left,
            r.right == right,
            r.jump == jump,
    {
        InputSnapshot { left, right, jump }
    }
}

} // verus!
