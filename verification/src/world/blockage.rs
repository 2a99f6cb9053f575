//! Which moves of the piece are blocked this frame.
use vstd::prelude::*;

verus! {

/// For each move of the piece, whether something is in its way.
pub struct Blockage {
    pub axis_right: bool,
    pub axis_left: bool,
    pub axis_down: bool,
    pub rotate_right: bool,
    pub rotate_left: bool,
    pub shoot: bool,
}

impl Blockage {
    /// Nothing is blocked.
    pub open spec fn is_clear(&self) -> bool {
        &&& !self.axis_right
        &&& !self.axis_left
        &&& !self.axis_down
        &&& !self.rotate_right
        &&& !self.rotate_left
        &&& !self.shoot
    }

    /// Unblocks every move.
    pub fn clear(&mut self)
        ensures
            final(self).is_clear(),
    {
        self.axis_right = false;
        self.axis_left = false;
        self.axis_down = false;
        self.rotate_right = false;
        self.rotate_left = false;
        self.shoot = false;
    }

    /// Unblocks both turns; the other moves stay as they are.
    pub fn block_rotation(&mut self)
        ensures
            !final(self).rotate_left,
            !final(self).rotate_right,
            final(self).axis_right == old(self).axis_right,
            final(self).axis_left == old(self).axis_left,
            final(self).axis_down == old(self).axis_down,
            final(self).shoot == old(self).shoot,
    {
        self.rotate_left = false;
        self.rotate_right = false;
    }
}

impl Default for Blockage {
    fn default() -> (res: Blockage)
        ensures
            res.is_clear(),
    {
        Blockage {
            axis_right: false,
            axis_left: false,
            axis_down: false,
            rotate_right: false,
            rotate_left: false,
            shoot: false,
        }
    }
}

} // verus!
