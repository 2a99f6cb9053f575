//! The input of the present frame, reduced to one request.
use vstd::prelude::*;

use crate::commons::Rotation;

verus! {

/// A request to move the piece.
#[derive(Clone, Copy, Debug, PartialEq, Eq, Structural)]
pub enum AxisType {
    Right,
    Left,
    Down,
    Still,
}

/// The requests of the present frame. Axis values are given by their sign:
/// positive, negative or zero.
#[derive(Debug)]
pub struct InputCache {
    pub axis: AxisType,
    pub rotation: Rotation,
    pub shoot: bool,
}

impl Default for InputCache {
    fn default() -> (res: InputCache)
        ensures
            res.axis == AxisType::Still,
            res.rotation == Rotation::Still,
            !res.shoot,
    {
        InputCache { axis: AxisType::Still, rotation: Rotation::Still, shoot: false }
    }
}

impl InputCache {
    /// Records the first request of the frame, in this order of precedence:
    /// right, left, down, turn right, turn left, shoot. Only that request
    /// is written; the others keep their values.
    pub fn update_input(
        &mut self,
        horizontal: i32,
        vertical: i32,
        right_rotate: bool,
        left_rotate: bool,
        shoot: bool,
    )
        ensures
            horizontal > 0 ==> final(self).axis == AxisType::Right,
            horizontal < 0 ==> final(self).axis == AxisType::Left,
            horizontal == 0 && vertical < 0 ==> final(self).axis == AxisType::Down,
            !(horizontal != 0 || vertical < 0) ==> final(self).axis == old(self).axis,
            (horizontal == 0 && vertical >= 0 && right_rotate) ==> final(self).rotation
                == Rotation::Right,
            (horizontal == 0 && vertical >= 0 && !right_rotate && left_rotate) ==> final(self).rotation == Rotation::Left,
            !(horizontal == 0 && vertical >= 0 && (right_rotate || left_rotate)) ==> final(self).rotation == old(self).rotation,
            (horizontal == 0 && vertical >= 0 && !right_rotate && !left_rotate && shoot)
                ==> final(self).shoot,
            !(horizontal == 0 && vertical >= 0 && !right_rotate && !left_rotate && shoot)
                ==> final(self).shoot == old(self).shoot,
    {
        if horizontal > 0 {
            self.axis = AxisType::Right;
        } else if horizontal < 0 {
            self.axis = AxisType::Left;
        } else if vertical < 0 {
            self.axis = AxisType::Down;
        } else if right_rotate {
            self.rotation = Rotation::Right;
        } else if left_rotate {
            self.rotation = Rotation::Left;
        } else if shoot {
            self.shoot = true;
        }
    }

    /// Forgets every request.
    pub fn clear(&mut self)
        ensures
            final(self).axis == AxisType::Still,
            final(self).rotation == Rotation::Still,
            !final(self).shoot,
    {
        self.axis = AxisType::Still;
        self.rotation = Rotation::Still;
        self.shoot = false;
    }
}

} // verus!
