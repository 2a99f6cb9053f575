//! Turning raw key states into the frame's input: a held key repeats its
//! move slowly and does not repeat a turn or a shot.
use vstd::prelude::*;

use crate::world::input_cache::InputCache;

verus! {

/// How a key has been pressed over the last frames.
#[derive(Clone, Copy, Debug, PartialEq, Eq, Structural)]
pub enum KeyPressType {
    /// Pressed this frame, not the frame before.
    Click,
    /// Pressed this frame and the frame before.
    Hold,
    /// Not pressed this frame.
    Released,
}

/// The state of a key after one more frame in which it is pressed.
pub open spec fn pressed_again(k: KeyPressType) -> KeyPressType {
    match k {
        KeyPressType::Released => KeyPressType::Click,
        KeyPressType::Click => KeyPressType::Hold,
        KeyPressType::Hold => KeyPressType::Hold,
    }
}

/// The state of a key after a frame: released when `released`, otherwise
/// one more frame pressed.
pub open spec fn key_after(k: KeyPressType, released: bool) -> KeyPressType {
    if released {
        KeyPressType::Released
    } else {
        pressed_again(k)
    }
}

/// The press state of every key the game reads.
pub struct KeyStatus {
    pub horizontal: KeyPressType,
    pub vertical: KeyPressType,
    pub right_rotate: KeyPressType,
    pub left_rotate: KeyPressType,
    pub shoot: KeyPressType,
}

impl Default for KeyStatus {
    fn default() -> (res: KeyStatus)
        ensures
            res.horizontal == KeyPressType::Released,
            res.vertical == KeyPressType::Released,
            res.right_rotate == KeyPressType::Released,
            res.left_rotate == KeyPressType::Released,
            res.shoot == KeyPressType::Released,
    {
        KeyStatus {
            horizontal: KeyPressType::Released,
            vertical: KeyPressType::Released,
            right_rotate: KeyPressType::Released,
            left_rotate: KeyPressType::Released,
            shoot: KeyPressType::Released,
        }
    }
}

fn next_press(k: KeyPressType, released: bool) -> (res: KeyPressType)
    ensures
        res == key_after(k, released),
{
    if released {
        return KeyPressType::Released;
    }
    match k {
        KeyPressType::Released => KeyPressType::Click,
        KeyPressType::Click => KeyPressType::Hold,
        KeyPressType::Hold => KeyPressType::Hold,
    }
}

impl KeyStatus {
    /// Updates the horizontal axis; `set_to_none` is the sign of the axis
    /// value, and zero releases it.
    pub fn update_hor(&mut self, set_to_none: i32)
        ensures
            final(self).horizontal == key_after(old(self).horizontal, set_to_none == 0),
            final(self).vertical == old(self).vertical,
            final(self).right_rotate == old(self).right_rotate,
            final(self).left_rotate == old(self).left_rotate,
            final(self).shoot == old(self).shoot,
    {
        self.horizontal = next_press(self.horizontal, set_to_none == 0);
    }

    /// Updates the vertical axis; `set_to_none` is the sign of the axis
    /// value, and zero releases it.
    pub fn update_ver(&mut self, set_to_none: i32)
        ensures
            final(self).vertical == key_after(old(self).vertical, set_to_none == 0),
            final(self).horizontal == old(self).horizontal,
            final(self).right_rotate == old(self).right_rotate,
            final(self).left_rotate == old(self).left_rotate,
            final(self).shoot == old(self).shoot,
    {
        self.vertical = next_press(self.vertical, set_to_none == 0);
    }

    /// Updates the turn-right key; `set_to_none` releases it.
    pub fn update_right(&mut self, set_to_none: bool)
        ensures
            final(self).right_rotate == key_after(old(self).right_rotate, set_to_none),
            final(self).horizontal == old(self).horizontal,
            final(self).vertical == old(self).vertical,
            final(self).left_rotate == old(self).left_rotate,
            final(self).shoot == old(self).shoot,
    {
        self.right_rotate = next_press(self.right_rotate, set_to_none);
    }

    /// Updates the turn-left key; `set_to_none` releases it.
    pub fn update_left(&mut self, set_to_none: bool)
        ensures
            final(self).left_rotate == key_after(old(self).left_rotate, set_to_none),
            final(self).horizontal == old(self).horizontal,
            final(self).vertical == old(self).vertical,
            final(self).right_rotate == old(self).right_rotate,
            final(self).shoot == old(self).shoot,
    {
        self.left_rotate = next_press(self.left_rotate, set_to_none);
    }

    /// Updates the shoot key; `set_to_none` releases it.
    pub fn update_shoot(&mut self, set_to_none: bool)
        ensures
            final(self).shoot == key_after(old(self).shoot, set_to_none),
            final(self).horizontal == old(self).horizontal,
            final(self).vertical == old(self).vertical,
            final(self).right_rotate == old(self).right_rotate,
            final(self).left_rotate == old(self).left_rotate,
    {
        self.shoot = next_press(self.shoot, set_to_none);
    }
}

/// How long a held horizontal key waits between repeats, in microseconds.
pub const HOR_DELAY: i64 = 150_000;

/// How long a held vertical key waits between repeats, in microseconds.
pub const VER_DELAY: i64 = 70_000;

/// Sanitizes the frame's raw key states into the frame's input.
pub struct KeyInputSystem {
    pub key_interval: Option<u64>,
    pub key_status: KeyStatus,
    pub axis_delay: (i64, i64),
}

/// A held axis key: while its wait lasts, the axis reads zero and the wait
/// shrinks by the frame's time; once the wait is over, the axis passes
/// through once and the wait starts again. Gives the new wait and whether
/// the axis passes.
pub open spec fn held_axis(wait: i64, dtime: u32, full_wait: i64) -> (i64, bool) {
    if wait >= 0 {
        ((wait - dtime) as i64, false)
    } else {
        (full_wait, true)
    }
}

fn hold_step(wait: i64, dtime: u32, full_wait: i64) -> (res: (i64, bool))
    ensures
        res == held_axis(wait, dtime, full_wait),
{
    if wait >= 0 {
        (wait - dtime as i64, false)
    } else {
        (full_wait, true)
    }
}

impl KeyInputSystem {
    /// The press states of the keys.
    pub open spec fn status(&self) -> (KeyPressType, KeyPressType, KeyPressType, KeyPressType, KeyPressType) {
        (
            self.key_status.horizontal,
            self.key_status.vertical,
            self.key_status.right_rotate,
            self.key_status.left_rotate,
            self.key_status.shoot,
        )
    }

    /// The waits of the held horizontal and vertical keys.
    pub open spec fn waits(&self) -> (i64, i64) {
        self.axis_delay
    }

    /// No key pressed, full waits.
    pub fn new() -> (res: Self)
        ensures
            res.key_interval is None,
            res.status() == (
                KeyPressType::Released,
                KeyPressType::Released,
                KeyPressType::Released,
                KeyPressType::Released,
                KeyPressType::Released,
            ),
            res.waits() == (HOR_DELAY, VER_DELAY),
    {
        KeyInputSystem { key_interval: None, key_status: KeyStatus::default(), axis_delay: (HOR_DELAY, VER_DELAY) }
    }

    /// Updates the press state of every key from the frame's raw key states.
    pub fn update_key_status(
        &mut self,
        horizontal_value: i32,
        vertical_value: i32,
        right_value: bool,
        left_value: bool,
        shoot_value: bool,
    )
        ensures
            final(self).status() == (
                key_after(old(self).status().0, horizontal_value == 0),
                key_after(old(self).status().1, vertical_value == 0),
                key_after(old(self).status().2, !right_value),
                key_after(old(self).status().3, !left_value),
                key_after(old(self).status().4, !shoot_value),
            ),
            final(self).waits() == old(self).waits(),
            final(self).key_interval == old(self).key_interval,
    {
        self.key_status.update_hor(horizontal_value);
        self.key_status.update_ver(vertical_value);
        self.key_status.update_right(!right_value);
        self.key_status.update_left(!left_value);
        self.key_status.update_shoot(!shoot_value);
    }

    /// Holds back the input of held keys: a held axis passes only once per
    /// wait, a held turn or shot does not pass.
    pub fn delay_hold_input(
        &mut self,
        horizontal_value: &mut i32,
        vertical_value: &mut i32,
        right_value: &mut bool,
        left_value: &mut bool,
        shoot_value: &mut bool,
        dtime: u32,
    )
        ensures
            final(self).status() == old(self).status(),
            final(self).key_interval == old(self).key_interval,
            ({
                let h = held_axis(old(self).waits().0, dtime, HOR_DELAY);
                if old(self).status().0 == KeyPressType::Hold {
                    &&& final(self).waits().0 == h.0
                    &&& *final(horizontal_value) == if h.1 { *old(horizontal_value) } else { 0 }
                } else {
                    &&& final(self).waits().0 == old(self).waits().0
                    &&& *final(horizontal_value) == *old(horizontal_value)
                }
            }),
            ({
                let v = held_axis(old(self).waits().1, dtime, VER_DELAY);
                if old(self).status().1 == KeyPressType::Hold {
                    &&& final(self).waits().1 == v.0
                    &&& *final(vertical_value) == if v.1 { *old(vertical_value) } else { 0 }
                } else {
                    &&& final(self).waits().1 == old(self).waits().1
                    &&& *final(vertical_value) == *old(vertical_value)
                }
            }),
            *final(right_value) == (*old(right_value) && old(self).status().2 != KeyPressType::Hold),
            *final(left_value) == (*old(left_value) && old(self).status().3 != KeyPressType::Hold),
            *final(shoot_value) == (*old(shoot_value) && old(self).status().4 != KeyPressType::Hold),
    {
        if let KeyPressType::Hold = self.key_status.horizontal {
            let (wait, pass) = hold_step(self.axis_delay.0, dtime, HOR_DELAY);
            self.axis_delay.0 = wait;
            if !pass {
                *horizontal_value = 0;
            }
        }
        if let KeyPressType::Hold = self.key_status.vertical {
            let (wait, pass) = hold_step(self.axis_delay.1, dtime, VER_DELAY);
            self.axis_delay.1 = wait;
            if !pass {
                *vertical_value = 0;
            }
        }
        if let KeyPressType::Hold = self.key_status.right_rotate {
            *right_value = false;
        }
        if let KeyPressType::Hold = self.key_status.left_rotate {
            *left_value = false;
        }
        if let KeyPressType::Hold = self.key_status.shoot {
            *shoot_value = false;
        }
    }

    /// One frame of input: updates the press states, holds back the input
    /// of held keys and records the first surviving request in the input
    /// cache. Gives back the sanitized input (horizontal, vertical, turn
    /// right, turn left, shoot).
    pub fn run(
        &mut self,
        input_cache: &mut InputCache,
        horizontal: i32,
        vertical: i32,
        rotate_right: bool,
        rotate_left: bool,
        shoot: bool,
        dtime: u32,
    ) -> (res: (i32, i32, bool, bool, bool))
        ensures
            ({
                let st = (
                    key_after(old(self).status().0, horizontal == 0),
                    key_after(old(self).status().1, vertical == 0),
                    key_after(old(self).status().2, !rotate_right),
                    key_after(old(self).status().3, !rotate_left),
                    key_after(old(self).status().4, !shoot),
                );
                let h = held_axis(old(self).waits().0, dtime, HOR_DELAY);
                let v = held_axis(old(self).waits().1, dtime, VER_DELAY);
                &&& final(self).status() == st
                &&& res.0 == if st.0 == KeyPressType::Hold && !h.1 { 0 } else { horizontal }
                &&& res.1 == if st.1 == KeyPressType::Hold && !v.1 { 0 } else { vertical }
                &&& res.2 == (rotate_right && st.2 != KeyPressType::Hold)
                &&& res.3 == (rotate_left && st.3 != KeyPressType::Hold)
                &&& res.4 == (shoot && st.4 != KeyPressType::Hold)
                &&& final(self).waits().0 == if st.0 == KeyPressType::Hold { h.0 } else { old(self).waits().0 }
                &&& final(self).waits().1 == if st.1 == KeyPressType::Hold { v.0 } else { old(self).waits().1 }
            }),
            res.0 > 0 ==> final(input_cache).axis == crate::world::input_cache::AxisType::Right,
            res.0 < 0 ==> final(input_cache).axis == crate::world::input_cache::AxisType::Left,
            res.0 == 0 && res.1 < 0 ==> final(input_cache).axis == crate::world::input_cache::AxisType::Down,
            !(res.0 != 0 || res.1 < 0) ==> final(input_cache).axis == old(input_cache).axis,
            (res.0 == 0 && res.1 >= 0 && res.2) ==> final(input_cache).rotation == crate::commons::Rotation::Right,
            (res.0 == 0 && res.1 >= 0 && !res.2 && res.3) ==> final(input_cache).rotation == crate::commons::Rotation::Left,
            !(res.0 == 0 && res.1 >= 0 && (res.2 || res.3)) ==> final(input_cache).rotation == old(input_cache).rotation,
            (res.0 == 0 && res.1 >= 0 && !res.2 && !res.3 && res.4) ==> final(input_cache).shoot,
            !(res.0 == 0 && res.1 >= 0 && !res.2 && !res.3 && res.4) ==> final(input_cache).shoot == old(input_cache).shoot,
    {
        let mut h = horizontal;
        let mut v = vertical;
        let mut r = rotate_right;
        let mut l = rotate_left;
        let mut s = shoot;
        self.update_key_status(h, v, r, l, s);
        self.delay_hold_input(&mut h, &mut v, &mut r, &mut l, &mut s, dtime);
        input_cache.update_input(h, v, r, l, s);
        (h, v, r, l, s)
    }
}

/// A key pressed in two frames in a row is held after the second: a turn
/// or a shot then passes only in the first of them.
pub proof fn law_held_key_passes_once(k: KeyPressType)
    ensures
        key_after(key_after(k, true), false) == KeyPressType::Click,
        key_after(key_after(key_after(k, true), false), false) == KeyPressType::Hold,
        key_after(KeyPressType::Hold, false) == KeyPressType::Hold,
{
}

} // verus!
