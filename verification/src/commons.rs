use vstd::prelude::*;

verus! {

/// Identifier of an entity of the game world (a block, a piece's parent).
pub type EntityId = u32;

/// Orientation of the moving piece, or a rotation request.
#[derive(Clone, Copy, Debug, PartialEq, Eq, Structural)]
pub enum Rotation {
    Up,
    Right,
    Down,
    Left,
    Still,
}

/// The orientation reached from `current` by a quarter turn in `direction`.
/// Turning by anything but `Right` or `Left`, or turning the `Still`
/// orientation, changes nothing.
pub open spec fn rotated(current: Rotation, direction: Rotation) -> Rotation {
    match direction {
        Rotation::Right => match current {
            Rotation::Up => Rotation::Right,
            Rotation::Right => Rotation::Down,
            Rotation::Down => Rotation::Left,
            Rotation::Left => Rotation::Up,
            Rotation::Still => Rotation::Still,
        },
        Rotation::Left => match current {
            Rotation::Up => Rotation::Left,
            Rotation::Left => Rotation::Down,
            Rotation::Down => Rotation::Right,
            Rotation::Right => Rotation::Up,
            Rotation::Still => Rotation::Still,
        },
        _ => current,
    }
}

/// A quarter turn one way followed by a quarter turn the other way
/// gives back the orientation one started from.
pub proof fn lemma_rotation_undone(current: Rotation)
    ensures
        rotated(rotated(current, Rotation::Right), Rotation::Left) == current,
        rotated(rotated(current, Rotation::Left), Rotation::Right) == current,
{
}

/// Four quarter turns in the same direction give back the orientation one
/// started from.
pub proof fn lemma_full_turn(current: Rotation, direction: Rotation)
    ensures
        rotated(rotated(rotated(rotated(current, direction), direction), direction), direction)
            == current,
{
}

} // verus!
