use vstd::prelude::*;

verus! {

/// Whether the game goes on or is over.
#[derive(Clone, Copy, Debug, PartialEq, Eq, Structural)]
pub enum GameEvent {
    Normal,
    GameOver,
}

/// Whether the field is to be searched for full rows this frame.
#[derive(Clone, Copy, Debug, PartialEq, Eq, Structural)]
pub enum CollapseStatus {
    Triggered,
    Idle,
}

} // verus!
