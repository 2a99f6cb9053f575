//! Keeping the piece inside the field's columns.
use vstd::prelude::*;

use crate::consts::{BLOCK_SIZE, PLAY_PANE_WIDTH};

verus! {

/// Pushes the piece back inside the field when a block sticks out.
pub struct PutInsideSystem;

impl Default for PutInsideSystem {
    fn default() -> (res: PutInsideSystem) {
        PutInsideSystem
    }
}

/// The horizontal push, in pixels, that a block at `x` gives its piece: one
/// cell left beyond the rightmost column, one cell right left of the field,
/// none inside.
pub open spec fn inside_push(x: i64) -> i64 {
    if x > PLAY_PANE_WIDTH - BLOCK_SIZE {
        -45i64
    } else if x < 0 {
        45i64
    } else {
        0
    }
}

impl PutInsideSystem {
    /// For each block of the piece, in order, the horizontal push it gives
    /// the piece; the pushes add up.
    pub fn run(&mut self, block_xs: &Vec<i64>) -> (res: Vec<i64>)
        ensures
            res@.len() == block_xs@.len(),
            forall|i: int| 0 <= i < res@.len() ==> #[trigger] res@[i] == inside_push(block_xs@[i]),
    {
        let mut pushes: Vec<i64> = Vec::new();
        let mut i: usize = 0;
        while i < block_xs.len()
            invariant
                i <= block_xs@.len(),
                pushes@.len() == i,
                forall|j: int| 0 <= j < i ==> #[trigger] pushes@[j] == inside_push(block_xs@[j]),
            decreases block_xs@.len() - i,
        {
            let x = block_xs[i];
            if x > PLAY_PANE_WIDTH - BLOCK_SIZE {
                pushes.push(-BLOCK_SIZE);
            } else if x < 0 {
                pushes.push(BLOCK_SIZE);
            } else {
                pushes.push(0);
            }
            i = i + 1;
        }
        pushes
    }
}

} // verus!
