//! Resetting the per-frame resources.
use vstd::prelude::*;

use crate::commons::Rotation;
use crate::world::blockage::Blockage;
use crate::world::input_cache::{AxisType, InputCache};
use crate::world::physics_queue::{cleared_queue, PhysicsQueue};

verus! {

/// Resets the input, the requested moves and the blockage for a new frame.
pub struct EnvAllocator;

impl Default for EnvAllocator {
    fn default() -> (res: EnvAllocator) {
        EnvAllocator
    }
}

impl EnvAllocator {
    /// Forgets the frame's input, its requested moves and its blockage.
    pub fn run(&mut self, input_cache: &mut InputCache, queue: &mut PhysicsQueue, blockage: &mut Blockage)
        ensures
            final(input_cache).axis == AxisType::Still,
            final(input_cache).rotation == Rotation::Still,
            !final(input_cache).shoot,
            final(queue)@ == cleared_queue(),
            final(blockage).is_clear(),
    {
        input_cache.clear();
        queue.clear();
        blockage.clear();
    }
}

} // verus!
