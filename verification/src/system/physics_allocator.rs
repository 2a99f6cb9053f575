//! Turning the frame's input into requested moves of the piece.
use vstd::prelude::*;

use crate::commons::Rotation;
use crate::component::dyn_block::{main_span, sub_span, DynBlockHandler};
use crate::consts::BLOCK_SIZE;
use crate::system::physics_rules::axis_move;
use crate::world::input_cache::{AxisType, InputCache};
use crate::world::physics_queue::{queued_moves, shoot_checked, PhysicsQueue, PhysicsQueueView};

verus! {

/// Turns the frame's input into requested moves of the piece.
pub struct PhysicsAllocator;

impl Default for PhysicsAllocator {
    fn default() -> (res: PhysicsAllocator) {
        PhysicsAllocator
    }
}

impl PhysicsAllocator {
    /// Appends the frame's axis move to the queue; for a turn request,
    /// stores the spans the turn sweeps; then a requested shot drops every
    /// other request.
    pub fn run(&mut self, handler: &DynBlockHandler, input_cache: &InputCache, queue: &mut PhysicsQueue)
        ensures
            ({
                let q1 = match axis_move(input_cache.axis) {
                    Some(m) => PhysicsQueueView { queue: Some(queued_moves(old(queue)@).push(m)), ..old(queue)@ },
                    None => old(queue)@,
                };
                let q2 = if input_cache.rotation == Rotation::Right || input_cache.rotation
                    == Rotation::Left {
                    PhysicsQueueView {
                        offset: Some(
                            main_span(handler.config.offset, handler.rotation, input_cache.rotation),
                        ),
                        sub_offset: Some(
                            sub_span(
                                handler.config.sub_offset,
                                handler.rotation,
                                input_cache.rotation,
                            ),
                        ),
                        ..q1
                    }
                } else {
                    q1
                };
                final(queue)@ == shoot_checked(q2)
            }),
    {
        match input_cache.axis {
            AxisType::Right => {
                queue.add_to_queue((BLOCK_SIZE, 0));
            },
            AxisType::Left => {
                queue.add_to_queue((-BLOCK_SIZE, 0));
            },
            AxisType::Down => {
                queue.add_to_queue((0, -BLOCK_SIZE));
            },
            AxisType::Still => {},
        }
        match input_cache.rotation {
            Rotation::Right | Rotation::Left => {
                queue.set_offset(handler.get_count(input_cache.rotation));
                queue.set_sub_offset(handler.get_sub_count(input_cache.rotation));
            },
            _ => {},
        }
        queue.shoot_check();
    }
}

} // verus!
