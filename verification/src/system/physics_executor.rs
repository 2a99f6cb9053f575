//! A one-pass physics of the piece: requested moves are checked
//! once against the field and then carried out together.
use vstd::prelude::*;

use crate::commons::{rotated, Rotation};
use crate::component::dyn_block::{main_span, sub_span, DynBlockHandler};
use crate::config::Offset;
use crate::consts::BLOCK_SIZE;
use crate::system::physics_rules::{
    all_probes_in_bounds, allowed_moves, any_down_stop, any_left_stop, any_right_stop,
    apply_blockage, axis_move, axis_stops, sweep_blocked, sweep_is_blocked, turn_allowed,
    SweepLimits,
};
use crate::system::physics_system::{requested_turn, PhysicsOutcome};
use crate::world::block_data::{BlockData, Row};
use crate::world::blockage::Blockage;
use crate::world::input_cache::{AxisType, InputCache};
use crate::world::physics_queue::{queued_moves, shoot_checked, PhysicsQueue, PhysicsQueueView};

verus! {

/// The one-pass physics of the moving piece.
pub struct PhysicsExecutor;

impl Default for PhysicsExecutor {
    fn default() -> (res: PhysicsExecutor) {
        PhysicsExecutor
    }
}

/// The blockage after looking around every block of the piece where it
/// stands: a block that cannot move right blocks the right turn, one that
/// cannot move left or down blocks that move.
pub open spec fn executor_axis_check(b: Blockage, grid: Seq<Row>, blocks: Seq<(i64, i64)>) -> Blockage {
    Blockage {
        rotate_right: b.rotate_right || any_right_stop(grid, blocks, (0, 0)),
        axis_left: b.axis_left || any_left_stop(grid, blocks, (0, 0)),
        axis_down: b.axis_down || any_down_stop(grid, blocks, (0, 0)),
        ..b
    }
}

/// The pixel step between the positions that a turn sweeps: one pixel
/// along the piece's long axis.
pub open spec fn executor_step(facing: Rotation) -> (i64, i64) {
    match facing {
        Rotation::Up | Rotation::Down => (1i64, 0i64),
        Rotation::Right | Rotation::Left => (0i64, 1i64),
        Rotation::Still => (0i64, 0i64),
    }
}

/// The blockage after sweeping the positions of both turns by the main spans.
pub open spec fn executor_turn_check(
    b: Blockage,
    grid: Seq<Row>,
    offset: Option<Offset>,
    facing: Rotation,
    origin: (i64, i64),
) -> Blockage {
    Blockage {
        rotate_right: b.rotate_right || sweep_blocked(
            grid,
            origin,
            executor_step(facing),
            SweepLimits::Loose,
            main_span(offset, facing, Rotation::Right),
        ),
        rotate_left: b.rotate_left || sweep_blocked(
            grid,
            origin,
            executor_step(facing),
            SweepLimits::Loose,
            main_span(offset, facing, Rotation::Left),
        ),
        ..b
    }
}

/// The queue after the frame's input: the axis move is appended, a turn
/// request stores the spans it sweeps, and a shot drops every other request.
pub open spec fn executor_queue(
    q: PhysicsQueueView,
    input: InputCache,
    offset: Option<Offset>,
    sub_offset: Option<Offset>,
    facing: Rotation,
) -> PhysicsQueueView {
    let q1 = match axis_move(input.axis) {
        Some(m) => PhysicsQueueView { queue: Some(queued_moves(q).push(m)), ..q },
        None => q,
    };
    let q2 = if input.rotation == Rotation::Right || input.rotation == Rotation::Left {
        PhysicsQueueView {
            offset: Some(main_span(offset, facing, input.rotation)),
            sub_offset: Some(sub_span(sub_offset, facing, input.rotation)),
            ..q1
        }
    } else {
        q1
    };
    shoot_checked(q2)
}

/// The blockage of a frame of the one-pass physics once everything is checked.
pub open spec fn executor_blockage(
    q: PhysicsQueueView,
    b: Blockage,
    grid: Seq<Row>,
    offset: Option<Offset>,
    facing: Rotation,
    origin: (i64, i64),
    blocks: Seq<(i64, i64)>,
) -> Blockage {
    executor_turn_check(executor_axis_check(b, grid, blocks), grid, offset, facing, origin)
}

/// A turn that is carried out: right or left.
pub open spec fn made_turn(turn: Rotation) -> Rotation {
    if turn == Rotation::Right || turn == Rotation::Left {
        turn
    } else {
        Rotation::Still
    }
}

impl PhysicsExecutor {
    /// Looks around every block of the piece where it stands.
    pub fn check_axis_block(
        &mut self,
        dyn_blocks: &Vec<(i64, i64)>,
        block_data: &BlockData,
        blockage: &mut Blockage,
    )
        requires
            block_data.wf(),
            all_probes_in_bounds(dyn_blocks@, (0, 0)),
        ensures
            *final(blockage) == executor_axis_check(*old(blockage), block_data@, dyn_blocks@),
    {
        let (right, left, down) = axis_stops(dyn_blocks, (0, 0), block_data);
        if right {
            blockage.rotate_right = true;
        }
        if left {
            blockage.axis_left = true;
        }
        if down {
            blockage.axis_down = true;
        }
    }

    /// Sweeps the positions that each turn of the piece passes through by
    /// its main spans, and blocks a turn that leaves the field's margin or
    /// meets a settled block.
    pub fn check_rotataion_block(
        &mut self,
        handler: &DynBlockHandler,
        origin: (i64, i64),
        block_data: &BlockData,
        blockage: &mut Blockage,
    )
        requires
            block_data.wf(),
        ensures
            *final(blockage) == executor_turn_check(
                *old(blockage),
                block_data@,
                handler.config.offset,
                handler.rotation,
                origin,
            ),
    {
        let right_offset = handler.get_count(Rotation::Right);
        let left_offset = handler.get_count(Rotation::Left);
        let step: (i64, i64) = match handler.rotation {
            Rotation::Up | Rotation::Down => (1, 0),
            Rotation::Right | Rotation::Left => (0, 1),
            _ => (0, 0),
        };
        if sweep_is_blocked(block_data, origin, step, SweepLimits::Loose, right_offset) {
            blockage.rotate_right = true;
        }
        if sweep_is_blocked(block_data, origin, step, SweepLimits::Loose, left_offset) {
            blockage.rotate_left = true;
        }
    }

    /// The distance a shot moves the piece: always none.
    pub fn get_shoot_distance(&self, dyn_blocks: &Vec<(i64, i64)>) -> (res: i64)
        ensures
            res == 0,
    {
        0
    }

    /// Drops the requested translations and turn that the blockage stops.
    pub fn set_blockage(&mut self, queue: &mut Vec<(i64, i64)>, rotation: &mut Rotation, blockage: &Blockage)
        ensures
            final(queue)@ == allowed_moves(old(queue)@, *blockage),
            *final(rotation) == turn_allowed(*old(rotation), *blockage),
    {
        apply_blockage(queue, rotation, blockage);
    }

    /// One frame of the one-pass physics: the frame's input is queued, the
    /// piece is checked where it stands, and the surviving translations and
    /// turn are carried out together; a shot that nothing stops moves the
    /// piece by nothing.
    pub fn run(
        &mut self,
        handler: &mut DynBlockHandler,
        input_cache: &InputCache,
        blockage: &mut Blockage,
        queue: &mut PhysicsQueue,
        block_data: &BlockData,
        dyn_blocks: &Vec<(i64, i64)>,
        origin: (i64, i64),
    ) -> (res: PhysicsOutcome)
        requires
            block_data.wf(),
            all_probes_in_bounds(dyn_blocks@, (0, 0)),
        ensures
            final(handler).blocks == old(handler).blocks,
            final(handler).config == old(handler).config,
            final(handler).parent == old(handler).parent,
            ({
                let q = executor_queue(
                    old(queue)@,
                    *input_cache,
                    old(handler).config.offset,
                    old(handler).config.sub_offset,
                    old(handler).rotation,
                );
                let b = executor_blockage(
                    q,
                    *old(blockage),
                    block_data@,
                    old(handler).config.offset,
                    old(handler).rotation,
                    origin,
                    dyn_blocks@,
                );
                &&& final(queue)@ == q
                &&& *final(blockage) == b
                &&& if q.shoot && !b.shoot {
                    &&& res == PhysicsOutcome::Shoot(0)
                    &&& final(handler).rotation == old(handler).rotation
                } else {
                    let t = made_turn(turn_allowed(requested_turn(q), b));
                    &&& res matches PhysicsOutcome::Moved { translations, rotation } && translations@
                        == allowed_moves(queued_moves(q), b) && rotation == t
                    &&& final(handler).rotation == rotated(old(handler).rotation, t)
                }
            }),
    {
        match input_cache.axis {
            AxisType::Right => {
                queue.add_to_queue((BLOCK_SIZE, 0));
            },
            AxisType::Left => {
                queue.add_to_queue((-BLOCK_SIZE, 0));
            },
            AxisType::Down => {
                queue.add_to_queue((0, -BLOCK_SIZE));
            },
            AxisType::Still => {},
        }
        match input_cache.rotation {
            Rotation::Right | Rotation::Left => {
                queue.set_offset(handler.get_count(input_cache.rotation));
                queue.set_sub_offset(handler.get_sub_count(input_cache.rotation));
            },
            _ => {},
        }
        queue.shoot_check();
        let mut new_queue = match queue.get_queue() {
            Some(q) => q,
            None => Vec::new(),
        };
        let mut rotation = match queue.get_rotation() {
            Some(r) => r,
            None => Rotation::Still,
        };
        proof {
            assert(new_queue@ =~= queued_moves(queue@));
        }
        self.check_axis_block(dyn_blocks, block_data, blockage);
        self.check_rotataion_block(handler, origin, block_data, blockage);
        self.set_blockage(&mut new_queue, &mut rotation, blockage);
        if queue.get_shoot() && !blockage.shoot {
            let distance = self.get_shoot_distance(dyn_blocks);
            return PhysicsOutcome::Shoot(distance);
        }
        match rotation {
            Rotation::Right => {
                handler.rotate_handler(Rotation::Right);
                PhysicsOutcome::Moved { translations: new_queue, rotation: Rotation::Right }
            },
            Rotation::Left => {
                handler.rotate_handler(Rotation::Left);
                PhysicsOutcome::Moved { translations: new_queue, rotation: Rotation::Left }
            },
            _ => PhysicsOutcome::Moved { translations: new_queue, rotation: Rotation::Still },
        }
    }
}

} // verus!
