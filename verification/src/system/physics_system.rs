//! The physics of the moving piece, one frame at a time: the frame's input
//! becomes requested moves, the field decides which of them go through.
use vstd::prelude::*;

use crate::commons::{rotated, Rotation};
use crate::component::dyn_block::{main_span, sub_span, DynBlockHandler};
use crate::config::Offset;
use crate::consts::{BLOCK_SIZE, GAME_HEIGHT};
use crate::system::physics_rules::{sat_add, 
    all_probes_in_bounds, allowed_moves, any_down_stop, any_left_stop, any_right_stop,
    apply_blockage, axis_move, axis_stops, clamp64, lemma_allowed_moves_len, shoot_distance,
    shoot_rows, shoot_safe, sweep_blocked, sweep_is_blocked, turn_allowed, SweepLimits,
};
use crate::world::block_data::{BlockData, Row};
use crate::world::blockage::Blockage;
use crate::world::input_cache::{AxisType, InputCache};
use crate::world::physics_queue::{
    cleared_queue, queued_moves, PhysicsQueue, PhysicsQueueView,
};

verus! {

/// Which spans of the piece a turn check uses.
#[derive(Clone, Copy, Debug, PartialEq, Eq, Structural)]
pub enum OffsetType {
    Main,
    Sub,
}

/// What a physics system leaves for the world to do to the piece's parent.
pub enum PhysicsOutcome {
    /// Nothing: there is no piece.
    Idle,
    /// Shift the piece vertically by this many pixels (a shot).
    Shoot(i64),
    /// Translate the piece by these pixel amounts, then turn it (or not, for `Still`).
    Moved { translations: Vec<(i64, i64)>, rotation: Rotation },
}

/// The physics of the moving piece, keeping the translation gathered in a frame.
pub struct PhysicsSystem {
    movement_cache: (i64, i64),
}

impl Default for PhysicsSystem {
    fn default() -> (res: PhysicsSystem)
        ensures
            res.cache() == (0i64, 0i64),
    {
        PhysicsSystem { movement_cache: (0, 0) }
    }
}

/// The blockage after looking around every block of the piece moved by
/// `cache`; a block that cannot move down also stops a shot.
pub open spec fn with_axis_check(
    b: Blockage,
    grid: Seq<Row>,
    blocks: Seq<(i64, i64)>,
    cache: (i64, i64),
) -> Blockage {
    Blockage {
        axis_right: b.axis_right || any_right_stop(grid, blocks, cache),
        axis_left: b.axis_left || any_left_stop(grid, blocks, cache),
        axis_down: b.axis_down || any_down_stop(grid, blocks, cache),
        shoot: b.shoot || any_down_stop(grid, blocks, cache),
        ..b
    }
}

/// The pixel step between the cells that a turn sweeps: along the piece's
/// long axis for the main spans, across it for the secondary ones.
pub open spec fn turn_step(facing: Rotation, offset_type: OffsetType) -> (i64, i64) {
    match facing {
        Rotation::Up | Rotation::Down => if offset_type == OffsetType::Main {
            (45i64, 0i64)
        } else {
            (0i64, 45i64)
        },
        Rotation::Right | Rotation::Left => if offset_type == OffsetType::Main {
            (0i64, 45i64)
        } else {
            (45i64, 0i64)
        },
        Rotation::Still => (0i64, 0i64),
    }
}

/// The spans that a turn right and a turn left sweep.
pub open spec fn turn_spans(
    offset: Option<Offset>,
    sub_offset: Option<Offset>,
    facing: Rotation,
    offset_type: OffsetType,
) -> ((i64, i64), (i64, i64)) {
    if offset_type == OffsetType::Main {
        (main_span(offset, facing, Rotation::Right), main_span(offset, facing, Rotation::Left))
    } else {
        (sub_span(sub_offset, facing, Rotation::Right), sub_span(sub_offset, facing, Rotation::Left))
    }
}

/// The blockage after sweeping the cells of both turns.
pub open spec fn with_turn_check(
    b: Blockage,
    grid: Seq<Row>,
    offset: Option<Offset>,
    sub_offset: Option<Offset>,
    facing: Rotation,
    origin: (i64, i64),
    offset_type: OffsetType,
) -> Blockage {
    let spans = turn_spans(offset, sub_offset, facing, offset_type);
    let step = turn_step(facing, offset_type);
    Blockage {
        rotate_right: b.rotate_right || sweep_blocked(
            grid,
            origin,
            step,
            SweepLimits::RightTurn,
            spans.0,
        ),
        rotate_left: b.rotate_left || sweep_blocked(
            grid,
            origin,
            step,
            SweepLimits::LeftTurn,
            spans.1,
        ),
        ..b
    }
}

/// The queue after the frame's input is turned into requests: the axis
/// move is appended, a turn replaces every earlier request, and the shot
/// request is set.
pub open spec fn requested_queue(q: PhysicsQueueView, input: InputCache) -> PhysicsQueueView {
    let q1 = match axis_move(input.axis) {
        Some(m) => PhysicsQueueView { queue: Some(queued_moves(q).push(m)), ..q },
        None => q,
    };
    let q2 = if input.rotation == Rotation::Right || input.rotation == Rotation::Left {
        PhysicsQueueView { rotation: Some(input.rotation), ..cleared_queue() }
    } else {
        q1
    };
    PhysicsQueueView { shoot: input.shoot, ..q2 }
}

/// The requested turn, `Still` if none.
pub open spec fn requested_turn(q: PhysicsQueueView) -> Rotation {
    match q.rotation {
        Some(r) => r,
        None => Rotation::Still,
    }
}

/// The blockage after the turn checks of a requested turn: the main spans
/// are swept if the piece has them (otherwise both turns are unblocked),
/// then the secondary spans if it has them.
pub open spec fn turn_checked(
    b: Blockage,
    grid: Seq<Row>,
    offset: Option<Offset>,
    sub_offset: Option<Offset>,
    facing: Rotation,
    origin: (i64, i64),
    turn: Rotation,
) -> Blockage {
    if turn == Rotation::Right || turn == Rotation::Left {
        let b1 = if offset is Some {
            with_turn_check(b, grid, offset, sub_offset, facing, origin, OffsetType::Main)
        } else {
            Blockage { rotate_left: false, rotate_right: false, ..b }
        };
        if sub_offset is Some {
            with_turn_check(b1, grid, offset, sub_offset, facing, origin, OffsetType::Sub)
        } else {
            b1
        }
    } else {
        b
    }
}

/// Carrying out the surviving translations one at a time, last requested
/// first: each is added to the gathered translation, the piece is looked
/// around at its new place and the remaining requests are filtered again.
/// Gives the final blockage, the surviving turn and the gathered translation.
pub open spec fn settle(
    grid: Seq<Row>,
    blocks: Seq<(i64, i64)>,
    q: Seq<(i64, i64)>,
    turn: Rotation,
    b: Blockage,
    cache: (i64, i64),
) -> (Blockage, Rotation, (i64, i64))
    decreases q.len(),
{
    if q.len() == 0 {
        (b, turn, cache)
    } else {
        let m = q.last();
        let c2 = (clamp64(cache.0 + m.0), clamp64(cache.1 + m.1));
        let b2 = with_axis_check(b, grid, blocks, c2);
        proof {
            lemma_allowed_moves_len(q.drop_last(), b2);
        }
        settle(grid, blocks, allowed_moves(q.drop_last(), b2), turn_allowed(turn, b2), b2, c2)
    }
}

/// The state of a physics frame once the input is requested and checked,
/// before any move is carried out: the queue, the blockage, the surviving
/// translations and the surviving turn.
pub struct CheckedFrame {
    pub queue: PhysicsQueueView,
    pub blockage: Blockage,
    pub moves: Seq<(i64, i64)>,
    pub turn: Rotation,
}

/// The checked state of a frame of the physics system.
pub open spec fn checked_frame(
    q: PhysicsQueueView,
    input: InputCache,
    b: Blockage,
    grid: Seq<Row>,
    offset: Option<Offset>,
    sub_offset: Option<Offset>,
    facing: Rotation,
    origin: (i64, i64),
    blocks: Seq<(i64, i64)>,
) -> CheckedFrame {
    let q3 = requested_queue(q, input);
    let turn0 = requested_turn(q3);
    let bt = turn_checked(b, grid, offset, sub_offset, facing, origin, turn0);
    let ba = with_axis_check(bt, grid, blocks, (0, 0));
    CheckedFrame {
        queue: q3,
        blockage: ba,
        moves: allowed_moves(queued_moves(q3), ba),
        turn: turn_allowed(turn0, ba),
    }
}

/// The frame shoots the piece: a shot is requested and nothing stops it.
pub open spec fn frame_shoots(f: CheckedFrame) -> bool {
    f.queue.shoot && !f.blockage.shoot
}

/// The turn that the piece makes at the end of a frame.
pub open spec fn applied_turn(offset: Option<Offset>, turn: Rotation) -> Rotation {
    if offset is Some && (turn == Rotation::Right || turn == Rotation::Left) {
        turn
    } else {
        Rotation::Still
    }
}

/// Only a piece with main spans turns: without them the frame makes no turn
/// and the piece keeps facing the same way; with them it makes the turn that
/// survived the checks, if that is a right or left turn, and no other.
pub proof fn law_turn_needs_main_spans(offset: Option<Offset>, turn: Rotation, facing: Rotation)
    ensures
        offset is None ==> applied_turn(offset, turn) == Rotation::Still,
        offset is Some && (turn == Rotation::Right || turn == Rotation::Left) ==> applied_turn(
            offset,
            turn,
        ) == turn,
        !(turn == Rotation::Right || turn == Rotation::Left) ==> applied_turn(offset, turn)
            == Rotation::Still,
        rotated(facing, Rotation::Still) == facing,
{
}

/// The blocks lie no higher than the top row, and no requested
/// translation goes up: looking around the blocks stays inside the field's
/// rows however far they move.
pub open spec fn frame_in_bounds(blocks: Seq<(i64, i64)>, q: PhysicsQueueView) -> bool {
    &&& forall|i: int| 0 <= i < blocks.len() ==> (#[trigger] blocks[i]).1 <= GAME_HEIGHT
    &&& forall|i: int|
        0 <= i < queued_moves(q).len() ==> (#[trigger] queued_moves(q)[i]).1 <= 0
}

pub proof fn lemma_probes_in_bounds(blocks: Seq<(i64, i64)>, cache: (i64, i64))
    requires
        forall|i: int| 0 <= i < blocks.len() ==> (#[trigger] blocks[i]).1 <= GAME_HEIGHT,
        cache.1 <= 0,
    ensures
        all_probes_in_bounds(blocks, cache),
{
}

/// Looking around the blocks stays inside the field's rows at every step of
/// carrying out the translations: at the gathered translation now and after
/// each translation still to come.
pub open spec fn settle_in_bounds(
    grid: Seq<Row>,
    blocks: Seq<(i64, i64)>,
    q: Seq<(i64, i64)>,
    turn: Rotation,
    b: Blockage,
    cache: (i64, i64),
) -> bool
    decreases q.len(),
{
    if q.len() == 0 {
        all_probes_in_bounds(blocks, cache)
    } else {
        let m = q.last();
        let c2 = (clamp64(cache.0 + m.0), clamp64(cache.1 + m.1));
        let b2 = with_axis_check(b, grid, blocks, c2);
        proof {
            lemma_allowed_moves_len(q.drop_last(), b2);
        }
        &&& all_probes_in_bounds(blocks, cache)
        &&& all_probes_in_bounds(blocks, c2)
        &&& settle_in_bounds(
            grid,
            blocks,
            allowed_moves(q.drop_last(), b2),
            turn_allowed(turn, b2),
            b2,
            c2,
        )
    }
}

proof fn lemma_settle_in_bounds(
    grid: Seq<Row>,
    blocks: Seq<(i64, i64)>,
    q: Seq<(i64, i64)>,
    turn: Rotation,
    b: Blockage,
    cache: (i64, i64),
)
    requires
        forall|i: int| 0 <= i < blocks.len() ==> (#[trigger] blocks[i]).1 <= GAME_HEIGHT,
        forall|i: int| 0 <= i < q.len() ==> (#[trigger] q[i]).1 <= 0,
        cache.1 <= 0,
    ensures
        settle_in_bounds(grid, blocks, q, turn, b, cache),
    decreases q.len(),
{
    lemma_probes_in_bounds(blocks, cache);
    if q.len() > 0 {
        let m = q.last();
        let c2 = (clamp64(cache.0 + m.0), clamp64(cache.1 + m.1));
        let b2 = with_axis_check(b, grid, blocks, c2);
        assert(m.1 <= 0);
        lemma_probes_in_bounds(blocks, c2);
        let rest = allowed_moves(q.drop_last(), b2);
        lemma_allowed_moves_sub(q.drop_last(), b2);
        lemma_allowed_moves_len(q.drop_last(), b2);
        assert forall|i: int| 0 <= i < rest.len() implies (#[trigger] rest[i]).1 <= 0 by {
            let j = choose|j: int| 0 <= j < q.drop_last().len() && rest[i] == q.drop_last()[j];
            assert(q.drop_last()[j] == q[j]);
        }
        lemma_settle_in_bounds(grid, blocks, rest, turn_allowed(turn, b2), b2, c2);
    }
}

/// When the blocks lie no higher than the top row and no requested
/// translation goes up, every look around the blocks in a frame stays
/// inside the field's rows.
pub proof fn law_frame_in_bounds_suffices(
    q: PhysicsQueueView,
    input: InputCache,
    b: Blockage,
    grid: Seq<Row>,
    offset: Option<Offset>,
    sub_offset: Option<Offset>,
    facing: Rotation,
    origin: (i64, i64),
    blocks: Seq<(i64, i64)>,
)
    requires
        frame_in_bounds(blocks, q),
    ensures
        all_probes_in_bounds(blocks, (0, 0)),
        ({
            let f = checked_frame(q, input, b, grid, offset, sub_offset, facing, origin, blocks);
            settle_in_bounds(grid, blocks, f.moves, f.turn, f.blockage, (0, 0))
        }),
{
    let f = checked_frame(q, input, b, grid, offset, sub_offset, facing, origin, blocks);
    lemma_probes_in_bounds(blocks, (0, 0));
    let all = queued_moves(f.queue);
    assert forall|i: int| 0 <= i < all.len() implies (#[trigger] all[i]).1 <= 0 by {
        if !(input.rotation == Rotation::Right || input.rotation == Rotation::Left) {
            if i < queued_moves(q).len() {
                assert(all[i] == queued_moves(q)[i]);
            }
        }
    }
    lemma_allowed_moves_sub(all, f.blockage);
    assert forall|i: int| 0 <= i < f.moves.len() implies (#[trigger] f.moves[i]).1 <= 0 by {
        let j = choose|j: int| 0 <= j < all.len() && f.moves[i] == all[j];
    }
    lemma_settle_in_bounds(grid, blocks, f.moves, f.turn, f.blockage, (0, 0));
}

pub proof fn lemma_allowed_moves_sub(q: Seq<(i64, i64)>, b: Blockage)
    ensures
        forall|i: int|
            0 <= i < allowed_moves(q, b).len() ==> exists|j: int|
                0 <= j < q.len() && #[trigger] allowed_moves(q, b)[i] == q[j],
    decreases q.len(),
{
    if q.len() > 0 {
        lemma_allowed_moves_sub(q.drop_last(), b);
        let rest = allowed_moves(q.drop_last(), b);
        assert forall|i: int| 0 <= i < allowed_moves(q, b).len() implies exists|j: int|
            0 <= j < q.len() && #[trigger] allowed_moves(q, b)[i] == q[j] by {
            if i < rest.len() {
                let j = choose|j: int| 0 <= j < q.drop_last().len() && rest[i] == q.drop_last()[j];
                assert(q[j] == q.drop_last()[j]);
            } else {
                assert(allowed_moves(q, b)[i] == q[q.len() - 1]);
            }
        }
    }
}

impl PhysicsSystem {
    /// The translation gathered in the last frame.
    pub closed spec fn cache(&self) -> (i64, i64) {
        self.movement_cache
    }

    /// Looks around every block of the piece, moved by the translation
    /// gathered so far, and blocks the moves that something is in the way of.
    pub fn check_axis_block(
        &self,
        dyn_blocks: &Vec<(i64, i64)>,
        block_data: &BlockData,
        blockage: &mut Blockage,
    )
        requires
            block_data.wf(),
            all_probes_in_bounds(dyn_blocks@, self.cache()),
        ensures
            *final(blockage) == with_axis_check(
                *old(blockage),
                block_data@,
                dyn_blocks@,
                self.cache(),
            ),
    {
        let (right, left, down) = axis_stops(dyn_blocks, self.movement_cache, block_data);
        if right {
            blockage.axis_right = true;
        }
        if left {
            blockage.axis_left = true;
        }
        if down {
            blockage.axis_down = true;
            blockage.shoot = true;
        }
    }

    /// Sweeps the cells that each turn of the piece passes through, by the
    /// main or the secondary spans, and blocks a turn that meets the edge of
    /// the field or a settled block.
    pub fn check_rotataion_block(
        &self,
        handler: &DynBlockHandler,
        origin: (i64, i64),
        block_data: &BlockData,
        blockage: &mut Blockage,
        offset_type: OffsetType,
    )
        requires
            block_data.wf(),
        ensures
            *final(blockage) == with_turn_check(
                *old(blockage),
                block_data@,
                handler.config.offset,
                handler.config.sub_offset,
                handler.rotation,
                origin,
                offset_type,
            ),
    {
        let right_offset: (i64, i64);
        let left_offset: (i64, i64);
        if let OffsetType::Main = offset_type {
            right_offset = handler.get_count(Rotation::Right);
            left_offset = handler.get_count(Rotation::Left);
        } else {
            right_offset = handler.get_sub_count(Rotation::Right);
            left_offset = handler.get_sub_count(Rotation::Left);
        }
        let step: (i64, i64) = match handler.rotation {
            Rotation::Up | Rotation::Down => if let OffsetType::Main = offset_type {
                (BLOCK_SIZE, 0)
            } else {
                (0, BLOCK_SIZE)
            },
            Rotation::Right | Rotation::Left => if let OffsetType::Main = offset_type {
                (0, BLOCK_SIZE)
            } else {
                (BLOCK_SIZE, 0)
            },
            _ => (0, 0),
        };
        if sweep_is_blocked(block_data, origin, step, SweepLimits::RightTurn, right_offset) {
            blockage.rotate_right = true;
        }
        if sweep_is_blocked(block_data, origin, step, SweepLimits::LeftTurn, left_offset) {
            blockage.rotate_left = true;
        }
    }

    /// How far, in pixels, the piece falls when it is shot down.
    pub fn get_shoot_distance(&self, dyn_blocks: &Vec<(i64, i64)>, block_data: &BlockData) -> (res:
        i64)
        requires
            block_data.wf(),
            shoot_safe(dyn_blocks@),
        ensures
            res == shoot_rows(block_data@, dyn_blocks@, dyn_blocks@.len() as int) * BLOCK_SIZE,
    {
        shoot_distance(dyn_blocks, block_data)
    }

    /// Drops the requested translations and turn that the blockage stops.
    pub fn set_blockage(&self, queue: &mut Vec<(i64, i64)>, rotation: &mut Rotation, blockage: &Blockage)
        ensures
            final(queue)@ == allowed_moves(old(queue)@, *blockage),
            *final(rotation) == turn_allowed(*old(rotation), *blockage),
    {
        apply_blockage(queue, rotation, blockage);
    }

    /// One frame of the piece's physics. Without a piece nothing happens.
    /// Otherwise the frame's axis input is appended to the queue, a turn
    /// request replaces the queue's contents and the shot request is set;
    /// the turn and the requested translations are checked against the field.
    /// A shot that nothing stops drops the piece as far as it can fall.
    /// Otherwise the surviving translations are carried out one at a time,
    /// last first, re-checking after each, and the surviving turn is made if
    /// the piece has main spans.
    pub fn run(
        &mut self,
        handler: &mut DynBlockHandler,
        input_cache: &InputCache,
        blockage: &mut Blockage,
        queue: &mut PhysicsQueue,
        block_data: &BlockData,
        dyn_blocks: &Vec<(i64, i64)>,
        origin: (i64, i64),
    ) -> (res: PhysicsOutcome)
        requires
            block_data.wf(),
            old(handler).blocks@.len() > 0 ==> {
                let f = checked_frame(
                    old(queue)@,
                    *input_cache,
                    *old(blockage),
                    block_data@,
                    old(handler).config.offset,
                    old(handler).config.sub_offset,
                    old(handler).rotation,
                    origin,
                    dyn_blocks@,
                );
                &&& all_probes_in_bounds(dyn_blocks@, (0, 0))
                &&& frame_shoots(f) ==> shoot_safe(dyn_blocks@)
                &&& !frame_shoots(f) ==> settle_in_bounds(
                    block_data@,
                    dyn_blocks@,
                    f.moves,
                    f.turn,
                    f.blockage,
                    (0, 0),
                )
            },
        ensures
            final(handler).blocks == old(handler).blocks,
            final(handler).config == old(handler).config,
            final(handler).parent == old(handler).parent,
            old(handler).config.offset is None ==> final(handler).rotation == old(handler).rotation,
            old(handler).config.offset is None ==> (res matches PhysicsOutcome::Moved {
                rotation,
                ..
            } ==> rotation == Rotation::Still),
            old(handler).blocks@.len() == 0 ==> {
                &&& res is Idle
                &&& final(queue)@ == old(queue)@
                &&& *final(blockage) == *old(blockage)
                &&& final(handler).rotation == old(handler).rotation
                &&& final(self).cache() == old(self).cache()
            },
            old(handler).blocks@.len() > 0 ==> {
                let f = checked_frame(
                    old(queue)@,
                    *input_cache,
                    *old(blockage),
                    block_data@,
                    old(handler).config.offset,
                    old(handler).config.sub_offset,
                    old(handler).rotation,
                    origin,
                    dyn_blocks@,
                );
                &&& final(queue)@ == f.queue
                &&& if frame_shoots(f) {
                    &&& res == PhysicsOutcome::Shoot(
                        -(shoot_rows(block_data@, dyn_blocks@, dyn_blocks@.len() as int)
                            * BLOCK_SIZE) as i64,
                    )
                    &&& *final(blockage) == f.blockage
                    &&& final(handler).rotation == old(handler).rotation
                    &&& final(self).cache() == (0i64, 0i64)
                } else {
                    let s = settle(block_data@, dyn_blocks@, f.moves, f.turn, f.blockage, (0, 0));
                    let t = applied_turn(old(handler).config.offset, s.1);
                    &&& res matches PhysicsOutcome::Moved { translations, rotation } && translations@
                        == seq![s.2] && rotation == t
                    &&& *final(blockage) == s.0
                    &&& final(handler).rotation == rotated(old(handler).rotation, t)
                    &&& final(self).cache() == s.2
                }
            },
    {
        if handler.blocks.len() == 0 {
            return PhysicsOutcome::Idle;
        }
        let ghost q0 = queue@;
        let ghost b0 = *blockage;
        let ghost f = checked_frame(
            q0,
            *input_cache,
            b0,
            block_data@,
            handler.config.offset,
            handler.config.sub_offset,
            handler.rotation,
            origin,
            dyn_blocks@,
        );
        match input_cache.axis {
            AxisType::Right => {
                queue.add_to_queue((BLOCK_SIZE, 0));
            },
            AxisType::Left => {
                queue.add_to_queue((-BLOCK_SIZE, 0));
            },
            AxisType::Down => {
                queue.add_to_queue((0, -BLOCK_SIZE));
            },
            AxisType::Still => {},
        }
        match input_cache.rotation {
            Rotation::Right | Rotation::Left => {
                queue.set_offset(handler.get_count(input_cache.rotation));
                queue.set_sub_offset(handler.get_sub_count(input_cache.rotation));
                queue.set_rotation(input_cache.rotation);
            },
            _ => {},
        }
        queue.set_shoot(input_cache.shoot);
        proof {
            assert(queue@ == f.queue);
        }
        self.movement_cache = (0, 0);
        let mut new_queue = match queue.get_queue() {
            Some(q) => q,
            None => Vec::new(),
        };
        let mut rotation = match queue.get_rotation() {
            Some(r) => r,
            None => Rotation::Still,
        };
        proof {
            assert(new_queue@ =~= queued_moves(f.queue));
        }
        match rotation {
            Rotation::Right | Rotation::Left => {
                if handler.config.offset.is_some() {
                    self.check_rotataion_block(
                        handler,
                        origin,
                        block_data,
                        blockage,
                        OffsetType::Main,
                    );
                } else {
                    blockage.block_rotation();
                }
                if handler.config.sub_offset.is_some() {
                    self.check_rotataion_block(
                        handler,
                        origin,
                        block_data,
                        blockage,
                        OffsetType::Sub,
                    );
                }
            },
            _ => {},
        }
        self.check_axis_block(dyn_blocks, block_data, blockage);
        let ghost all_moves = new_queue@;
        self.set_blockage(&mut new_queue, &mut rotation, blockage);
        proof {
            assert(*blockage == f.blockage);
            assert(new_queue@ == f.moves);
            assert(rotation == f.turn);
        }
        if queue.get_shoot() && !blockage.shoot {
            let distance = self.get_shoot_distance(dyn_blocks, block_data);
            return PhysicsOutcome::Shoot(-distance);
        }
        while new_queue.len() != 0
            invariant
                block_data.wf(),
                *blockage == with_axis_check(*blockage, block_data@, dyn_blocks@, self.movement_cache),
                settle_in_bounds(
                    block_data@,
                    dyn_blocks@,
                    new_queue@,
                    rotation,
                    *blockage,
                    self.movement_cache,
                ),
                settle(block_data@, dyn_blocks@, f.moves, f.turn, f.blockage, (0, 0)) == settle(
                    block_data@,
                    dyn_blocks@,
                    new_queue@,
                    rotation,
                    *blockage,
                    self.movement_cache,
                ),
            decreases new_queue@.len(),
        {
            let item = new_queue[new_queue.len() - 1];
            self.movement_cache = (
                sat_add(self.movement_cache.0, item.0),
                sat_add(self.movement_cache.1, item.1),
            );
            let ghost rest = new_queue@.drop_last();
            new_queue.pop();
            proof {
                assert(new_queue@ == rest);
            }
            self.check_axis_block(dyn_blocks, block_data, blockage);
            self.set_blockage(&mut new_queue, &mut rotation, blockage);
            proof {
                lemma_allowed_moves_len(rest, *blockage);
            }
        }
        let ghost settled = settle(block_data@, dyn_blocks@, f.moves, f.turn, f.blockage, (0, 0));
        proof {
            assert(settled == (*blockage, rotation, self.movement_cache));
        }
        let translation = self.movement_cache;
        let mut applied = Rotation::Still;
        if handler.config.offset.is_some() {
            match rotation {
                Rotation::Right => {
                    handler.rotate_handler(Rotation::Right);
                    applied = Rotation::Right;
                    self.check_axis_block(dyn_blocks, block_data, blockage);
                    self.set_blockage(&mut new_queue, &mut rotation, blockage);
                },
                Rotation::Left => {
                    handler.rotate_handler(Rotation::Left);
                    applied = Rotation::Left;
                    self.check_axis_block(dyn_blocks, block_data, blockage);
                    self.set_blockage(&mut new_queue, &mut rotation, blockage);
                },
                _ => {},
            }
        }
        self.check_axis_block(dyn_blocks, block_data, blockage);
        self.set_blockage(&mut new_queue, &mut rotation, blockage);
        proof {
            assert(*blockage == settled.0);
        }
        let mut translations: Vec<(i64, i64)> = Vec::new();
        translations.push(translation);
        proof {
            assert(translations@ =~= seq![settled.2]);
        }
        PhysicsOutcome::Moved { translations, rotation: applied }
    }
}

} // verus!
