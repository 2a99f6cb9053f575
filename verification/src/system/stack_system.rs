//! Settling the piece: once it rests on something for long enough, or is
//! shot down, its blocks join the field.
use vstd::prelude::*;

use crate::commons::EntityId;
use crate::component::dyn_block::DynBlockHandler;
use crate::events::GameEvent;
use crate::system::physics_rules::{clamp64, sat_add};
use crate::world::block_data::{cell_of, on_field, with_block, BlockData, Row};
use crate::world::blockage::Blockage;
use crate::world::input_cache::{AxisType, InputCache};
use crate::world::physics_queue::PhysicsQueue;

verus! {

/// How long the piece rests before it settles, in microseconds.
pub const STACKDELAY: i64 = 300_000;

/// How much a sideways move lengthens the rest, in microseconds.
pub const SIDE_MOVE_GRACE: i64 = 10_000;

/// Where the piece stands in settling.
#[derive(Clone, Copy, Debug, PartialEq, Eq, Structural)]
pub enum StackStatus {
    /// Resting on something, counting down.
    TobeStacked,
    /// Shot down, settling at once.
    ShootStack,
    /// Not resting.
    Idle,
}

/// Counts down the piece's rest and settles it.
pub struct StackSystem {
    stack_delay: i64,
    stack_status: StackStatus,
}

/// The countdown and the status after a frame's bookkeeping (before any
/// settling): a resting piece counts down, the rest starts over when the
/// piece stops resting, a requested shot settles at once, and a sideways
/// move lengthens the rest.
pub open spec fn advanced(
    delay: i64,
    status: StackStatus,
    resting: bool,
    shot: bool,
    axis: AxisType,
    delta_us: u32,
) -> (i64, StackStatus) {
    let (d1, s1) = if status == StackStatus::ShootStack {
        (delay, status)
    } else {
        let d0 = if status == StackStatus::TobeStacked {
            clamp64(delay - delta_us)
        } else {
            delay
        };
        let (d, s) = if resting {
            (d0, StackStatus::TobeStacked)
        } else {
            (STACKDELAY, StackStatus::Idle)
        };
        (d, if shot { StackStatus::ShootStack } else { s })
    };
    let d2 = if axis == AxisType::Right || axis == AxisType::Left {
        clamp64(d1 + SIDE_MOVE_GRACE)
    } else {
        d1
    };
    (d2, s1)
}

/// The piece settles this frame: it rests on something, and it was shot
/// down or its countdown is over.
pub open spec fn settles(delay: i64, status: StackStatus, resting: bool) -> bool {
    resting && (status == StackStatus::ShootStack || delay <= 0)
}

/// The field after the blocks are put, in order, at the pixel positions,
/// and whether some block met a taken cell (such a block is not put).
pub open spec fn placed(grid: Seq<Row>, positions: Seq<(i64, i64)>, entities: Seq<EntityId>, n: int) -> (
    Seq<Row>,
    bool,
)
    decreases n,
{
    if n <= 0 {
        (grid, false)
    } else {
        let (g, clash) = placed(grid, positions, entities, n - 1);
        let p = positions[n - 1];
        let (c, r) = cell_of(p.0 as int, p.1 as int);
        if g[c][r] is None {
            (with_block(g, p.0 as int, p.1 as int, entities[n - 1]), clash)
        } else {
            (g, true)
        }
    }
}

/// The cells, as (row from the bottom, cell from the left), where a block
/// of the first `n` met a taken cell while being put on the field, in order.
pub open spec fn clashes(grid: Seq<Row>, positions: Seq<(i64, i64)>, entities: Seq<EntityId>, n: int) -> Seq<
    (int, int),
>
    decreases n,
{
    if n <= 0 {
        Seq::empty()
    } else {
        let g = placed(grid, positions, entities, n - 1).0;
        let p = positions[n - 1];
        let (c, r) = cell_of(p.0 as int, p.1 as int);
        if g[c][r] is None {
            clashes(grid, positions, entities, n - 1)
        } else {
            clashes(grid, positions, entities, n - 1).push((c, r))
        }
    }
}

/// A cell index pair as integers.
pub open spec fn cell_view(c: (usize, usize)) -> (int, int) {
    (c.0 as int, c.1 as int)
}

/// A piece settles only when it rests on something: a piece with nothing
/// under it never settles, whatever its countdown or a shot. A resting piece
/// that is shot down, or was shot before, settles at once. A resting piece
/// counting down with no shot and no sideways move settles exactly when the
/// frame's time uses up its rest. A piece that rests on nothing and is not
/// shot starts its rest over, lengthened by a sideways move.
pub proof fn law_settles_only_when_resting(
    delay: i64,
    status: StackStatus,
    resting: bool,
    shot: bool,
    axis: AxisType,
    delta_us: u32,
)
    ensures
        ({
            let a = advanced(delay, status, resting, shot, axis, delta_us);
            &&& settles(a.0, a.1, resting) ==> resting
            &&& resting && (shot || status == StackStatus::ShootStack) ==> settles(a.0, a.1, resting)
            &&& resting && !shot && status == StackStatus::TobeStacked && !(axis == AxisType::Right
                || axis == AxisType::Left) ==> (settles(a.0, a.1, resting) <==> delay - delta_us <= 0)
            &&& !resting && !shot && status != StackStatus::ShootStack ==> a.1 == StackStatus::Idle
                && a.0 == if axis == AxisType::Right || axis == AxisType::Left {
                STACKDELAY + SIDE_MOVE_GRACE
            } else {
                STACKDELAY as int
            }
        }),
{
}

impl StackSystem {
    /// The countdown of the rest.
    pub closed spec fn delay(&self) -> i64 {
        self.stack_delay
    }

    /// The settling status.
    pub closed spec fn status(&self) -> StackStatus {
        self.stack_status
    }

    /// A full countdown, not resting.
    pub fn new() -> (res: Self)
        ensures
            res.delay() == STACKDELAY,
            res.status() == StackStatus::Idle,
    {
        StackSystem { stack_delay: STACKDELAY, stack_status: StackStatus::Idle }
    }

    /// The frame's bookkeeping: without a piece nothing happens; otherwise
    /// the countdown and status advance. Returns whether the piece settles
    /// this frame.
    pub fn advance(
        &mut self,
        handler: &DynBlockHandler,
        queue: &PhysicsQueue,
        blockage: &Blockage,
        input_cache: &InputCache,
        delta_us: u32,
    ) -> (res: bool)
        ensures
            handler.blocks@.len() == 0 ==> !res && final(self).delay() == old(self).delay()
                && final(self).status() == old(self).status(),
            handler.blocks@.len() > 0 ==> {
                let a = advanced(
                    old(self).delay(),
                    old(self).status(),
                    blockage.axis_down,
                    queue@.shoot,
                    input_cache.axis,
                    delta_us,
                );
                &&& final(self).delay() == a.0
                &&& final(self).status() == a.1
                &&& res == settles(a.0, a.1, blockage.axis_down)
            },
            res ==> blockage.axis_down,
    {
        if handler.blocks.len() == 0 {
            return false;
        }
        match self.stack_status {
            StackStatus::TobeStacked | StackStatus::Idle => {
                if let StackStatus::TobeStacked = self.stack_status {
                    self.stack_delay = sat_add(self.stack_delay, -(delta_us as i64));
                }
                if blockage.axis_down {
                    self.stack_status = StackStatus::TobeStacked;
                } else {
                    self.stack_status = StackStatus::Idle;
                    self.stack_delay = STACKDELAY;
                }
                if queue.get_shoot() {
                    self.stack_status = StackStatus::ShootStack;
                }
            },
            _ => {},
        }
        match input_cache.axis {
            AxisType::Right | AxisType::Left => {
                self.stack_delay = sat_add(self.stack_delay, SIDE_MOVE_GRACE);
            },
            _ => {},
        }
        let mut do_stack: bool = false;
        if let StackStatus::ShootStack = self.stack_status {
            do_stack = true;
        } else if self.stack_delay <= 0 {
            do_stack = true;
        }
        if !blockage.axis_down {
            do_stack = false;
        }
        do_stack
    }

    /// Settles the piece: each block, in order, is put on the field at its
    /// pixel position; a block that meets a taken cell is not put and ends
    /// the game. The piece is then emptied and the countdown starts over.
    /// Gives the cells where a block met a taken cell, in order.
    pub fn stack_blocks(
        &mut self,
        handler: &mut DynBlockHandler,
        positions: &Vec<(i64, i64)>,
        block_data: &mut BlockData,
        game_event: &mut GameEvent,
    ) -> (res: Vec<(usize, usize)>)
        requires
            old(block_data).wf(),
            positions@.len() == old(handler).blocks@.len(),
            forall|i: int|
                0 <= i < positions@.len() ==> on_field(
                    (#[trigger] positions@[i]).0 as int,
                    positions@[i].1 as int,
                ),
        ensures
            final(block_data).wf(),
            ({
                let (g, clash) = placed(
                    old(block_data)@,
                    positions@,
                    old(handler).blocks@,
                    positions@.len() as int,
                );
                &&& final(block_data)@ == g
                &&& *final(game_event) == if clash {
                    GameEvent::GameOver
                } else {
                    *old(game_event)
                }
            }),
            res@.map_values(|c: (usize, usize)| cell_view(c)) == clashes(
                old(block_data)@,
                positions@,
                old(handler).blocks@,
                positions@.len() as int,
            ),
            final(handler).blocks@.len() == 0,
            final(handler).parent is None,
            final(handler).config == old(handler).config,
            final(handler).rotation == old(handler).rotation,
            final(self).delay() == STACKDELAY,
            final(self).status() == StackStatus::Idle,
    {
        let ghost g0 = block_data@;
        let ghost e0 = *game_event;
        let mut found: Vec<(usize, usize)> = Vec::new();
        let mut i: usize = 0;
        while i < handler.blocks.len()
            invariant
                i <= handler.blocks@.len(),
                positions@.len() == handler.blocks@.len(),
                handler.blocks@ == old(handler).blocks@,
                forall|j: int|
                    0 <= j < positions@.len() ==> on_field(
                        (#[trigger] positions@[j]).0 as int,
                        positions@[j].1 as int,
                    ),
                block_data.wf(),
                ({
                    let (g, clash) = placed(g0, positions@, handler.blocks@, i as int);
                    &&& block_data@ == g
                    &&& *game_event == if clash {
                        GameEvent::GameOver
                    } else {
                        e0
                    }
                }),
                found@.map_values(|c: (usize, usize)| cell_view(c)) == clashes(
                    g0,
                    positions@,
                    handler.blocks@,
                    i as int,
                ),
            decreases handler.blocks@.len() - i,
        {
            let p = positions[i];
            let entity = handler.blocks[i];
            proof {
                assert(on_field(positions@[i as int].0 as int, positions@[i as int].1 as int));
            }
            match block_data.add_block(p.0, p.1, entity) {
                Ok(_) => {},
                Err(_) => {
                    *game_event = GameEvent::GameOver;
                    let c = match BlockData::get_col_index_from_m24(p.1) {
                        Ok(v) => v,
                        Err(_) => 0,
                    };
                    let r = match BlockData::get_row_index_from_m14(p.0) {
                        Ok(v) => v,
                        Err(_) => 0,
                    };
                    let ghost before = found@.map_values(|c: (usize, usize)| cell_view(c));
                    found.push((c, r));
                    proof {
                        assert(found@.map_values(|c: (usize, usize)| cell_view(c)) =~= before.push(
                            (c as int, r as int),
                        ));
                    }
                },
            }
            i = i + 1;
        }
        handler.blocks.clear();
        handler.parent = None;
        self.stack_delay = STACKDELAY;
        self.stack_status = StackStatus::Idle;
        found
    }
}

} // verus!
