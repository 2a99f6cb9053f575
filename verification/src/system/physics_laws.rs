//! What a physics frame keeps: the blockage only grows, and the piece only
//! ever moves onto free cells of the field.
use vstd::prelude::*;

use crate::commons::Rotation;
use crate::config::Offset;
use crate::system::physics_rules::{
    allowed_moves, any_down_stop, any_left_stop, any_right_stop, clamp64,
    law_blockage_filter_idempotent, lemma_allowed_moves_len, shifted, turn_allowed,
};
use crate::system::physics_system::{
    checked_frame, lemma_allowed_moves_sub, requested_queue, requested_turn, settle,
    with_axis_check,
};
use crate::consts::{BLOCK_SIZE, GAME_HEIGHT, PLAY_PANE_WIDTH};
use crate::system::physics_rules::{down_stop, left_stop, move_allowed, right_stop};
use crate::world::block_data::{block_at, Row};
use crate::world::blockage::Blockage;
use crate::world::input_cache::InputCache;
use crate::world::physics_queue::{queued_moves, PhysicsQueueView};

verus! {

/// Every move that `b` blocks apart from the turns, `b2` blocks too.
pub open spec fn keeps_axis_flags(b: Blockage, b2: Blockage) -> bool {
    &&& b.axis_right ==> b2.axis_right
    &&& b.axis_left ==> b2.axis_left
    &&& b.axis_down ==> b2.axis_down
    &&& b.shoot ==> b2.shoot
}

/// Every move that `b` blocks, `b2` blocks too.
pub open spec fn keeps_flags(b: Blockage, b2: Blockage) -> bool {
    &&& keeps_axis_flags(b, b2)
    &&& b.rotate_right ==> b2.rotate_right
    &&& b.rotate_left ==> b2.rotate_left
}

proof fn lemma_settle_keeps_flags(
    grid: Seq<Row>,
    blocks: Seq<(i64, i64)>,
    q: Seq<(i64, i64)>,
    turn: Rotation,
    b: Blockage,
    cache: (i64, i64),
)
    ensures
        keeps_flags(b, settle(grid, blocks, q, turn, b, cache).0),
    decreases q.len(),
{
    if q.len() > 0 {
        let m = q.last();
        let c2 = (clamp64(cache.0 + m.0), clamp64(cache.1 + m.1));
        let b2 = with_axis_check(b, grid, blocks, c2);
        lemma_allowed_moves_len(q.drop_last(), b2);
        lemma_settle_keeps_flags(
            grid,
            blocks,
            allowed_moves(q.drop_last(), b2),
            turn_allowed(turn, b2),
            b2,
            c2,
        );
    }
}

/// A physics frame never unblocks a move right, left, down or a shot: the
/// checked blockage and the blockage after the moves are carried out block
/// all that the frame began with. The turns stay blocked too, except when a
/// turn is requested of a piece without main spans: both turns are then
/// unblocked before the secondary spans are swept.
pub proof fn law_physics_keeps_blockage(
    q: PhysicsQueueView,
    input: InputCache,
    b: Blockage,
    grid: Seq<Row>,
    offset: Option<Offset>,
    sub_offset: Option<Offset>,
    facing: Rotation,
    origin: (i64, i64),
    blocks: Seq<(i64, i64)>,
)
    ensures
        ({
            let f = checked_frame(q, input, b, grid, offset, sub_offset, facing, origin, blocks);
            let s = settle(grid, blocks, f.moves, f.turn, f.blockage, (0, 0));
            &&& keeps_axis_flags(b, f.blockage)
            &&& keeps_axis_flags(b, s.0)
            &&& !(offset is None && (requested_turn(requested_queue(q, input)) == Rotation::Right
                || requested_turn(requested_queue(q, input)) == Rotation::Left)) ==> {
                &&& keeps_flags(b, f.blockage)
                &&& keeps_flags(b, s.0)
            }
        }),
{
    let f = checked_frame(q, input, b, grid, offset, sub_offset, facing, origin, blocks);
    lemma_settle_keeps_flags(grid, blocks, f.moves, f.turn, f.blockage, (0, 0));
}

/// A cell of the field that no settled block holds, given by the pixel
/// position of its lower left corner.
pub open spec fn free_cell(grid: Seq<Row>, x: int, y: int) -> bool {
    &&& 0 <= x <= PLAY_PANE_WIDTH - BLOCK_SIZE
    &&& x % (BLOCK_SIZE as int) == 0
    &&& BLOCK_SIZE <= y <= GAME_HEIGHT
    &&& y % (BLOCK_SIZE as int) == 0
    &&& !block_at(grid, x, y)
}

/// Every block of the piece, moved by `cache`, stands on a free cell.
pub open spec fn placed_free(grid: Seq<Row>, blocks: Seq<(i64, i64)>, cache: (i64, i64)) -> bool {
    forall|i: int|
        0 <= i < blocks.len() ==> #[trigger] free_cell(
            grid,
            shifted(blocks[i], cache).0 as int,
            shifted(blocks[i], cache).1 as int,
        )
}

/// A move of one cell right, left or down.
pub open spec fn unit_move(m: (i64, i64)) -> bool {
    m == (45i64, 0i64) || m == (-45i64, 0i64) || m == (0i64, -45i64)
}

/// Every requested translation is a move of one cell.
pub open spec fn unit_moves(q: Seq<(i64, i64)>) -> bool {
    forall|i: int| 0 <= i < q.len() ==> #[trigger] unit_move(q[i])
}

/// The blockage blocks each move that some block of the piece, moved by
/// `cache`, cannot make.
pub open spec fn reflects(grid: Seq<Row>, blocks: Seq<(i64, i64)>, cache: (i64, i64), b: Blockage) -> bool {
    &&& any_right_stop(grid, blocks, cache) ==> b.axis_right
    &&& any_left_stop(grid, blocks, cache) ==> b.axis_left
    &&& any_down_stop(grid, blocks, cache) ==> b.axis_down
}

proof fn lemma_unit_moves_kept(q: Seq<(i64, i64)>, b: Blockage, turn: Rotation)
    requires
        unit_moves(q),
    ensures
        unit_moves(allowed_moves(q, b)),
        forall|i: int|
            0 <= i < allowed_moves(q, b).len() ==> move_allowed(#[trigger] allowed_moves(q, b)[i], b),
{
    lemma_allowed_moves_sub(q, b);
    law_blockage_filter_idempotent(q, b, turn);
    let kept = allowed_moves(q, b);
    assert forall|i: int| 0 <= i < kept.len() implies #[trigger] unit_move(kept[i]) by {
        let j = choose|j: int| 0 <= j < q.len() && kept[i] == q[j];
        assert(unit_move(q[j]));
    }
}

proof fn lemma_step_free(
    grid: Seq<Row>,
    blocks: Seq<(i64, i64)>,
    cache: (i64, i64),
    m: (i64, i64),
    b: Blockage,
)
    requires
        placed_free(grid, blocks, (0, 0)),
        placed_free(grid, blocks, cache),
        reflects(grid, blocks, cache, b),
        unit_move(m),
        move_allowed(m, b),
    ensures
        placed_free(grid, blocks, (clamp64(cache.0 + m.0), clamp64(cache.1 + m.1))),
{
    let c2 = (clamp64(cache.0 + m.0), clamp64(cache.1 + m.1));
    if blocks.len() > 0 {
        let p0 = shifted(blocks[0], (0, 0));
        let q0 = shifted(blocks[0], cache);
        assert(free_cell(grid, p0.0 as int, p0.1 as int));
        assert(free_cell(grid, q0.0 as int, q0.1 as int));
        assert(-PLAY_PANE_WIDTH <= cache.0 <= PLAY_PANE_WIDTH);
        assert(-GAME_HEIGHT <= cache.1 <= GAME_HEIGHT);
        assert(c2.0 == cache.0 + m.0 && c2.1 == cache.1 + m.1);
        assert forall|i: int| 0 <= i < blocks.len() implies #[trigger] free_cell(
            grid,
            shifted(blocks[i], c2).0 as int,
            shifted(blocks[i], c2).1 as int,
        ) by {
            let p = shifted(blocks[i], (0, 0));
            let x = shifted(blocks[i], cache).0 as int;
            let y = shifted(blocks[i], cache).1 as int;
            assert(free_cell(grid, p.0 as int, p.1 as int));
            assert(free_cell(grid, x, y));
            assert(shifted(blocks[i], c2).0 == x + m.0 && shifted(blocks[i], c2).1 == y + m.1);
            if m == (45i64, 0i64) {
                assert(!right_stop(grid, x, y));
                assert(x != PLAY_PANE_WIDTH - BLOCK_SIZE);
            } else if m == (-45i64, 0i64) {
                assert(!left_stop(grid, x, y));
            } else {
                assert(!down_stop(grid, x, y));
            }
        }
    }
}

proof fn lemma_settle_free(
    grid: Seq<Row>,
    blocks: Seq<(i64, i64)>,
    q: Seq<(i64, i64)>,
    turn: Rotation,
    b: Blockage,
    cache: (i64, i64),
)
    requires
        placed_free(grid, blocks, (0, 0)),
        placed_free(grid, blocks, cache),
        reflects(grid, blocks, cache, b),
        unit_moves(q),
        forall|i: int| 0 <= i < q.len() ==> move_allowed(#[trigger] q[i], b),
    ensures
        placed_free(grid, blocks, settle(grid, blocks, q, turn, b, cache).2),
    decreases q.len(),
{
    if q.len() > 0 {
        let m = q.last();
        let c2 = (clamp64(cache.0 + m.0), clamp64(cache.1 + m.1));
        let b2 = with_axis_check(b, grid, blocks, c2);
        assert(unit_move(q[q.len() - 1]));
        assert(move_allowed(q[q.len() - 1], b));
        lemma_step_free(grid, blocks, cache, m, b);
        let rest = q.drop_last();
        assert forall|i: int| 0 <= i < rest.len() implies #[trigger] unit_move(rest[i]) by {
            assert(unit_move(q[i]));
        }
        lemma_unit_moves_kept(rest, b2, turn);
        lemma_allowed_moves_len(rest, b2);
        lemma_settle_free(grid, blocks, allowed_moves(rest, b2), turn_allowed(turn, b2), b2, c2);
    }
}

/// The piece never moves through a wall, the floor or a settled block: when
/// every block of the piece stands on a free cell and every requested
/// translation is a move of one cell, the translation gathered in a frame
/// leaves every block on a free cell.
pub proof fn law_moves_stay_on_free_cells(
    q: PhysicsQueueView,
    input: InputCache,
    b: Blockage,
    grid: Seq<Row>,
    offset: Option<Offset>,
    sub_offset: Option<Offset>,
    facing: Rotation,
    origin: (i64, i64),
    blocks: Seq<(i64, i64)>,
)
    requires
        placed_free(grid, blocks, (0, 0)),
        unit_moves(queued_moves(q)),
    ensures
        ({
            let f = checked_frame(q, input, b, grid, offset, sub_offset, facing, origin, blocks);
            placed_free(grid, blocks, settle(grid, blocks, f.moves, f.turn, f.blockage, (0, 0)).2)
        }),
{
    let f = checked_frame(q, input, b, grid, offset, sub_offset, facing, origin, blocks);
    let all = queued_moves(f.queue);
    assert forall|i: int| 0 <= i < all.len() implies #[trigger] unit_move(all[i]) by {
        if !(input.rotation == Rotation::Right || input.rotation == Rotation::Left) {
            if i < queued_moves(q).len() {
                assert(all[i] == queued_moves(q)[i]);
                assert(unit_move(queued_moves(q)[i]));
            }
        }
    }
    lemma_unit_moves_kept(all, f.blockage, f.turn);
    lemma_settle_free(grid, blocks, f.moves, f.turn, f.blockage, (0, 0));
}

} // verus!
