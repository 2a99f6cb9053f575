//! The rules shared by the physics systems: what blocks a move of the
//! piece, which requested moves survive a blockage, how far a shot falls.
use vstd::prelude::*;

use crate::commons::Rotation;
use crate::consts::{BLOCK_HEIGHT, BLOCK_SIZE, BLOCK_WIDTH, GAME_HEIGHT, PLAY_PANE_WIDTH};
use crate::world::block_data::{block_at, lookup_in_bounds, top_index, BlockData, Row};
use crate::world::blockage::Blockage;
use crate::world::input_cache::AxisType;

verus! {

/// `v` saturated to the range of `i64`.
pub open spec fn clamp64(v: int) -> i64 {
    if v > i64::MAX {
        i64::MAX
    } else if v < i64::MIN {
        i64::MIN
    } else {
        v as i64
    }
}

/// Adds two positions, saturating at the bounds of `i64`.
pub fn sat_add(a: i64, b: i64) -> (res: i64)
    ensures
        res == clamp64(a + b),
{
    match a.checked_add(b) {
        Some(v) => v,
        None => if b > 0 {
            i64::MAX
        } else {
            i64::MIN
        },
    }
}

/// A block position moved by the translation gathered so far.
pub open spec fn shifted(p: (i64, i64), cache: (i64, i64)) -> (i64, i64) {
    (clamp64(p.0 + cache.0), clamp64(p.1 + cache.1))
}

/// The block at (`x`, `y`) cannot move right: it is in the rightmost
/// column, or a settled block lies right of it.
pub open spec fn right_stop(grid: Seq<Row>, x: int, y: int) -> bool {
    x == PLAY_PANE_WIDTH - BLOCK_SIZE || block_at(grid, x + BLOCK_SIZE, y)
}

/// The block at (`x`, `y`) cannot move left.
pub open spec fn left_stop(grid: Seq<Row>, x: int, y: int) -> bool {
    x == 0 || block_at(grid, x - BLOCK_SIZE, y)
}

/// The block at (`x`, `y`) cannot move down: it is in the bottom row, or a
/// settled block lies under it.
pub open spec fn down_stop(grid: Seq<Row>, x: int, y: int) -> bool {
    y == BLOCK_SIZE || block_at(grid, x, y - BLOCK_SIZE)
}

/// Looking around the block at (`x`, `y`) stays inside the field's rows.
pub open spec fn probes_in_bounds(x: int, y: int) -> bool {
    &&& lookup_in_bounds(x + BLOCK_SIZE, y)
    &&& lookup_in_bounds(x - BLOCK_SIZE, y)
    &&& lookup_in_bounds(x, y - BLOCK_SIZE)
}

/// Some block of the piece, moved by `cache`, cannot move right.
pub open spec fn any_right_stop(grid: Seq<Row>, blocks: Seq<(i64, i64)>, cache: (i64, i64)) -> bool {
    exists|i: int|
        0 <= i < blocks.len() && #[trigger] right_stop(
            grid,
            shifted(blocks[i], cache).0 as int,
            shifted(blocks[i], cache).1 as int,
        )
}

/// Some block of the piece, moved by `cache`, cannot move left.
pub open spec fn any_left_stop(grid: Seq<Row>, blocks: Seq<(i64, i64)>, cache: (i64, i64)) -> bool {
    exists|i: int|
        0 <= i < blocks.len() && #[trigger] left_stop(
            grid,
            shifted(blocks[i], cache).0 as int,
            shifted(blocks[i], cache).1 as int,
        )
}

/// Some block of the piece, moved by `cache`, cannot move down.
pub open spec fn any_down_stop(grid: Seq<Row>, blocks: Seq<(i64, i64)>, cache: (i64, i64)) -> bool {
    exists|i: int|
        0 <= i < blocks.len() && #[trigger] down_stop(
            grid,
            shifted(blocks[i], cache).0 as int,
            shifted(blocks[i], cache).1 as int,
        )
}

/// Every block of the piece, moved by `cache`, may be looked around.
pub open spec fn all_probes_in_bounds(blocks: Seq<(i64, i64)>, cache: (i64, i64)) -> bool {
    forall|i: int|
        0 <= i < blocks.len() ==> #[trigger] probes_in_bounds(
            shifted(blocks[i], cache).0 as int,
            shifted(blocks[i], cache).1 as int,
        )
}

/// Looks around every block of the piece, moved by `cache`: whether some
/// block cannot move right, left, down.
pub fn axis_stops(blocks: &Vec<(i64, i64)>, cache: (i64, i64), block_data: &BlockData) -> (res: (
    bool,
    bool,
    bool,
))
    requires
        block_data.wf(),
        all_probes_in_bounds(blocks@, cache),
    ensures
        res.0 == any_right_stop(block_data@, blocks@, cache),
        res.1 == any_left_stop(block_data@, blocks@, cache),
        res.2 == any_down_stop(block_data@, blocks@, cache),
{
    let mut right = false;
    let mut left = false;
    let mut down = false;
    let mut i: usize = 0;
    while i < blocks.len()
        invariant
            i <= blocks@.len(),
            block_data.wf(),
            all_probes_in_bounds(blocks@, cache),
            right == any_right_stop(block_data@, blocks@.subrange(0, i as int), cache),
            left == any_left_stop(block_data@, blocks@.subrange(0, i as int), cache),
            down == any_down_stop(block_data@, blocks@.subrange(0, i as int), cache),
        decreases blocks@.len() - i,
    {
        let p = blocks[i];
        let x = sat_add(p.0, cache.0);
        let y = sat_add(p.1, cache.1);
        proof {
            assert(probes_in_bounds(
                shifted(blocks@[i as int], cache).0 as int,
                shifted(blocks@[i as int], cache).1 as int,
            ));
        }
        let r = x == PLAY_PANE_WIDTH - BLOCK_SIZE || block_data.find_block(
            sat_add(x, BLOCK_SIZE),
            y,
        );
        let l = x == 0 || block_data.find_block(sat_add(x, -BLOCK_SIZE), y);
        let d = y == BLOCK_SIZE || block_data.find_block(x, sat_add(y, -BLOCK_SIZE));
        let ghost pre = blocks@.subrange(0, i as int);
        let ghost post = blocks@.subrange(0, i + 1);
        proof {
            assert(post =~= pre.push(blocks@[i as int]));
            assert(r == right_stop(block_data@, x as int, y as int));
            assert(l == left_stop(block_data@, x as int, y as int));
            assert(d == down_stop(block_data@, x as int, y as int));
            if r {
                assert(right_stop(block_data@, shifted(post[i as int], cache).0 as int, shifted(post[i as int], cache).1 as int));
            }
            if l {
                assert(left_stop(block_data@, shifted(post[i as int], cache).0 as int, shifted(post[i as int], cache).1 as int));
            }
            if d {
                assert(down_stop(block_data@, shifted(post[i as int], cache).0 as int, shifted(post[i as int], cache).1 as int));
            }
            if any_right_stop(block_data@, post, cache) && !r {
                let j = choose|j: int| 0 <= j < post.len() && #[trigger] right_stop(block_data@, shifted(post[j], cache).0 as int, shifted(post[j], cache).1 as int);
                assert(j < i);
                assert(post[j] == pre[j]);
            }
            if any_left_stop(block_data@, post, cache) && !l {
                let j = choose|j: int| 0 <= j < post.len() && #[trigger] left_stop(block_data@, shifted(post[j], cache).0 as int, shifted(post[j], cache).1 as int);
                assert(j < i);
                assert(post[j] == pre[j]);
            }
            if any_down_stop(block_data@, post, cache) && !d {
                let j = choose|j: int| 0 <= j < post.len() && #[trigger] down_stop(block_data@, shifted(post[j], cache).0 as int, shifted(post[j], cache).1 as int);
                assert(j < i);
                assert(post[j] == pre[j]);
            }
            if right {
                let j = choose|j: int| 0 <= j < pre.len() && #[trigger] right_stop(block_data@, shifted(pre[j], cache).0 as int, shifted(pre[j], cache).1 as int);
                assert(post[j] == pre[j]);
            }
            if left {
                let j = choose|j: int| 0 <= j < pre.len() && #[trigger] left_stop(block_data@, shifted(pre[j], cache).0 as int, shifted(pre[j], cache).1 as int);
                assert(post[j] == pre[j]);
            }
            if down {
                let j = choose|j: int| 0 <= j < pre.len() && #[trigger] down_stop(block_data@, shifted(pre[j], cache).0 as int, shifted(pre[j], cache).1 as int);
                assert(post[j] == pre[j]);
            }
        }
        right = right || r;
        left = left || l;
        down = down || d;
        i = i + 1;
    }
    proof {
        assert(blocks@.subrange(0, blocks@.len() as int) =~= blocks@);
    }
    (right, left, down)
}


/// A translation of the piece that the blockage still lets through: no
/// move right, left or down when that way is blocked.
pub open spec fn move_allowed(m: (i64, i64), b: Blockage) -> bool {
    &&& (!b.axis_left || m.0 >= 0)
    &&& (!b.axis_right || m.0 <= 0)
    &&& (!b.axis_down || m.1 >= 0)
}

/// The requested translations that the blockage lets through, in order.
pub open spec fn allowed_moves(q: Seq<(i64, i64)>, b: Blockage) -> Seq<(i64, i64)>
    decreases q.len(),
{
    if q.len() == 0 {
        Seq::empty()
    } else {
        let rest = allowed_moves(q.drop_last(), b);
        if move_allowed(q.last(), b) {
            rest.push(q.last())
        } else {
            rest
        }
    }
}

/// The requested turn if the blockage lets it through, no turn otherwise.
pub open spec fn turn_allowed(r: Rotation, b: Blockage) -> Rotation {
    if b.rotate_left && r == Rotation::Left {
        Rotation::Still
    } else if b.rotate_right && r == Rotation::Right {
        Rotation::Still
    } else {
        r
    }
}

pub proof fn lemma_allowed_moves_len(q: Seq<(i64, i64)>, b: Blockage)
    ensures
        allowed_moves(q, b).len() <= q.len(),
    decreases q.len(),
{
    if q.len() > 0 {
        lemma_allowed_moves_len(q.drop_last(), b);
    }
}

/// Filtering by a blockage a second time drops nothing more, and keeps
/// only requests that were there: every kept translation was requested.
pub proof fn law_blockage_filter_idempotent(q: Seq<(i64, i64)>, b: Blockage, r: Rotation)
    ensures
        allowed_moves(allowed_moves(q, b), b) == allowed_moves(q, b),
        turn_allowed(turn_allowed(r, b), b) == turn_allowed(r, b),
        forall|i: int|
            0 <= i < allowed_moves(q, b).len() ==> move_allowed(#[trigger] allowed_moves(q, b)[i], b),
    decreases q.len(),
{
    if q.len() > 0 {
        law_blockage_filter_idempotent(q.drop_last(), b, r);
        let rest = allowed_moves(q.drop_last(), b);
        if move_allowed(q.last(), b) {
            let full = rest.push(q.last());
            assert(full.drop_last() =~= rest);
            assert(allowed_moves(full, b) =~= allowed_moves(rest, b).push(q.last()));
        }
    }
}

/// Drops the requested translations that the blockage stops, keeping the
/// order of the others, and drops a turn that it stops.
pub fn apply_blockage(queue: &mut Vec<(i64, i64)>, rotation: &mut Rotation, blockage: &Blockage)
    ensures
        final(queue)@ == allowed_moves(old(queue)@, *blockage),
        *final(rotation) == turn_allowed(*old(rotation), *blockage),
{
    let mut kept: Vec<(i64, i64)> = Vec::new();
    let mut k: usize = 0;
    while k < queue.len()
        invariant
            k <= queue@.len(),
            kept@ == allowed_moves(queue@.subrange(0, k as int), *blockage),
        decreases queue@.len() - k,
    {
        let m = queue[k];
        proof {
            assert(queue@.subrange(0, k + 1).drop_last() =~= queue@.subrange(0, k as int));
        }
        if (!blockage.axis_left || m.0 >= 0) && (!blockage.axis_right || m.0 <= 0) && (
        !blockage.axis_down || m.1 >= 0) {
            kept.push(m);
        }
        k = k + 1;
    }
    proof {
        assert(queue@.subrange(0, queue@.len() as int) =~= queue@);
    }
    *queue = kept;
    if blockage.rotate_left {
        if let Rotation::Left = *rotation {
            *rotation = Rotation::Still;
        }
    }
    if blockage.rotate_right {
        if let Rotation::Right = *rotation {
            *rotation = Rotation::Still;
        }
    }
}

/// The bounds a cell swept by a turn must stay within.
#[derive(Clone, Copy, Debug, PartialEq, Eq, Structural)]
pub enum SweepLimits {
    /// Within the field, above the bottom row's lower edge: for a right turn.
    RightTurn,
    /// Within the field and strictly above the bottom row: for a left turn.
    LeftTurn,
    /// Within a margin of one cell around the field.
    Loose,
}

/// The cell at (`x`, `y`) lies beyond the limits.
pub open spec fn beyond_limits(limits: SweepLimits, x: int, y: int) -> bool {
    match limits {
        SweepLimits::RightTurn => x < 0 || x >= PLAY_PANE_WIDTH || y < BLOCK_SIZE || y
            > GAME_HEIGHT,
        SweepLimits::LeftTurn => x < 0 || x >= PLAY_PANE_WIDTH || y <= BLOCK_SIZE || y
            > GAME_HEIGHT,
        SweepLimits::Loose => x <= -BLOCK_SIZE || x >= PLAY_PANE_WIDTH || y <= 0 || y
            >= GAME_HEIGHT + BLOCK_SIZE,
    }
}

/// The position swept at step `c` of a turn: the origin moved `c` times by `step`.
pub open spec fn sweep_cell(origin: (i64, i64), step: (i64, i64), c: int) -> (i64, i64) {
    (clamp64(origin.0 + c * step.0), clamp64(origin.1 + c * step.1))
}

/// Step `c` of the sweep lies beyond the limits or on a settled block.
pub open spec fn sweep_hit(
    grid: Seq<Row>,
    origin: (i64, i64),
    step: (i64, i64),
    limits: SweepLimits,
    c: int,
) -> bool {
    let p = sweep_cell(origin, step, c);
    beyond_limits(limits, p.0 as int, p.1 as int) || block_at(grid, p.0 as int, p.1 as int)
}

/// Some step of the span (first to last, both included) of the sweep is hit.
pub open spec fn sweep_blocked(
    grid: Seq<Row>,
    origin: (i64, i64),
    step: (i64, i64),
    limits: SweepLimits,
    span: (i64, i64),
) -> bool {
    exists|c: int| span.0 <= c <= span.1 && #[trigger] sweep_hit(grid, origin, step, limits, c)
}

/// The pixel position reached at step `c` of a turn's sweep.
pub open spec fn turn_cell(origin: (i64, i64), step: (i64, i64), c: int) -> (int, int) {
    (origin.0 + c * step.0, origin.1 + c * step.1)
}

/// Every cell of a turn's span counts: a right turn is blocked as soon as
/// one swept cell lies left or right of the field, below the bottom row,
/// above the top row or on a settled block; a left turn also when the cell
/// lies in the bottom row; the loose sweep when the cell lies more than one
/// cell around the field or on a settled block.
pub proof fn law_turn_blocked_by_any_cell(
    grid: Seq<Row>,
    origin: (i64, i64),
    step: (i64, i64),
    span: (i64, i64),
    c: int,
)
    requires
        span.0 <= c <= span.1,
    ensures
        ({
            let (x, y) = turn_cell(origin, step, c);
            &&& !(0 <= x < PLAY_PANE_WIDTH && BLOCK_SIZE <= y <= GAME_HEIGHT && !block_at(grid, x, y))
                ==> sweep_blocked(grid, origin, step, SweepLimits::RightTurn, span)
            &&& !(0 <= x < PLAY_PANE_WIDTH && BLOCK_SIZE < y <= GAME_HEIGHT && !block_at(grid, x, y))
                ==> sweep_blocked(grid, origin, step, SweepLimits::LeftTurn, span)
            &&& !(-BLOCK_SIZE < x < PLAY_PANE_WIDTH && 0 < y < GAME_HEIGHT + BLOCK_SIZE && !block_at(
                grid,
                x,
                y,
            )) ==> sweep_blocked(grid, origin, step, SweepLimits::Loose, span)
        }),
{
    let (x, y) = turn_cell(origin, step, c);
    assert(sweep_cell(origin, step, c).0 == x || sweep_cell(origin, step, c).0 == i64::MAX
        || sweep_cell(origin, step, c).0 == i64::MIN);
    assert(sweep_cell(origin, step, c).1 == y || sweep_cell(origin, step, c).1 == i64::MAX
        || sweep_cell(origin, step, c).1 == i64::MIN);
    assert(!(0 <= x < PLAY_PANE_WIDTH && BLOCK_SIZE <= y <= GAME_HEIGHT && !block_at(grid, x, y))
        ==> sweep_hit(grid, origin, step, SweepLimits::RightTurn, c));
    assert(!(0 <= x < PLAY_PANE_WIDTH && BLOCK_SIZE < y <= GAME_HEIGHT && !block_at(grid, x, y))
        ==> sweep_hit(grid, origin, step, SweepLimits::LeftTurn, c));
    assert(!(-BLOCK_SIZE < x < PLAY_PANE_WIDTH && 0 < y < GAME_HEIGHT + BLOCK_SIZE && !block_at(
        grid,
        x,
        y,
    )) ==> sweep_hit(grid, origin, step, SweepLimits::Loose, c));
}

/// A turn is blocked only by a cell of its span: when a right turn is
/// blocked, some swept cell lies off the field or on a settled block, and
/// likewise for a left turn (with the bottom row counted as blocked) and for
/// the loose sweep.
pub proof fn law_turn_blocked_only_by_a_cell(
    grid: Seq<Row>,
    origin: (i64, i64),
    step: (i64, i64),
    span: (i64, i64),
)
    ensures
        sweep_blocked(grid, origin, step, SweepLimits::RightTurn, span) ==> exists|c: int|
            span.0 <= c <= span.1 && !(0 <= #[trigger] turn_cell(origin, step, c).0
                < PLAY_PANE_WIDTH && BLOCK_SIZE <= turn_cell(origin, step, c).1 <= GAME_HEIGHT
                && !block_at(grid, turn_cell(origin, step, c).0, turn_cell(origin, step, c).1)),
        sweep_blocked(grid, origin, step, SweepLimits::LeftTurn, span) ==> exists|c: int|
            span.0 <= c <= span.1 && !(0 <= #[trigger] turn_cell(origin, step, c).0
                < PLAY_PANE_WIDTH && BLOCK_SIZE < turn_cell(origin, step, c).1 <= GAME_HEIGHT
                && !block_at(grid, turn_cell(origin, step, c).0, turn_cell(origin, step, c).1)),
        sweep_blocked(grid, origin, step, SweepLimits::Loose, span) ==> exists|c: int|
            span.0 <= c <= span.1 && !(-BLOCK_SIZE < #[trigger] turn_cell(origin, step, c).0
                < PLAY_PANE_WIDTH && 0 < turn_cell(origin, step, c).1 < GAME_HEIGHT + BLOCK_SIZE
                && !block_at(grid, turn_cell(origin, step, c).0, turn_cell(origin, step, c).1)),
{
    if sweep_blocked(grid, origin, step, SweepLimits::RightTurn, span) {
        let c = choose|c: int|
            span.0 <= c <= span.1 && #[trigger] sweep_hit(grid, origin, step, SweepLimits::RightTurn, c);
        let (x, y) = turn_cell(origin, step, c);
        assert(sweep_cell(origin, step, c).0 == x || sweep_cell(origin, step, c).0 == i64::MAX
            || sweep_cell(origin, step, c).0 == i64::MIN);
        assert(sweep_cell(origin, step, c).1 == y || sweep_cell(origin, step, c).1 == i64::MAX
            || sweep_cell(origin, step, c).1 == i64::MIN);
        assert(!(0 <= x < PLAY_PANE_WIDTH && BLOCK_SIZE <= y <= GAME_HEIGHT && !block_at(grid, x, y)));
    }
    if sweep_blocked(grid, origin, step, SweepLimits::LeftTurn, span) {
        let c = choose|c: int|
            span.0 <= c <= span.1 && #[trigger] sweep_hit(grid, origin, step, SweepLimits::LeftTurn, c);
        let (x, y) = turn_cell(origin, step, c);
        assert(sweep_cell(origin, step, c).0 == x || sweep_cell(origin, step, c).0 == i64::MAX
            || sweep_cell(origin, step, c).0 == i64::MIN);
        assert(sweep_cell(origin, step, c).1 == y || sweep_cell(origin, step, c).1 == i64::MAX
            || sweep_cell(origin, step, c).1 == i64::MIN);
        assert(!(0 <= x < PLAY_PANE_WIDTH && BLOCK_SIZE < y <= GAME_HEIGHT && !block_at(grid, x, y)));
    }
    if sweep_blocked(grid, origin, step, SweepLimits::Loose, span) {
        let c = choose|c: int|
            span.0 <= c <= span.1 && #[trigger] sweep_hit(grid, origin, step, SweepLimits::Loose, c);
        let (x, y) = turn_cell(origin, step, c);
        assert(sweep_cell(origin, step, c).0 == x || sweep_cell(origin, step, c).0 == i64::MAX
            || sweep_cell(origin, step, c).0 == i64::MIN);
        assert(sweep_cell(origin, step, c).1 == y || sweep_cell(origin, step, c).1 == i64::MAX
            || sweep_cell(origin, step, c).1 == i64::MIN);
        assert(!(-BLOCK_SIZE < x < PLAY_PANE_WIDTH && 0 < y < GAME_HEIGHT + BLOCK_SIZE && !block_at(grid, x, y)));
    }
}

/// A span as `get_count` and `get_sub_count` give it: within 32 bits of magnitude.
pub open spec fn span_bounded(span: (i64, i64)) -> bool {
    -0x1_0000_0000 <= span.0 <= 0x1_0000_0000 && -0x1_0000_0000 <= span.1 <= 0x1_0000_0000
}

/// Whether some step of the span of a turn's sweep lies beyond the limits or
/// on a settled block.
pub fn sweep_is_blocked(
    block_data: &BlockData,
    origin: (i64, i64),
    step: (i64, i64),
    limits: SweepLimits,
    span: (i64, i64),
) -> (res: bool)
    requires
        block_data.wf(),
        span_bounded(span),
        -BLOCK_SIZE <= step.0 <= BLOCK_SIZE,
        -BLOCK_SIZE <= step.1 <= BLOCK_SIZE,
    ensures
        res == sweep_blocked(block_data@, origin, step, limits, span),
{
    let mut count: i64 = span.0;
    while count <= span.1
        invariant
            block_data.wf(),
            span_bounded(span),
            -BLOCK_SIZE <= step.0 <= BLOCK_SIZE,
            -BLOCK_SIZE <= step.1 <= BLOCK_SIZE,
            count == span.0 || span.0 <= count <= span.1 + 1,
            span.0 <= count,
            forall|c: int|
                span.0 <= c < count ==> !#[trigger] sweep_hit(block_data@, origin, step, limits, c),
        decreases span.1 + 1 - count,
    {
        proof {
            assert(-0x1_0000_0000 * 45 <= count * step.0 <= 0x1_0000_0000 * 45) by (nonlinear_arith)
                requires
                    -0x1_0000_0000 <= count <= 0x1_0000_0000,
                    -45 <= step.0 <= 45,
            ;
            assert(-0x1_0000_0000 * 45 <= count * step.1 <= 0x1_0000_0000 * 45) by (nonlinear_arith)
                requires
                    -0x1_0000_0000 <= count <= 0x1_0000_0000,
                    -45 <= step.1 <= 45,
            ;
        }
        let x = sat_add(origin.0, count * step.0);
        let y = sat_add(origin.1, count * step.1);
        let beyond = match limits {
            SweepLimits::RightTurn => x < 0 || x >= PLAY_PANE_WIDTH || y < BLOCK_SIZE || y
                > GAME_HEIGHT,
            SweepLimits::LeftTurn => x < 0 || x >= PLAY_PANE_WIDTH || y <= BLOCK_SIZE || y
                > GAME_HEIGHT,
            SweepLimits::Loose => x <= -BLOCK_SIZE || x >= PLAY_PANE_WIDTH || y <= 0 || y
                >= GAME_HEIGHT + BLOCK_SIZE,
        };
        if beyond || block_data.find_block(x, y) {
            assert(sweep_hit(block_data@, origin, step, limits, count as int));
            return true;
        }
        count = count + 1;
    }
    false
}

/// Every block of the piece lies where a shot may be measured from: on or
/// above the bottom row, at most one row above the field, and inside the
/// field's columns when above the bottom row.
pub open spec fn shoot_safe(blocks: Seq<(i64, i64)>) -> bool {
    forall|i: int|
        0 <= i < blocks.len() ==> {
            let p = #[trigger] blocks[i];
            &&& 0 <= p.0
            &&& BLOCK_SIZE <= p.1 < BLOCK_SIZE * (BLOCK_HEIGHT + 2)
            &&& p.1 >= 2 * BLOCK_SIZE ==> p.0 < PLAY_PANE_WIDTH
        }
}

/// How many rows the block at `p` can fall before it lands on a settled
/// block or on the floor.
pub open spec fn fall_rows(grid: Seq<Row>, p: (i64, i64)) -> int {
    let x = p.0 as int / BLOCK_SIZE as int;
    let y = p.1 as int / BLOCK_SIZE as int - 1;
    match top_index(grid, x, y) {
        Some(c) => y - c - 1,
        None => y,
    }
}

/// How many rows the first `n` blocks can all fall, at most twenty.
pub open spec fn shoot_rows(grid: Seq<Row>, blocks: Seq<(i64, i64)>, n: int) -> int
    decreases n,
{
    if n <= 0 {
        BLOCK_HEIGHT as int
    } else {
        let d = shoot_rows(grid, blocks, n - 1);
        let f = fall_rows(grid, blocks[n - 1]);
        if f <= d {
            f
        } else {
            d
        }
    }
}

proof fn lemma_top_index_facts(grid: Seq<Row>, col: int, below: int)
    ensures
        top_index(grid, col, below) is None ==> forall|j: int|
            0 <= j < below ==> (#[trigger] grid[j][col]) is None,
        top_index(grid, col, below) matches Some(t) ==> {
            &&& 0 <= t < below
            &&& grid[t][col] is Some
            &&& forall|j: int| t < j < below ==> (#[trigger] grid[j][col]) is None
        },
    decreases below,
{
    if below > 0 {
        lemma_top_index_facts(grid, col, below - 1);
    }
}

/// The row (from the bottom) of a pixel position.
pub open spec fn row_of(p: (i64, i64)) -> int {
    p.1 as int / BLOCK_SIZE as int - 1
}

proof fn lemma_fall_rows(grid: Seq<Row>, p: (i64, i64))
    requires
        0 <= p.0,
        BLOCK_SIZE <= p.1 < BLOCK_SIZE * (BLOCK_HEIGHT + 2),
    ensures
        0 <= fall_rows(grid, p) <= row_of(p) <= BLOCK_HEIGHT,
        forall|k: int|
            1 <= k <= fall_rows(grid, p) ==> (#[trigger] grid[row_of(p) - k][p.0 as int
                / BLOCK_SIZE as int]) is None,
        fall_rows(grid, p) == row_of(p) || grid[row_of(p) - fall_rows(grid, p) - 1][p.0 as int
            / BLOCK_SIZE as int] is Some,
{
    lemma_top_index_facts(grid, p.0 as int / BLOCK_SIZE as int, row_of(p));
    assert forall|k: int| 1 <= k <= fall_rows(grid, p) implies (#[trigger] grid[row_of(p) - k][p.0 as int
        / BLOCK_SIZE as int]) is None by {
        let j = row_of(p) - k;
        assert(grid[j][p.0 as int / BLOCK_SIZE as int] is None);
    }
}

proof fn lemma_shoot_rows_min(grid: Seq<Row>, blocks: Seq<(i64, i64)>, n: int)
    requires
        shoot_safe(blocks),
        0 <= n <= blocks.len(),
    ensures
        0 <= shoot_rows(grid, blocks, n) <= BLOCK_HEIGHT,
        forall|i: int| 0 <= i < n ==> shoot_rows(grid, blocks, n) <= fall_rows(grid, #[trigger] blocks[i]),
        n > 0 ==> exists|i: int| 0 <= i < n && shoot_rows(grid, blocks, n) == fall_rows(grid, #[trigger] blocks[i]),
    decreases n,
{
    if n > 0 {
        lemma_shoot_rows_min(grid, blocks, n - 1);
        let p = blocks[n - 1];
        lemma_fall_rows(grid, p);
        if n - 1 > 0 {
            let i = choose|i: int| 0 <= i < n - 1 && shoot_rows(grid, blocks, n - 1) == fall_rows(grid, #[trigger] blocks[i]);
            assert(0 <= i < n && fall_rows(grid, blocks[i]) == shoot_rows(grid, blocks, n - 1));
        }
        assert(fall_rows(grid, blocks[n - 1]) == fall_rows(grid, p));
    }
}

/// A shot never takes a block of the piece through the floor or through a
/// settled block: after falling the shot's number of rows every block is
/// still on or above the bottom row, and every cell it passes on the way
/// down is free.
pub proof fn law_shot_falls_freely(grid: Seq<Row>, blocks: Seq<(i64, i64)>, i: int, k: int)
    requires
        shoot_safe(blocks),
        0 <= i < blocks.len(),
    ensures
        ({
            let d = shoot_rows(grid, blocks, blocks.len() as int);
            let p = blocks[i];
            &&& p.1 - d * BLOCK_SIZE >= BLOCK_SIZE
            &&& 1 <= k <= d ==> !block_at(grid, p.0 as int, p.1 - k * BLOCK_SIZE)
        }),
{
    let d = shoot_rows(grid, blocks, blocks.len() as int);
    let p = blocks[i];
    lemma_shoot_rows_min(grid, blocks, blocks.len() as int);
    lemma_fall_rows(grid, p);
    assert(d <= fall_rows(grid, blocks[i]));
    let y = p.1 as int;
    assert(y - d * 45 >= 45) by (nonlinear_arith)
        requires
            d <= y / 45 - 1,
            y >= 45,
    ;
    if 1 <= k <= d {
        assert((y - k * 45) / 45 == y / 45 - k) by (nonlinear_arith);
        assert(grid[row_of(p) - k][p.0 as int / BLOCK_SIZE as int] is None);
    }
}

/// A shot falls as far as it can: some block of the piece ends in the bottom
/// row or right above a settled block, so one more row would take it through
/// the floor or into that block. A piece of no blocks falls the whole
/// height of the field.
pub proof fn law_shot_lands(grid: Seq<Row>, blocks: Seq<(i64, i64)>)
    requires
        shoot_safe(blocks),
    ensures
        ({
            let d = shoot_rows(grid, blocks, blocks.len() as int);
            &&& 0 <= d <= BLOCK_HEIGHT
            &&& blocks.len() == 0 ==> d == BLOCK_HEIGHT
            &&& blocks.len() > 0 ==> exists|i: int|
                0 <= i < blocks.len() && ((#[trigger] blocks[i]).1 - (d + 1) * BLOCK_SIZE < BLOCK_SIZE
                    || block_at(grid, blocks[i].0 as int, blocks[i].1 - (d + 1) * BLOCK_SIZE))
        }),
{
    let d = shoot_rows(grid, blocks, blocks.len() as int);
    lemma_shoot_rows_min(grid, blocks, blocks.len() as int);
    if blocks.len() > 0 {
        let j = choose|j: int| 0 <= j < blocks.len() && d == fall_rows(grid, #[trigger] blocks[j]);
        let p = blocks[j];
        lemma_fall_rows(grid, p);
        let y = p.1 as int;
        let f = d;
        if f == row_of(p) {
            assert(y - (f + 1) * 45 < 45) by (nonlinear_arith)
                requires
                    f == y / 45 - 1,
                    y >= 0,
            ;
        } else {
            assert((y - (f + 1) * 45) / 45 == y / 45 - f - 1) by (nonlinear_arith);
            assert(y - (f + 1) * 45 >= 45) by (nonlinear_arith)
                requires
                    f + 1 <= y / 45 - 1,
                    y >= 0,
            ;
            assert(block_at(grid, p.0 as int, y - (f + 1) * 45));
        }
    }
}

/// How far, in pixels, the piece falls when it is shot down: the least
/// number of rows any of its blocks can fall, at most twenty.
pub fn shoot_distance(blocks: &Vec<(i64, i64)>, block_data: &BlockData) -> (res: i64)
    requires
        block_data.wf(),
        shoot_safe(blocks@),
    ensures
        res == shoot_rows(block_data@, blocks@, blocks@.len() as int) * BLOCK_SIZE,
        0 <= res <= BLOCK_HEIGHT * BLOCK_SIZE,
{
    let mut distance: usize = BLOCK_HEIGHT;
    let mut i: usize = 0;
    while i < blocks.len()
        invariant
            i <= blocks@.len(),
            block_data.wf(),
            shoot_safe(blocks@),
            distance == shoot_rows(block_data@, blocks@, i as int),
            distance <= BLOCK_HEIGHT,
        decreases blocks@.len() - i,
    {
        let p = blocks[i];
        proof {
            assert(0 <= p.0 && BLOCK_SIZE <= p.1);
        }
        let x = match BlockData::get_row_index_from_m14(p.0) {
            Ok(v) => v,
            Err(_) => 0,
        };
        let y = match BlockData::get_col_index_from_m24(p.1) {
            Ok(v) => v,
            Err(_) => 0,
        };
        proof {
            assert(y as int == p.1 as int / BLOCK_SIZE as int - 1);
            if y > 0 {
                assert(x as int == p.0 as int / BLOCK_SIZE as int);
            } else {
                assert(top_index(block_data@, x as int, 0) is None);
                assert(top_index(block_data@, p.0 as int / BLOCK_SIZE as int, 0) is None);
            }
            assert(blocks@[i as int] == p);
        }
        if let Some((_row, col)) = block_data.get_top_block_index(x, y) {
            if y - col - 1 <= distance {
                distance = y - col - 1;
            }
        } else {
            if y <= distance {
                distance = y;
            }
        }
        i = i + 1;
    }
    (distance as i64) * BLOCK_SIZE
}

/// The translation requested by an axis input.
pub open spec fn axis_move(axis: AxisType) -> Option<(i64, i64)> {
    match axis {
        AxisType::Right => Some((BLOCK_SIZE, 0)),
        AxisType::Left => Some((-45i64, 0)),
        AxisType::Down => Some((0, -45i64)),
        AxisType::Still => None,
    }
}

} // verus!
