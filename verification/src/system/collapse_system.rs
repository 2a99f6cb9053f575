//! Clearing full rows.
use vstd::prelude::*;

use crate::commons::EntityId;
use crate::consts::{BLOCK_HEIGHT, BLOCK_SIZE, BLOCK_WIDTH};
use crate::events::CollapseStatus;
use crate::world::score_text::ScoreText;
use crate::world::block_data::{
    empty_row, grid_shaped, law_full_row_count, law_removal_takes_out_one_row, occupied, row_full,
    rows_above, total_occupied, without_row, BlockData, Row,
};

verus! {

/// Points scored for each row taken out, once per score display.
pub const ROW_SCORE: i64 = 1000;

/// Searches the field for full rows and takes them out.
pub struct CollapseSystem;

/// What one taken-out row leaves for the world to do: the blocks of the row,
/// to be deleted, and the cells of the rows above it, whose blocks move down
/// by one cell.
pub struct CollapseOutcome {
    pub removed: Vec<Option<EntityId>>,
    pub moved: Vec<Option<EntityId>>,
}

/// The lowest full row at or above row `from`.
pub open spec fn full_row_from(grid: Seq<Row>, from: int) -> Option<int>
    decreases BLOCK_HEIGHT - from,
{
    if from < 0 || from >= BLOCK_HEIGHT {
        None
    } else if row_full(grid[from]) {
        Some(from)
    } else {
        full_row_from(grid, from + 1)
    }
}

/// The lowest full row of the field.
pub open spec fn lowest_full_row(grid: Seq<Row>) -> Option<int> {
    full_row_from(grid, 0)
}

pub proof fn lemma_full_row_from(grid: Seq<Row>, from: int)
    requires
        0 <= from,
    ensures
        full_row_from(grid, from) matches Some(i) ==> from <= i < BLOCK_HEIGHT && row_full(
            grid[i],
        ),
        full_row_from(grid, from) is None ==> forall|j: int|
            from <= j < BLOCK_HEIGHT ==> !row_full(#[trigger] grid[j]),
    decreases BLOCK_HEIGHT - from,
{
    if from < BLOCK_HEIGHT {
        lemma_full_row_from(grid, from + 1);
    }
}

pub proof fn lemma_collapse_step(grid: Seq<Row>, i: int)
    requires
        grid_shaped(grid),
        lowest_full_row(grid) == Some(i),
    ensures
        0 <= i < BLOCK_HEIGHT,
        total_occupied(without_row(grid, i)) + BLOCK_WIDTH == total_occupied(grid),
        grid_shaped(without_row(grid, i)),
{
    lemma_full_row_from(grid, 0);
    law_full_row_count(grid[i]);
    law_removal_takes_out_one_row(grid, i);
}

/// Number of full rows of the field.
pub open spec fn full_rows(grid: Seq<Row>) -> nat
    decreases grid.len(),
{
    if grid.len() == 0 {
        0
    } else {
        full_rows(grid.drop_last()) + if row_full(grid.last()) {
            1nat
        } else {
            0nat
        }
    }
}

proof fn lemma_full_rows_concat(a: Seq<Row>, b: Seq<Row>)
    ensures
        full_rows(a + b) == full_rows(a) + full_rows(b),
    decreases b.len(),
{
    if b.len() > 0 {
        lemma_full_rows_concat(a, b.drop_last());
        assert((a + b).drop_last() =~= a + b.drop_last());
    } else {
        assert(a + b =~= a);
    }
}

proof fn lemma_full_rows_single(r: Row)
    ensures
        full_rows(seq![r]) == if row_full(r) { 1nat } else { 0nat },
{
    assert(seq![r].drop_last() =~= Seq::<Row>::empty());
    assert(full_rows(Seq::<Row>::empty()) == 0);
    assert(seq![r].last() == r);
}

/// Taking out a full row leaves one full row fewer: the other rows only
/// move, and the row coming in at the top is empty.
pub proof fn lemma_removal_one_full_row_fewer(grid: Seq<Row>, index: int)
    requires
        grid_shaped(grid),
        0 <= index < BLOCK_HEIGHT,
        row_full(grid[index]),
    ensures
        full_rows(without_row(grid, index)) + 1 == full_rows(grid),
{
    let n = BLOCK_HEIGHT as int;
    let below = grid.subrange(0, index);
    let above = grid.subrange(index + 1, n);
    assert(grid =~= below + seq![grid[index]] + above);
    assert(without_row(grid, index) =~= below + above + seq![empty_row()]);
    lemma_full_rows_concat(below + seq![grid[index]], above);
    lemma_full_rows_concat(below, seq![grid[index]]);
    lemma_full_rows_concat(below + above, seq![empty_row()]);
    lemma_full_rows_concat(below, above);
    lemma_full_rows_single(grid[index]);
    lemma_full_rows_single(empty_row());
    assert(!row_full(empty_row())) by {
        assert(empty_row()[0] is None);
    }
}

/// Taking out the lowest full row again and again until none is left: the
/// field at the end, and for each row taken out, its cells and the cells of
/// the rows above it.
pub open spec fn collapse(grid: Seq<Row>) -> (Seq<Row>, Seq<(Row, Row)>)
    decreases total_occupied(grid),
{
    if !grid_shaped(grid) {
        (grid, Seq::empty())
    } else {
        match lowest_full_row(grid) {
            Some(i) => {
                proof {
                    lemma_collapse_step(grid, i);
                }
                let rest = collapse(without_row(grid, i));
                (rest.0, seq![(grid[i], rows_above(grid, i))] + rest.1)
            },
            None => (grid, Seq::empty()),
        }
    }
}

/// The field that collapsing leaves has no full row, each row taken out
/// was full (every one of its cells holds a block to delete), and each took
/// exactly one row's worth of blocks off the field.
pub proof fn law_collapse_leaves_no_full_row(grid: Seq<Row>)
    requires
        grid_shaped(grid),
    ensures
        grid_shaped(collapse(grid).0),
        lowest_full_row(collapse(grid).0) is None,
        forall|j: int| 0 <= j < BLOCK_HEIGHT ==> !row_full(#[trigger] collapse(grid).0[j]),
        total_occupied(collapse(grid).0) + BLOCK_WIDTH * collapse(grid).1.len() == total_occupied(
            grid,
        ),
        forall|k: int| 0 <= k < collapse(grid).1.len() ==> row_full(#[trigger] collapse(grid).1[k].0),
        collapse(grid).1.len() == full_rows(grid),
    decreases total_occupied(grid),
{
    match lowest_full_row(grid) {
        Some(i) => {
            lemma_collapse_step(grid, i);
            lemma_full_row_from(grid, 0);
            lemma_removal_one_full_row_fewer(grid, i);
            law_collapse_leaves_no_full_row(without_row(grid, i));
            let rest = collapse(without_row(grid, i)).1;
            assert(collapse(grid).1 == seq![(grid[i], rows_above(grid, i))] + rest);
            assert(collapse(grid).1.len() == rest.len() + 1);
            assert forall|k: int| 0 <= k < collapse(grid).1.len() implies row_full(
                #[trigger] collapse(grid).1[k].0,
            ) by {
                if k > 0 {
                    assert(collapse(grid).1[k] == rest[k - 1]);
                }
            }
        },
        None => {
            lemma_full_row_from(grid, 0);
            lemma_no_full_rows(grid, BLOCK_HEIGHT as int);
            assert(grid.subrange(0, BLOCK_HEIGHT as int) =~= grid);
            assert(collapse(grid).1.len() == 0);
        },
    }
}

proof fn lemma_no_full_rows(grid: Seq<Row>, n: int)
    requires
        grid_shaped(grid),
        0 <= n <= BLOCK_HEIGHT,
        forall|j: int| 0 <= j < BLOCK_HEIGHT ==> !row_full(#[trigger] grid[j]),
    ensures
        full_rows(grid.subrange(0, n)) == 0,
    decreases n,
{
    if n > 0 {
        lemma_no_full_rows(grid, n - 1);
        assert(grid.subrange(0, n).drop_last() =~= grid.subrange(0, n - 1));
    } else {
        assert(grid.subrange(0, 0) =~= Seq::<Row>::empty());
    }
    if n == BLOCK_HEIGHT {
        assert(grid.subrange(0, n) =~= grid);
    }
}

/// The cells of a taken-out row and of the rows above it, as sequences.
pub open spec fn outcome_view(o: CollapseOutcome) -> (Row, Row) {
    (o.removed@, o.moved@)
}

impl CollapseSystem {
    /// The lowest full row of the field, if any.
    pub fn first_full_row(block_data: &BlockData) -> (res: Option<usize>)
        requires
            block_data.wf(),
        ensures
            match res {
                Some(i) => lowest_full_row(block_data@) == Some(i as int),
                None => lowest_full_row(block_data@) is None,
            },
    {
        let mut index: usize = 0;
        while index < BLOCK_HEIGHT
            invariant
                index <= BLOCK_HEIGHT,
                block_data.wf(),
                full_row_from(block_data@, 0) == full_row_from(block_data@, index as int),
            decreases BLOCK_HEIGHT - index,
        {
            let col_index: i64 = (index as i64 + 1) * BLOCK_SIZE;
            if block_data.check_full(col_index) {
                assert((col_index / BLOCK_SIZE) - 1 == index);
                return Some(index);
            }
            assert((col_index / BLOCK_SIZE) - 1 == index);
            index = index + 1;
        }
        None
    }

    /// Number of full rows of the field.
    pub fn full_row_count(block_data: &BlockData) -> (res: usize)
        requires
            block_data.wf(),
        ensures
            res == full_rows(block_data@),
    {
        let mut count: usize = 0;
        let mut index: usize = 0;
        while index < BLOCK_HEIGHT
            invariant
                index <= BLOCK_HEIGHT,
                block_data.wf(),
                count == full_rows(block_data@.subrange(0, index as int)),
                count <= index,
            decreases BLOCK_HEIGHT - index,
        {
            let col_index: i64 = (index as i64 + 1) * BLOCK_SIZE;
            assert((col_index / BLOCK_SIZE) - 1 == index);
            let full = block_data.check_full(col_index);
            proof {
                assert(block_data@.subrange(0, index + 1).drop_last() =~= block_data@.subrange(
                    0,
                    index as int,
                ));
            }
            if full {
                count = count + 1;
            }
            index = index + 1;
        }
        assert(block_data@.subrange(0, BLOCK_HEIGHT as int) =~= block_data@);
        count
    }

    /// When a collapse is triggered, takes out the lowest full row again and
    /// again until none is left, then sets the status back to idle. Each row
    /// taken out scores `ROW_SCORE` points once for each of the `ui_texts`
    /// score displays, and the score text is renewed. Returns, in order, what
    /// each taken-out row leaves for the world to do; there are as many as
    /// the field had full rows.
    pub fn run(
        &mut self,
        collapse_status: &mut CollapseStatus,
        block_data: &mut BlockData,
        score_text: &mut ScoreText,
        ui_texts: usize,
    ) -> (res: Vec<CollapseOutcome>)
        requires
            old(block_data).wf(),
            *old(collapse_status) == CollapseStatus::Triggered ==> old(score_text).score
                + ROW_SCORE * ui_texts * full_rows(old(block_data)@) <= i32::MAX,
        ensures
            final(block_data).wf(),
            *old(collapse_status) == CollapseStatus::Triggered ==> {
                &&& *final(collapse_status) == CollapseStatus::Idle
                &&& final(block_data)@ == collapse(old(block_data)@).0
                &&& res@.map_values(|o: CollapseOutcome| outcome_view(o)) == collapse(
                    old(block_data)@,
                ).1
                &&& res@.len() == full_rows(old(block_data)@)
                &&& final(score_text).score == old(score_text).score + ROW_SCORE * ui_texts
                    * res@.len()
                &&& if ui_texts > 0 && res@.len() > 0 {
                    final(score_text).shows_score()
                } else {
                    final(score_text).score_text@ == old(score_text).score_text@
                }
            },
            *old(collapse_status) == CollapseStatus::Idle ==> {
                &&& *final(collapse_status) == CollapseStatus::Idle
                &&& final(block_data)@ == old(block_data)@
                &&& res@.len() == 0
                &&& final(score_text).score == old(score_text).score
                &&& final(score_text).score_text@ == old(score_text).score_text@
            },
    {
        let mut outcomes: Vec<CollapseOutcome> = Vec::new();
        let ghost s0 = score_text.score as int;
        let ghost t0 = score_text.score_text@;
        if let CollapseStatus::Triggered = *collapse_status {
            let ghost start = block_data@;
            let ghost total = full_rows(start);
            proof {
                law_collapse_leaves_no_full_row(start);
            }
            loop
                invariant_except_break
                    block_data.wf(),
                    grid_shaped(start),
                    total == collapse(start).1.len(),
                    s0 + ROW_SCORE * ui_texts * total <= i32::MAX,
                    collapse(start) == (
                        collapse(block_data@).0,
                        outcomes@.map_values(|o: CollapseOutcome| outcome_view(o)) + collapse(
                            block_data@,
                        ).1,
                    ),
                    score_text.score == s0 + ROW_SCORE * ui_texts * outcomes@.len(),
                    ui_texts > 0 && outcomes@.len() > 0 ==> score_text.shows_score(),
                    !(ui_texts > 0 && outcomes@.len() > 0) ==> score_text.score_text@ == t0,
                ensures
                    block_data.wf(),
                    *collapse_status == CollapseStatus::Idle,
                    collapse(start) == (
                        block_data@,
                        outcomes@.map_values(|o: CollapseOutcome| outcome_view(o)),
                    ),
                    score_text.score == s0 + ROW_SCORE * ui_texts * outcomes@.len(),
                    ui_texts > 0 && outcomes@.len() > 0 ==> score_text.shows_score(),
                    !(ui_texts > 0 && outcomes@.len() > 0) ==> score_text.score_text@ == t0,
                decreases total_occupied(block_data@),
            {
                match Self::first_full_row(block_data) {
                    Some(index) => {
                        let ghost g = block_data@;
                        proof {
                            lemma_collapse_step(g, index as int);
                        }
                        let col_index: i64 = (index as i64 + 1) * BLOCK_SIZE;
                        assert((col_index / BLOCK_SIZE) - 1 == index);
                        let removed = block_data.get_row(col_index);
                        let moved = block_data.remove_lows(col_index);
                        let ghost before = outcomes@.map_values(|o: CollapseOutcome| outcome_view(o));
                        let ghost prev = outcomes@.len() as int;
                        outcomes.push(CollapseOutcome { removed, moved });
                        proof {
                            assert(outcomes@.map_values(|o: CollapseOutcome| outcome_view(o))
                                =~= before.push((g[index as int], rows_above(g, index as int))));
                            assert(collapse(g).1 == seq![(g[index as int], rows_above(g, index as int))]
                                + collapse(block_data@).1);
                            assert(before.push((g[index as int], rows_above(g, index as int)))
                                + collapse(block_data@).1 =~= before + collapse(g).1);
                            assert(outcomes@.len() <= total) by {
                                assert(collapse(start).1.len() == before.len() + collapse(g).1.len());
                            }
                        }
                        let mut u: usize = 0;
                        while u < ui_texts
                            invariant
                                u <= ui_texts,
                                0 <= prev,
                                prev + 1 <= total,
                                s0 + ROW_SCORE * ui_texts * total <= i32::MAX,
                                score_text.score == s0 + ROW_SCORE * ui_texts * prev + ROW_SCORE * u,
                                (ui_texts > 0 && prev > 0) || u > 0 ==> score_text.shows_score(),
                                !((ui_texts > 0 && prev > 0) || u > 0) ==> score_text.score_text@
                                    == t0,
                            decreases ui_texts - u,
                        {
                            proof {
                                assert(ROW_SCORE * ui_texts * prev + ROW_SCORE * (u + 1) <= ROW_SCORE
                                    * ui_texts * total) by (nonlinear_arith)
                                    requires
                                        u < ui_texts,
                                        0 <= prev,
                                        prev + 1 <= total,
                                        ROW_SCORE == 1000,
                                ;
                                assert(0 <= ROW_SCORE * ui_texts * prev) by (nonlinear_arith)
                                    requires
                                        0 <= prev,
                                        ROW_SCORE == 1000,
                                ;
                            }
                            score_text.add_score(ROW_SCORE as i32);
                            u = u + 1;
                        }
                        proof {
                            assert(ROW_SCORE * ui_texts * prev + ROW_SCORE * ui_texts == ROW_SCORE
                                * ui_texts * (prev + 1)) by (nonlinear_arith);
                        }
                    },
                    None => {
                        proof {
                            assert(collapse(block_data@).1 =~= Seq::<(Row, Row)>::empty());
                            assert(outcomes@.map_values(|o: CollapseOutcome| outcome_view(o))
                                + Seq::<(Row, Row)>::empty() =~= outcomes@.map_values(
                                |o: CollapseOutcome| outcome_view(o),
                            ));
                        }
                        *collapse_status = CollapseStatus::Idle;
                        break ;
                    },
                }
            }
            proof {
                assert(outcomes@.map_values(|o: CollapseOutcome| outcome_view(o)).len() == outcomes@.len());
            }
        }
        proof {
            assert(outcomes@.len() == 0 ==> outcomes@.map_values(|o: CollapseOutcome| outcome_view(o)) =~= Seq::<(Row, Row)>::empty());
        }
        outcomes
    }
}

} // verus!
