//! The field of settled blocks: twenty rows of ten cells, row 0 at the bottom.
use vstd::prelude::*;

use crate::commons::EntityId;
use crate::consts::{BLOCK_HEIGHT, BLOCK_SIZE, BLOCK_WIDTH, PLAY_PANE_WIDTH};
use crate::text::{decimal_string, decimal_text};

verus! {

/// One row of the field, leftmost cell first.
pub type Row = Seq<Option<EntityId>>;

/// Number of occupied cells of a row.
pub open spec fn occupied(row: Row) -> nat
    decreases row.len(),
{
    if row.len() == 0 {
        0
    } else {
        occupied(row.drop_last()) + if row.last() is Some {
            1nat
        } else {
            0nat
        }
    }
}

/// Every cell of the row holds a block.
pub open spec fn row_full(row: Row) -> bool {
    forall|i: int| 0 <= i < row.len() ==> (#[trigger] row[i]) is Some
}

/// A row of the field with no block in it.
pub open spec fn empty_row() -> Row {
    Seq::new(BLOCK_WIDTH as nat, |_i: int| None)
}

/// A field with no block in it.
pub open spec fn empty_grid() -> Seq<Row> {
    Seq::new(BLOCK_HEIGHT as nat, |_i: int| empty_row())
}

/// Number of occupied cells of the whole field.
pub open spec fn total_occupied(grid: Seq<Row>) -> nat
    decreases grid.len(),
{
    if grid.len() == 0 {
        0
    } else {
        total_occupied(grid.drop_last()) + occupied(grid.last())
    }
}

/// The rows, bottom first, one after the other.
pub open spec fn concat_rows(rows: Seq<Row>) -> Row
    decreases rows.len(),
{
    if rows.len() == 0 {
        Seq::empty()
    } else {
        concat_rows(rows.drop_last()) + rows.last()
    }
}

/// The row index (counted from the bottom) that a vertical pixel position
/// falls in; `None` below the first row. An index too large for `usize` is
/// saturated, as a float-to-integer cast does.
pub open spec fn col_index_of(m24: int) -> Option<int> {
    if m24 >= BLOCK_SIZE {
        let q = m24 / BLOCK_SIZE as int;
        Some(if q > usize::MAX { usize::MAX - 1 } else { q - 1 })
    } else {
        None
    }
}

/// The cell index (counted from the left) that a horizontal pixel position
/// falls in; `None` left of the field.
pub open spec fn row_index_of(m14: int) -> Option<int> {
    if m14 >= 0 {
        let q = m14 / BLOCK_SIZE as int + 1;
        Some(if q > usize::MAX { usize::MAX - 1 } else { q - 1 })
    } else {
        None
    }
}

/// The message of a position that lies outside the field.
pub open spec fn index_error_text(m: int) -> Seq<char> {
    "Index out of bounds given value with :"@ + decimal_text(m)
}

/// The message of a block placed on a cell that is already taken.
pub open spec fn duplicate_block_text() -> Seq<char> {
    "Game Over ... OR Hardly detected problem occured."@
}

/// The pixel position (`m14`, `m24`) lies on a cell of the field.
pub open spec fn on_field(m14: int, m24: int) -> bool {
    0 <= m14 < PLAY_PANE_WIDTH && BLOCK_SIZE <= m24 < BLOCK_SIZE * (BLOCK_HEIGHT + 1)
}

/// The cell under the pixel position, as (row from the bottom, cell from the left).
pub open spec fn cell_of(m14: int, m24: int) -> (int, int) {
    (m24 / BLOCK_SIZE as int - 1, m14 / BLOCK_SIZE as int)
}

/// A block lies on the field at the pixel position (`m14`, `m24`).
pub open spec fn block_at(grid: Seq<Row>, m14: int, m24: int) -> bool {
    0 <= m14 < PLAY_PANE_WIDTH && BLOCK_SIZE <= m24 && grid[cell_of(m14, m24).0][cell_of(
        m14,
        m24,
    ).1] is Some
}

/// `find_block` may look the position up without leaving the field: a
/// position it does not reject outright lies below the top of the field.
pub open spec fn lookup_in_bounds(m14: int, m24: int) -> bool {
    (0 <= m14 < PLAY_PANE_WIDTH && BLOCK_SIZE <= m24) ==> m24 < BLOCK_SIZE * (BLOCK_HEIGHT + 1)
}

/// Among the rows below row `below`, the highest one that has a block in cell
/// `row`, if any.
pub open spec fn top_index(grid: Seq<Row>, row: int, below: int) -> Option<int>
    decreases below,
{
    if below <= 0 {
        None
    } else if grid[below - 1][row] is Some {
        Some(below - 1)
    } else {
        top_index(grid, row, below - 1)
    }
}

pub proof fn lemma_top_index_range(grid: Seq<Row>, row: int, below: int)
    ensures
        top_index(grid, row, below) matches Some(c) ==> 0 <= c < below,
    decreases below,
{
    if below > 0 {
        lemma_top_index_range(grid, row, below - 1);
    }
}

/// The block of cell `row` in the highest row below row `below` that has one.
pub open spec fn top_entity(grid: Seq<Row>, row: int, below: int) -> Option<EntityId> {
    match top_index(grid, row, below) {
        Some(c) => grid[c][row],
        None => None,
    }
}

/// The field after row `index` is taken out: the rows above it move down by
/// one and an empty row comes in at the top. Taking out a row above the
/// last one only empties the top row.
pub open spec fn without_row(grid: Seq<Row>, index: int) -> Seq<Row> {
    let top = BLOCK_HEIGHT - 1;
    Seq::new(
        BLOCK_HEIGHT as nat,
        |i: int|
            if i < index && i < top {
                grid[i]
            } else if i < top {
                grid[i + 1]
            } else {
                empty_row()
            },
    )
}

/// The rows above row `index`, bottom first, one after the other.
pub open spec fn rows_above(grid: Seq<Row>, index: int) -> Row {
    let from = if index + 1 < BLOCK_HEIGHT {
        index + 1
    } else {
        BLOCK_HEIGHT as int
    };
    concat_rows(grid.subrange(from, BLOCK_HEIGHT as int))
}

/// The field with `entity` put on the cell under (`m14`, `m24`).
pub open spec fn with_block(grid: Seq<Row>, m14: int, m24: int, entity: EntityId) -> Seq<Row> {
    let (c, r) = cell_of(m14, m24);
    grid.update(c, grid[c].update(r, Some(entity)))
}

/// The text of one cell: a filled square for a block, a dash for an empty cell.
pub open spec fn cell_text(cell: Option<EntityId>) -> Seq<char> {
    if cell is Some {
        "ㅁ"@
    } else {
        "ㅡ"@
    }
}

/// The text of one row, leftmost cell first.
pub open spec fn row_text(row: Row) -> Seq<char>
    decreases row.len(),
{
    if row.len() == 0 {
        Seq::empty()
    } else {
        row_text(row.drop_last()) + cell_text(row.last())
    }
}

/// The text of the lowest `n` rows, the highest of them first, each ended by a newline.
pub open spec fn rows_text(grid: Seq<Row>, n: int) -> Seq<char>
    decreases n,
{
    if n <= 0 {
        Seq::empty()
    } else {
        row_text(grid[n - 1]) + "\n"@ + rows_text(grid, n - 1)
    }
}

/// The field as text, top row first.
pub open spec fn grid_text(grid: Seq<Row>) -> Seq<char> {
    rows_text(grid, grid.len() as int)
}

/// A field of the right shape: twenty rows of ten cells.
pub open spec fn grid_shaped(grid: Seq<Row>) -> bool {
    &&& grid.len() == BLOCK_HEIGHT
    &&& forall|r: int| 0 <= r < BLOCK_HEIGHT ==> (#[trigger] grid[r]).len() == BLOCK_WIDTH
}

/// The field of settled blocks. Each row keeps beside its cells the number
/// of blocks in it.
pub struct BlockData {
    data_length: Vec<usize>,
    data: Vec<Vec<Option<EntityId>>>,
}

impl View for BlockData {
    type V = Seq<Row>;

    closed spec fn view(&self) -> Seq<Row> {
        self.data@.map_values(|r: Vec<Option<EntityId>>| r@)
    }
}

proof fn lemma_occupied_bounds(row: Row)
    ensures
        occupied(row) <= row.len(),
        occupied(row) == row.len() <==> row_full(row),
    decreases row.len(),
{
    if row.len() > 0 {
        lemma_occupied_bounds(row.drop_last());
        if row_full(row) {
            assert(row_full(row.drop_last())) by {
                assert forall|i: int| 0 <= i < row.drop_last().len() implies (
                #[trigger] row.drop_last()[i]) is Some by {
                    assert(row.drop_last()[i] == row[i]);
                }
            }
            assert(row[row.len() - 1] is Some);
        }
        if occupied(row) == row.len() {
            assert forall|i: int| 0 <= i < row.len() implies (#[trigger] row[i]) is Some by {
                if i < row.len() - 1 {
                    assert(row.drop_last()[i] == row[i]);
                }
            }
        }
    }
}

proof fn lemma_occupied_update(row: Row, i: int, v: Option<EntityId>)
    requires
        0 <= i < row.len(),
    ensures
        occupied(row.update(i, v)) + (if row[i] is Some { 1int } else { 0int }) == occupied(row)
            + (if v is Some { 1int } else { 0int }),
    decreases row.len(),
{
    if i < row.len() - 1 {
        lemma_occupied_update(row.drop_last(), i, v);
        assert(row.update(i, v).drop_last() =~= row.drop_last().update(i, v));
    } else {
        assert(row.update(i, v).drop_last() =~= row.drop_last());
    }
}

proof fn lemma_occupied_empty(n: nat)
    ensures
        occupied(Seq::new(n, |_i: int| None::<EntityId>)) == 0,
    decreases n,
{
    if n > 0 {
        lemma_occupied_empty((n - 1) as nat);
        assert(Seq::new(n, |_i: int| None::<EntityId>).drop_last() =~= Seq::new(
            (n - 1) as nat,
            |_i: int| None::<EntityId>,
        ));
    }
}

impl BlockData {
    /// The number of blocks that each row keeps beside its cells.
    pub closed spec fn lengths(&self) -> Seq<usize> {
        self.data_length@
    }

    /// The field has twenty rows of ten cells and each row's count is the
    /// number of blocks in it.
    pub open spec fn wf(&self) -> bool {
        &&& grid_shaped(self@)
        &&& self.lengths().len() == BLOCK_HEIGHT
        &&& forall|r: int|
            0 <= r < BLOCK_HEIGHT ==> #[trigger] self.lengths()[r] == occupied(self@[r])
    }

    /// An empty field.
    pub fn new() -> (res: Self)
        ensures
            res.wf(),
            res@ == empty_grid(),
    {
        let mut data_length: Vec<usize> = Vec::new();
        let mut h: usize = 0;
        while h < BLOCK_HEIGHT
            invariant
                h <= BLOCK_HEIGHT,
                data_length@ == Seq::new(h as nat, |_i: int| 0usize),
            decreases BLOCK_HEIGHT - h,
        {
            data_length.push(0);
            h = h + 1;
            assert(data_length@ =~= Seq::new(h as nat, |_i: int| 0usize));
        }
        let mut data: Vec<Vec<Option<EntityId>>> = Vec::new();
        let mut h: usize = 0;
        while h < BLOCK_HEIGHT
            invariant
                h <= BLOCK_HEIGHT,
                data@.len() == h,
                forall|i: int| 0 <= i < h ==> (#[trigger] data@[i])@ == empty_row(),
            decreases BLOCK_HEIGHT - h,
        {
            data.push(Self::blank_row());
            h = h + 1;
        }
        let res = BlockData { data_length, data };
        proof {
            lemma_occupied_empty(BLOCK_WIDTH as nat);
            assert(res@ =~= empty_grid());
        }
        res
    }

    fn blank_row() -> (row: Vec<Option<EntityId>>)
        ensures
            row@ == empty_row(),
    {
        let mut row: Vec<Option<EntityId>> = Vec::new();
        let mut w: usize = 0;
        while w < BLOCK_WIDTH
            invariant
                w <= BLOCK_WIDTH,
                row@ == Seq::new(w as nat, |_i: int| None::<EntityId>),
            decreases BLOCK_WIDTH - w,
        {
            row.push(None);
            w = w + 1;
            assert(row@ =~= Seq::new(w as nat, |_i: int| None::<EntityId>));
        }
        row
    }

    fn copy_row(row: &Vec<Option<EntityId>>) -> (res: Vec<Option<EntityId>>)
        ensures
            res@ == row@,
    {
        let mut res: Vec<Option<EntityId>> = Vec::new();
        let mut k: usize = 0;
        while k < row.len()
            invariant
                k <= row.len(),
                res@ == row@.subrange(0, k as int),
            decreases row.len() - k,
        {
            let v: Option<EntityId> = row[k];
            res.push(v);
            k = k + 1;
            assert(res@ =~= row@.subrange(0, k as int));
        }
        assert(res@ =~= row@);
        res
    }

    proof fn lemma_rows(&self)
        ensures
            self.data@.len() == self@.len(),
            forall|c: int| 0 <= c < self@.len() ==> (#[trigger] self.data@[c])@ == self@[c],
    {
    }

    /// The cell `row` (from the left) of row `col` (from the bottom).
    pub fn cell(&self, col: usize, row: usize) -> (res: Option<EntityId>)
        requires
            self.wf(),
            col < BLOCK_HEIGHT,
            row < BLOCK_WIDTH,
        ensures
            res == self@[col as int][row as int],
    {
        proof {
            self.lemma_rows();
        }
        self.data[col][row]
    }

    /// Whether the row under the vertical pixel position holds a block in
    /// every cell.
    pub fn check_full(&self, matrix_m24: i64) -> (res: bool)
        requires
            self.wf(),
            BLOCK_SIZE <= matrix_m24 < BLOCK_SIZE * (BLOCK_HEIGHT + 1),
        ensures
            res == row_full(self@[cell_of(0, matrix_m24 as int).0]),
    {
        proof {
            self.lemma_rows();
        }
        let index = match Self::get_col_index_from_m24(matrix_m24) {
            Ok(i) => i,
            Err(_) => 0,
        };
        proof {
            lemma_occupied_bounds(self@[index as int]);
        }
        self.data_length[index] == BLOCK_WIDTH
    }

    /// The block of the highest occupied cell, in the column under `x_value`,
    /// among the rows below the one under `y_value`.
    pub fn get_top_block(&self, x_value: i64, y_value: i64) -> (res: Option<EntityId>)
        requires
            self.wf(),
            0 <= x_value,
            BLOCK_SIZE <= y_value < BLOCK_SIZE * (BLOCK_HEIGHT + 2),
            y_value >= 2 * BLOCK_SIZE ==> x_value < PLAY_PANE_WIDTH,
        ensures
            res == top_entity(self@, cell_of(x_value as int, y_value as int).1, cell_of(
                x_value as int,
                y_value as int,
            ).0),
    {
        proof {
            self.lemma_rows();
        }
        let index = match Self::get_row_index_from_m14(x_value) {
            Ok(i) => i,
            Err(_) => 0,
        };
        let col_index = match Self::get_col_index_from_m24(y_value) {
            Ok(i) => i,
            Err(_) => 0,
        };
        let mut ent: Option<EntityId> = None;
        let mut col: usize = 0;
        while col < col_index
            invariant
                self.wf(),
                col <= col_index <= BLOCK_HEIGHT,
                col_index > 0 ==> index < BLOCK_WIDTH,
                ent == top_entity(self@, index as int, col as int),
            decreases col_index - col,
        {
            proof {
                self.lemma_rows();
            }
            let v = self.data[col][index];
            if v.is_some() {
                ent = v;
            }
            col = col + 1;
        }
        ent
    }

    /// Among the rows below row `col`, the highest one with a block in cell
    /// `row`, as (`row`, that row).
    pub fn get_top_block_index(&self, row: usize, col: usize) -> (res: Option<(usize, usize)>)
        requires
            self.wf(),
            col <= BLOCK_HEIGHT,
            col > 0 ==> row < BLOCK_WIDTH,
        ensures
            match top_index(self@, row as int, col as int) {
                Some(c) => res == Some((row, c as usize)),
                None => res is None,
            },
            res matches Some(p) ==> p.1 < col,
            top_index(self@, row as int, col as int) matches Some(c) ==> 0 <= c < col,
    {
        proof {
            lemma_top_index_range(self@, row as int, col as int);
        }
        proof {
            self.lemma_rows();
        }
        let mut ent: Option<(usize, usize)> = None;
        let mut index: usize = 0;
        while index < col
            invariant
                self.wf(),
                index <= col <= BLOCK_HEIGHT,
                col > 0 ==> row < BLOCK_WIDTH,
                match top_index(self@, row as int, index as int) {
                    Some(c) => ent == Some((row, c as usize)),
                    None => ent is None,
                },
                ent matches Some(p) ==> p.1 < index,
            decreases col - index,
        {
            proof {
                self.lemma_rows();
            }
            if self.data[index][row].is_some() {
                ent = Some((row, index));
            }
            index = index + 1;
        }
        ent
    }

    /// Whether a block lies on the field at the pixel position.
    pub fn find_block(&self, matrix_m14: i64, matrix_m24: i64) -> (res: bool)
        requires
            self.wf(),
            lookup_in_bounds(matrix_m14 as int, matrix_m24 as int),
        ensures
            res == block_at(self@, matrix_m14 as int, matrix_m24 as int),
    {
        proof {
            self.lemma_rows();
        }
        if matrix_m14 < 0 || matrix_m14 >= PLAY_PANE_WIDTH || matrix_m24 < BLOCK_SIZE {
            return false;
        }
        let col_index = match Self::get_col_index_from_m24(matrix_m24) {
            Ok(i) => i,
            Err(_) => 0,
        };
        let row_index = match Self::get_row_index_from_m14(matrix_m14) {
            Ok(i) => i,
            Err(_) => 0,
        };
        self.data[col_index][row_index].is_some()
    }

    /// The row under the vertical pixel position.
    pub fn get_row(&self, matrix_m24: i64) -> (res: Vec<Option<EntityId>>)
        requires
            self.wf(),
            BLOCK_SIZE <= matrix_m24 < BLOCK_SIZE * (BLOCK_HEIGHT + 1),
        ensures
            res@ == self@[cell_of(0, matrix_m24 as int).0],
    {
        proof {
            self.lemma_rows();
        }
        let index = match Self::get_col_index_from_m24(matrix_m24) {
            Ok(i) => i,
            Err(_) => 0,
        };
        Self::copy_row(&self.data[index])
    }

    /// Puts `entity` on the cell under (`matrix_m14`, `matrix_m24`) if that
    /// cell is free; refuses a cell that is already taken.
    pub fn add_block(&mut self, matrix_m14: i64, matrix_m24: i64, entity: EntityId) -> (res: Result<(), &'static str>)
        requires
            old(self).wf(),
            on_field(matrix_m14 as int, matrix_m24 as int),
        ensures
            final(self).wf(),
            ({
                let (c, r) = cell_of(matrix_m14 as int, matrix_m24 as int);
                if old(self)@[c][r] is None {
                    &&& res is Ok
                    &&& final(self)@ == with_block(old(self)@, matrix_m14 as int, matrix_m24 as int, entity)
                } else {
                    &&& res matches Err(e) && e@ == duplicate_block_text()
                    &&& final(self)@ == old(self)@
                }
            }),
    {
        proof {
            self.lemma_rows();
        }
        let col_index = match Self::get_col_index_from_m24(matrix_m24) {
            Ok(i) => i,
            Err(_) => 0,
        };
        let row_index = match Self::get_row_index_from_m14(matrix_m14) {
            Ok(i) => i,
            Err(_) => 0,
        };
        if self.data[col_index][row_index].is_none() {
            let ghost g = self@;
            let mut row = Self::copy_row(&self.data[col_index]);
            row.set(row_index, Some(entity));
            self.data.set(col_index, row);
            let n = self.data_length[col_index];
            proof {
                lemma_occupied_update(g[col_index as int], row_index as int, Some(entity));
                lemma_occupied_bounds(g[col_index as int]);
            }
            self.data_length.set(col_index, n + 1);
            proof {
                self.lemma_rows();
                assert(self@ =~= with_block(g, matrix_m14 as int, matrix_m24 as int, entity));
                assert forall|r: int| 0 <= r < BLOCK_HEIGHT implies #[trigger] self.lengths()[r]
                    == occupied(self@[r]) by {
                    if r != col_index {
                        assert(self@[r] == g[r]);
                    }
                }
            }
            Ok(())
        } else {
            proof {
                reveal_strlit("Game Over ... OR Hardly detected problem occured.");
            }
            Err("Game Over ... OR Hardly detected problem occured.")
        }
    }

    /// Empties the row under the vertical pixel position.
    pub fn clear_row(&mut self, matrix_m24: i64)
        requires
            old(self).wf(),
            BLOCK_SIZE <= matrix_m24 < BLOCK_SIZE * (BLOCK_HEIGHT + 1),
        ensures
            final(self).wf(),
            final(self)@ == old(self)@.update(cell_of(0, matrix_m24 as int).0, empty_row()),
    {
        let index = match Self::get_col_index_from_m24(matrix_m24) {
            Ok(i) => i,
            Err(_) => 0,
        };
        let ghost g = self@;
        self.data.set(index, Self::blank_row());
        self.data_length.set(index, 0);
        proof {
            lemma_occupied_empty(BLOCK_WIDTH as nat);
            self.lemma_rows();
            assert(self@ =~= g.update(index as int, empty_row()));
            assert forall|r: int| 0 <= r < BLOCK_HEIGHT implies #[trigger] self.lengths()[r]
                == occupied(self@[r]) by {
                if r != index {
                    assert(self@[r] == g[r]);
                }
            }
        }
    }

    /// Takes out the row under the vertical pixel position: the rows above
    /// move down by one and the top row is emptied. Returns the cells of the
    /// rows that moved, bottom row first, as they were before the move.
    pub fn remove_lows(&mut self, matrix_m24: i64) -> (res: Vec<Option<EntityId>>)
        requires
            old(self).wf(),
            BLOCK_SIZE <= matrix_m24,
        ensures
            final(self).wf(),
            ({
                let index = col_index_of(matrix_m24 as int).unwrap();
                &&& final(self)@ == without_row(old(self)@, index)
                &&& res@ == rows_above(old(self)@, index)
            }),
    {
        let index = match Self::get_col_index_from_m24(matrix_m24) {
            Ok(i) => i,
            Err(_) => 0,
        };
        let ghost g = self@;
        let mut upper_vec: Vec<Option<EntityId>> = Vec::new();
        let mut count: usize = index + 1;
        proof {
            if count <= BLOCK_HEIGHT {
                assert(g.subrange(count as int, count as int) =~= Seq::<Row>::empty());
            }
        }
        while count < BLOCK_HEIGHT
            invariant
                index + 1 <= count,
                index < BLOCK_HEIGHT ==> count <= BLOCK_HEIGHT,
                grid_shaped(g),
                self.wf(),
                forall|i: int|
                    0 <= i < BLOCK_HEIGHT ==> #[trigger] self@[i] == if i < index {
                        g[i]
                    } else if i < count - 1 {
                        g[i + 1]
                    } else {
                        g[i]
                    },
                index + 1 >= BLOCK_HEIGHT ==> upper_vec@ == Seq::<Option<EntityId>>::empty(),
                count <= BLOCK_HEIGHT ==> upper_vec@ == concat_rows(
                    g.subrange(index + 1, count as int),
                ),
            decreases BLOCK_HEIGHT - count,
        {
            proof {
                self.lemma_rows();
            }
            let moved = Self::copy_row(&self.data[count]);
            let n = self.data_length[count];
            self.data.set(count - 1, moved);
            self.data_length.set(count - 1, n);
            proof {
                self.lemma_rows();
            }
            let mut k: usize = 0;
            let ghost before = upper_vec@;
            while k < BLOCK_WIDTH
                invariant
                    k <= BLOCK_WIDTH,
                    count < BLOCK_HEIGHT,
                    self.data@.len() == BLOCK_HEIGHT,
                    self.data@[count as int]@ == g[count as int],
                    g[count as int].len() == BLOCK_WIDTH,
                    upper_vec@ == before + g[count as int].subrange(0, k as int),
                decreases BLOCK_WIDTH - k,
            {
                let v: Option<EntityId> = self.data[count][k];
                upper_vec.push(v);
                k = k + 1;
                assert(upper_vec@ =~= before + g[count as int].subrange(0, k as int));
            }
            proof {
                assert(g[count as int].subrange(0, BLOCK_WIDTH as int) =~= g[count as int]);
                assert(g.subrange(index + 1, count + 1).drop_last() =~= g.subrange(
                    index + 1,
                    count as int,
                ));
                assert(self.lengths()[count - 1] == occupied(self@[count - 1]));
            }
            count = count + 1;
        }
        proof {
            self.lemma_rows();
        }
        let top = BLOCK_HEIGHT - 1;
        self.data.set(top, Self::blank_row());
        self.data_length.set(top, 0);
        proof {
            self.lemma_rows();
            lemma_occupied_empty(BLOCK_WIDTH as nat);
            assert(self@ =~= without_row(g, index as int));
            assert(self.wf());
            if index + 1 < BLOCK_HEIGHT {
                assert(upper_vec@ == rows_above(g, index as int));
            } else {
                assert(g.subrange(BLOCK_HEIGHT as int, BLOCK_HEIGHT as int) =~= Seq::<Row>::empty());
                assert(upper_vec@ =~= Seq::<Option<EntityId>>::empty());
            }
        }
        upper_vec
    }

    /// The field as text, top row first: a filled square for each block, a
    /// dash for each empty cell, a newline after each row.
    pub fn to_display_string(&self) -> (res: String)
        requires
            self.wf(),
        ensures
            res@ == grid_text(self@),
    {
        proof {
            self.lemma_rows();
        }
        let mut out = String::new();
        let mut h: usize = BLOCK_HEIGHT;
        while h > 0
            invariant
                self.wf(),
                h <= BLOCK_HEIGHT,
                self.data@.len() == BLOCK_HEIGHT,
                forall|c: int| 0 <= c < BLOCK_HEIGHT ==> (#[trigger] self.data@[c])@ == self@[c],
                rows_text(self@, BLOCK_HEIGHT as int) == out@ + rows_text(self@, h as int),
            decreases h,
        {
            h = h - 1;
            let ghost before = out@;
            let mut k: usize = 0;
            while k < BLOCK_WIDTH
                invariant
                    k <= BLOCK_WIDTH,
                    h < BLOCK_HEIGHT,
                    self.data@.len() == BLOCK_HEIGHT,
                    self.data@[h as int]@ == self@[h as int],
                    self@[h as int].len() == BLOCK_WIDTH,
                    out@ == before + row_text(self@[h as int].subrange(0, k as int)),
                decreases BLOCK_WIDTH - k,
            {
                let cell: Option<EntityId> = self.data[h][k];
                if cell.is_some() {
                    proof {
                        reveal_strlit("ㅁ");
                    }
                    out.append("ㅁ");
                } else {
                    proof {
                        reveal_strlit("ㅡ");
                    }
                    out.append("ㅡ");
                }
                proof {
                    assert(self@[h as int].subrange(0, k + 1).drop_last() =~= self@[h as int].subrange(
                        0,
                        k as int,
                    ));
                }
                k = k + 1;
                assert(out@ =~= before + row_text(self@[h as int].subrange(0, k as int)));
            }
            proof {
                reveal_strlit("\n");
            }
            out.append("\n");
            proof {
                assert(self@[h as int].subrange(0, BLOCK_WIDTH as int) =~= self@[h as int]);
                assert(out@ =~= before + row_text(self@[h as int]) + "\n"@);
                assert(rows_text(self@, h + 1) == row_text(self@[h as int]) + "\n"@ + rows_text(
                    self@,
                    h as int,
                ));
                assert(rows_text(self@, BLOCK_HEIGHT as int) =~= out@ + rows_text(self@, h as int));
            }
        }
        out
    }

    /// The row index (from the bottom) of a vertical pixel position.
    pub fn get_col_index_from_m24(matrix_m24: i64) -> (res: Result<usize, String>)
        ensures
            match col_index_of(matrix_m24 as int) {
                Some(i) => res == Ok::<usize, String>(i as usize),
                None => res matches Err(e) && e@ == index_error_text(matrix_m24 as int),
            },
    {
        if matrix_m24 >= BLOCK_SIZE {
            let q = matrix_m24 / BLOCK_SIZE;
            if (q as u64) > (usize::MAX as u64) {
                Ok(usize::MAX - 1)
            } else {
                Ok((q as usize) - 1)
            }
        } else {
            let mut msg = String::from_str("Index out of bounds given value with :");
            let num = decimal_string(matrix_m24);
            msg.append(num.as_str());
            proof {
                reveal_strlit("Index out of bounds given value with :");
            }
            Err(msg)
        }
    }

    /// The cell index (from the left) of a horizontal pixel position.
    pub fn get_row_index_from_m14(matrix_m14: i64) -> (res: Result<usize, String>)
        ensures
            match row_index_of(matrix_m14 as int) {
                Some(i) => res == Ok::<usize, String>(i as usize),
                None => res matches Err(e) && e@ == index_error_text(matrix_m14 as int),
            },
    {
        if matrix_m14 >= 0 {
            let q = matrix_m14 / BLOCK_SIZE;
            if (q as u64) >= (usize::MAX as u64) {
                Ok(usize::MAX - 1)
            } else {
                Ok(q as usize)
            }
        } else {
            let mut msg = String::from_str("Index out of bounds given value with :");
            let num = decimal_string(matrix_m14);
            msg.append(num.as_str());
            Err(msg)
        }
    }
}

} // verus!

verus! {

proof fn lemma_total_concat(a: Seq<Row>, b: Seq<Row>)
    ensures
        total_occupied(a + b) == total_occupied(a) + total_occupied(b),
    decreases b.len(),
{
    if b.len() > 0 {
        lemma_total_concat(a, b.drop_last());
        assert((a + b).drop_last() =~= a + b.drop_last());
    } else {
        assert(a + b =~= a);
    }
}

proof fn lemma_total_single(r: Row)
    ensures
        total_occupied(seq![r]) == occupied(r),
{
    assert(seq![r].drop_last() =~= Seq::<Row>::empty());
    assert(total_occupied(Seq::<Row>::empty()) == 0);
    assert(seq![r].last() == r);
}

/// Taking out a row of the field takes away exactly the blocks of that row:
/// the other blocks move, none is lost and none appears.
pub proof fn law_removal_takes_out_one_row(grid: Seq<Row>, index: int)
    requires
        grid_shaped(grid),
        0 <= index < BLOCK_HEIGHT,
    ensures
        total_occupied(without_row(grid, index)) + occupied(grid[index]) == total_occupied(grid),
{
    let n = BLOCK_HEIGHT as int;
    let below = grid.subrange(0, index);
    let above = grid.subrange(index + 1, n);
    assert(grid =~= below + seq![grid[index]] + above);
    assert(without_row(grid, index) =~= below + above + seq![empty_row()]);
    lemma_total_concat(below + seq![grid[index]], above);
    lemma_total_concat(below, seq![grid[index]]);
    lemma_total_concat(below + above, seq![empty_row()]);
    lemma_total_concat(below, above);
    lemma_total_single(grid[index]);
    lemma_total_single(empty_row());
    lemma_occupied_empty(BLOCK_WIDTH as nat);
}

/// A block put on a free cell is found there afterwards, and every other
/// cell of the field reads as before.
pub proof fn law_added_block_is_found(
    grid: Seq<Row>,
    m14: int,
    m24: int,
    entity: EntityId,
    x: int,
    y: int,
)
    requires
        grid_shaped(grid),
        on_field(m14, m24),
        on_field(x, y),
    ensures
        block_at(with_block(grid, m14, m24, entity), m14, m24),
        cell_of(x, y) != cell_of(m14, m24) ==> block_at(with_block(grid, m14, m24, entity), x, y)
            == block_at(grid, x, y),
{
}

/// After a row is emptied no block is found anywhere on it, and no other
/// row changes.
pub proof fn law_cleared_row_is_empty(grid: Seq<Row>, m24: int, x: int, y: int)
    requires
        grid_shaped(grid),
        BLOCK_SIZE <= m24 < BLOCK_SIZE * (BLOCK_HEIGHT + 1),
        on_field(x, y),
    ensures
        cell_of(x, y).0 == cell_of(0, m24).0 ==> !block_at(
            grid.update(cell_of(0, m24).0, empty_row()),
            x,
            y,
        ),
        cell_of(x, y).0 != cell_of(0, m24).0 ==> block_at(
            grid.update(cell_of(0, m24).0, empty_row()),
            x,
            y,
        ) == block_at(grid, x, y),
{
}

/// A row is full exactly when it holds as many blocks as it has cells;
/// this is what the count kept beside each row is compared with.
pub proof fn law_full_row_count(row: Row)
    ensures
        row_full(row) <==> occupied(row) == row.len(),
        occupied(row) <= row.len(),
{
    lemma_occupied_bounds(row);
}

} // verus!
