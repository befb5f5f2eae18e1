//! Where the rendered characters land in the terminal.
//!
//! The graph takes at most `width + 1` samples (overlapping windows give
//! `width` characters). Newest data is on the left by default; drawn left to
//! right, rows are aligned to the right edge instead. Blank cells are left
//! untouched so whatever lies beneath shows through.
use vstd::prelude::*;

use crate::render::RenderOutput;

verus! {

/// Which side the newest sample is drawn on.
#[derive(Debug, Clone, Copy, PartialEq, Eq, Structural)]
pub enum Direction {
    /// Newest data on the right.
    LeftToRight,
    /// Newest data on the left.
    RightToLeft,
}

impl Default for Direction {
    fn default() -> (d: Self)
        ensures
            d == Direction::RightToLeft,
    {
        Direction::RightToLeft
    }
}

/// One character to write into the terminal, at column `x` and row `y`.
#[derive(Debug, Clone, Copy, PartialEq, Eq)]
pub struct CellWrite {
    pub x: u16,
    pub y: u16,
    pub ch: char,
    pub rgb: (u8, u8, u8),
}

/// How many of `len` samples a graph `width` columns wide shows.
pub fn points_shown(len: usize, width: u16) -> (n: usize)
    ensures
        n == if len <= width + 1 {
            len as int
        } else {
            width + 1
        },
{
    let max_points: usize = (width as usize) + 1;
    if len <= max_points {
        len
    } else {
        max_points
    }
}

/// The column at which a row of `row_len` cells starts, within an area
/// `width` columns wide.
pub open spec fn offset_of(direction: Direction, width: int, row_len: int) -> int {
    if direction == Direction::LeftToRight && row_len <= width {
        width - row_len
    } else {
        0
    }
}

/// The column at which a row of `row_len` cells starts: rows drawn left to
/// right are aligned right, the others left.
pub fn column_offset(direction: Direction, width: u16, row_len: usize) -> (off: u16)
    ensures
        off == offset_of(direction, width as int, row_len as int),
{
    if direction == Direction::LeftToRight {
        if row_len <= width as usize {
            width - (row_len as u16)
        } else {
            0
        }
    } else {
        0
    }
}

/// The write of `cell` at column `x`, row `y`.
pub open spec fn write_at(x: int, y: int, cell: (char, (u8, u8, u8))) -> CellWrite {
    CellWrite { x: x as u16, y: y as u16, ch: cell.0, rgb: cell.1 }
}

/// The writes for one row of cells starting at column `x0` of terminal row
/// `y`, left to right, skipping blank cells.
pub open spec fn row_writes(row: Seq<(char, (u8, u8, u8))>, x0: int, y: int) -> Seq<CellWrite>
    decreases row.len(),
{
    if row.len() == 0 {
        Seq::empty()
    } else {
        let c = row.len() - 1;
        let cell = row.last();
        let before = row_writes(row.drop_last(), x0, y);
        if cell.0 == ' ' {
            before
        } else {
            before.push(write_at(x0 + c, y, cell))
        }
    }
}

proof fn lemma_row_writes_last(row: Seq<(char, (u8, u8, u8))>, x0: int, y: int)
    requires
        row.len() > 0,
    ensures
        row_writes(row, x0, y) == if row.last().0 == ' ' {
            row_writes(row.drop_last(), x0, y)
        } else {
            row_writes(row.drop_last(), x0, y).push(write_at(x0 + row.len() - 1, y, row.last()))
        },
{
}

/// The writes for a grid of rows drawn from `(x, y)` in an area `width`
/// columns wide, top row first.
pub open spec fn grid_writes(
    rows: Seq<Seq<(char, (u8, u8, u8))>>,
    x: int,
    y: int,
    width: int,
    direction: Direction,
) -> Seq<CellWrite>
    decreases rows.len(),
{
    if rows.len() == 0 {
        Seq::empty()
    } else {
        let k = rows.len() - 1;
        grid_writes(rows.drop_last(), x, y, width, direction) + row_writes(
            rows.last(),
            x + offset_of(direction, width, rows.last().len() as int),
            y + k,
        )
    }
}

/// The rows of a rendered graph, each as the sequence of its cells.
pub open spec fn cell_rows(output: RenderOutput) -> Seq<Seq<(char, (u8, u8, u8))>> {
    output.rows@.map_values(|row: Vec<(char, (u8, u8, u8))>| row@)
}

/// Every write of a row lands on that row, within the row's columns, and
/// carries a visible character.
pub proof fn lemma_row_writes_within(row: Seq<(char, (u8, u8, u8))>, x0: int, y: int)
    requires
        0 <= x0,
        x0 + row.len() <= u16::MAX,
        0 <= y <= u16::MAX,
    ensures
        forall|i: int|
            0 <= i < row_writes(row, x0, y).len() ==> {
                let w = #[trigger] row_writes(row, x0, y)[i];
                &&& x0 <= w.x < x0 + row.len()
                &&& w.y == y
                &&& w.ch != ' '
            },
    decreases row.len(),
{
    if row.len() > 0 {
        lemma_row_writes_within(row.drop_last(), x0, y);
        lemma_row_writes_last(row, x0, y);
    }
}

/// Every write for a grid drawn from `(x, y)` lands inside the area: within
/// `width` columns from `x` and one of the grid's rows below `y`.
pub proof fn lemma_grid_writes_within(
    rows: Seq<Seq<(char, (u8, u8, u8))>>,
    x: int,
    y: int,
    width: int,
    direction: Direction,
)
    requires
        0 <= x,
        0 <= y,
        x + width <= u16::MAX,
        y + rows.len() <= u16::MAX,
        forall|k: int| 0 <= k < rows.len() ==> (#[trigger] rows[k]).len() <= width,
    ensures
        forall|i: int|
            0 <= i < grid_writes(rows, x, y, width, direction).len() ==> {
                let w = #[trigger] grid_writes(rows, x, y, width, direction)[i];
                &&& x <= w.x < x + width
                &&& y <= w.y < y + rows.len()
                &&& w.ch != ' '
            },
    decreases rows.len(),
{
    if rows.len() > 0 {
        let k = rows.len() - 1;
        let last = rows.last();
        let x0 = x + offset_of(direction, width, last.len() as int);
        assert(rows[k] == last);
        lemma_grid_writes_within(rows.drop_last(), x, y, width, direction);
        lemma_row_writes_within(last, x0, y + k);
        let before = grid_writes(rows.drop_last(), x, y, width, direction);
        let tail = row_writes(last, x0, y + k);
        assert forall|i: int| 0 <= i < grid_writes(rows, x, y, width, direction).len() implies {
            let w = #[trigger] grid_writes(rows, x, y, width, direction)[i];
            &&& x <= w.x < x + width
            &&& y <= w.y < y + rows.len()
            &&& w.ch != ' '
        } by {
            if i < before.len() {
                assert(grid_writes(rows, x, y, width, direction)[i] == before[i]);
            } else {
                assert(grid_writes(rows, x, y, width, direction)[i] == tail[i - before.len()]);
            }
        }
    }
}

/// Every character of `output` that is not blank, with the terminal
/// position it goes to when the graph area starts at `(x, y)` and is
/// `width` columns wide.
pub fn place_cells(output: &RenderOutput, x: u16, y: u16, width: u16, direction: Direction) -> (w:
    Vec<CellWrite>)
    requires
        x + width <= u16::MAX,
        y + output.rows@.len() <= u16::MAX,
        forall|k: int| 0 <= k < output.rows@.len() ==> (#[trigger] output.rows@[k])@.len() <= width,
    ensures
        w@ == grid_writes(cell_rows(*output), x as int, y as int, width as int, direction),
{
    let ghost rows = cell_rows(*output);
    let mut w: Vec<CellWrite> = Vec::new();
    let mut k: usize = 0;
    while k < output.rows.len()
        invariant
            k <= output.rows@.len(),
            rows == cell_rows(*output),
            x + width <= u16::MAX,
            y + output.rows@.len() <= u16::MAX,
            forall|i: int| 0 <= i < output.rows@.len() ==> (#[trigger] output.rows@[i])@.len() <= width,
            w@ == grid_writes(rows.take(k as int), x as int, y as int, width as int, direction),
        decreases output.rows@.len() - k,
    {
        let row = &output.rows[k];
        let off = column_offset(direction, width, row.len());
        let ghost before = w@;
        let mut c: usize = 0;
        while c < row.len()
            invariant
                c <= row@.len(),
                k < output.rows@.len(),
                rows.len() == output.rows@.len(),
                row@ == rows[k as int],
                row@.len() <= width,
                off == offset_of(direction, width as int, row@.len() as int),
                x + width <= u16::MAX,
                y + k < u16::MAX,
                w@ == before + row_writes(row@.take(c as int), x + off, y + k),
            decreases row@.len() - c,
        {
            let (ch, rgb) = row[c];
            let ghost next = row@.take(c as int + 1);
            assert(next.drop_last() =~= row@.take(c as int));
            assert(next.last() == (ch, rgb));
            proof {
                lemma_row_writes_last(next, x + off, y + k);
            }
            if ch != ' ' {
                let cell = CellWrite { x: x + off + (c as u16), y: y + (k as u16), ch, rgb };
                assert(cell == write_at(x + off + next.len() - 1, y + k, next.last()));
                assert(row_writes(next, x + off, y + k) == row_writes(row@.take(c as int), x + off, y + k).push(cell));
                w.push(cell);
                assert(w@ =~= before + row_writes(next, x + off, y + k));
            }
            c = c + 1;
        }
        assert(row@.take(row@.len() as int) =~= row@);
        assert(rows.take(k as int + 1).drop_last() =~= rows.take(k as int));
        k = k + 1;
    }
    assert(rows.take(output.rows@.len() as int) =~= rows);
    w
}

/// Drawn left to right, a row that fits ends at the area's right edge;
/// drawn right to left, it starts at the left edge.
pub proof fn lemma_row_alignment(width: int, row_len: int)
    requires
        0 <= row_len <= width,
    ensures
        offset_of(Direction::LeftToRight, width, row_len) + row_len == width,
        offset_of(Direction::RightToLeft, width, row_len) == 0,
{
}

} // verus!
