//! The 3x3 board: cell state, the occupied-cell counter, the single mutating
//! operation `mark_cell`, and win detection over rows, columns and diagonals.

use vstd::prelude::*;

verus! {

/// The symbol a player places on a cell.
#[derive(Clone, Copy, Debug, PartialEq, Eq, Structural)]
pub enum Figure {
    Circle,
    Cross,
}

/// Returned by `mark_cell` when the target cell is already occupied.
#[derive(Clone, Copy, Debug, PartialEq, Eq, Structural)]
pub struct CellOccupiedError;

/// Row-major position of cell (row, col) in the flat sequence of 9 cells.
pub open spec fn idx(row: int, col: int) -> int {
    row * 3 + col
}

/// 1 for an occupied cell, 0 for an empty one.
pub open spec fn cell_filled(c: Option<Figure>) -> int {
    if c is Some {
        1
    } else {
        0
    }
}

/// How many of the 9 cells are occupied.
pub open spec fn occupied_cells(s: Seq<Option<Figure>>) -> int
    recommends
        s.len() == 9,
{
    cell_filled(s[0]) + cell_filled(s[1]) + cell_filled(s[2]) + cell_filled(s[3]) + cell_filled(
        s[4],
    ) + cell_filled(s[5]) + cell_filled(s[6]) + cell_filled(s[7]) + cell_filled(s[8])
}

/// The board of a freshly started game: all 9 cells empty.
pub open spec fn empty_board() -> Seq<Option<Figure>> {
    Seq::new(9, |i: int| None)
}

/// The three cells at positions i0, i1, i2 all hold the same figure.
pub open spec fn three_in_line(s: Seq<Option<Figure>>, i0: int, i1: int, i2: int) -> bool {
    s[i0] is Some && s[i0] == s[i1] && s[i1] == s[i2]
}

/// Row r is fully occupied by a single figure.
pub open spec fn row_complete(s: Seq<Option<Figure>>, r: int) -> bool {
    three_in_line(s, idx(r, 0), idx(r, 1), idx(r, 2))
}

/// Column c is fully occupied by a single figure.
pub open spec fn col_complete(s: Seq<Option<Figure>>, c: int) -> bool {
    three_in_line(s, idx(0, c), idx(1, c), idx(2, c))
}

/// The main diagonal is fully occupied by a single figure.
pub open spec fn main_diag_complete(s: Seq<Option<Figure>>) -> bool {
    three_in_line(s, idx(0, 0), idx(1, 1), idx(2, 2))
}

/// The anti-diagonal is fully occupied by a single figure.
pub open spec fn anti_diag_complete(s: Seq<Option<Figure>>) -> bool {
    three_in_line(s, idx(0, 2), idx(1, 1), idx(2, 0))
}

/// Some row, column, or diagonal is fully occupied by a single figure.
pub open spec fn winning_line(s: Seq<Option<Figure>>) -> bool {
    ||| exists|r: int| 0 <= r < 3 && #[trigger] row_complete(s, r)
    ||| exists|c: int| 0 <= c < 3 && #[trigger] col_complete(s, c)
    ||| main_diag_complete(s)
    ||| anti_diag_complete(s)
}

/// The text a rendered cell shows: blank for empty, 'x' for Cross, 'o' for
/// Circle.
pub open spec fn cell_text(c: Option<Figure>) -> Seq<char> {
    match c {
        None => " "@,
        Some(Figure::Cross) => "x"@,
        Some(Figure::Circle) => "o"@,
    }
}

/// The rendered text of row r: its three cells between rules, followed by a
/// horizontal rule line.
pub open spec fn row_text(s: Seq<Option<Figure>>, r: int) -> Seq<char> {
    "|  "@ + cell_text(s[idx(r, 0)]) + "  |  "@ + cell_text(s[idx(r, 1)]) + "  |  "@ + cell_text(
        s[idx(r, 2)],
    ) + "  |\n-------------------\n"@
}

/// The rendered text of the whole board: a horizontal rule line, then the
/// three rows in reading order.
pub open spec fn board_text(s: Seq<Option<Figure>>) -> Seq<char> {
    "-------------------\n"@ + row_text(s, 0) + row_text(s, 1) + row_text(s, 2)
}

/// The 3x3 grid, stored row-major, with a running count of occupied cells.
pub struct Board {
    pub cells: Vec<Option<Figure>>,
    pub marked_count: usize,
}

impl View for Board {
    type V = Seq<Option<Figure>>;

    open spec fn view(&self) -> Seq<Option<Figure>> {
        self.cells@
    }
}

impl Board {
    /// The board has exactly 9 cells and the counter matches the cells.
    pub open spec fn wf(&self) -> bool {
        &&& self@.len() == 9
        &&& self.marked_count == occupied_cells(self@)
    }

    /// A fresh board: all cells empty, count 0.
    pub fn new() -> (b: Board)
        ensures
            b.wf(),
            b@ == empty_board(),
            b.marked_count == 0,
    {
        let mut cells: Vec<Option<Figure>> = Vec::new();
        let mut i: usize = 0;
        while i < 9
            invariant
                i <= 9,
                cells@.len() == i,
                forall|k: int| 0 <= k < i ==> cells@[k] is None,
            decreases 9 - i,
        {
            cells.push(None);
            i += 1;
        }
        let b = Board { cells, marked_count: 0 };
        proof {
            assert(b@ =~= empty_board());
        }
        b
    }

    /// Row-major position of (row, col) in the cell vector.
    pub fn get_position(&self, row: usize, col: usize) -> (p: usize)
        requires
            row < 3,
            col < 3,
        ensures
            p == idx(row as int, col as int),
            p < 9,
    {
        row * 3 + col
    }

    /// The content of the cell at (row, col).
    pub fn get_cell(&self, row: usize, col: usize) -> (c: Option<Figure>)
        requires
            self.wf(),
            row < 3,
            col < 3,
        ensures
            c == self@[idx(row as int, col as int)],
    {
        let p = self.get_position(row, col);
        self.cells[p]
    }

    /// True iff the cell at (row, col) is empty.
    pub fn cell_is_empty(&self, row: usize, col: usize) -> (r: bool)
        requires
            self.wf(),
            row < 3,
            col < 3,
        ensures
            r <==> self@[idx(row as int, col as int)] is None,
    {
        self.get_cell(row, col).is_none()
    }

    /// The only mutating operation. On an empty target cell it places the
    /// figure, raises the count by one and returns the new count; on an
    /// occupied cell it returns `CellOccupiedError` and changes nothing.
    pub fn mark_cell(&mut self, fig: Figure, row: usize, col: usize) -> (r: Result<
        usize,
        CellOccupiedError,
    >)
        requires
            old(self).wf(),
            row < 3,
            col < 3,
        ensures
            final(self).wf(),
            r is Ok <==> old(self)@[idx(row as int, col as int)] is None,
            old(self)@[idx(row as int, col as int)] is Some ==> {
                &&& *final(self) == *old(self)
                &&& r == Err::<usize, CellOccupiedError>(CellOccupiedError)
            },
            old(self)@[idx(row as int, col as int)] is None ==> {
                &&& final(self)@ == old(self)@.update(
                    idx(row as int, col as int),
                    Some(fig),
                )
                &&& final(self).marked_count == old(self).marked_count + 1
                &&& r == Ok::<usize, CellOccupiedError>(final(self).marked_count)
            },
            final(self)@ == mark_result(
                old(self)@,
                Mark { fig, row: row as int, col: col as int },
            ),
    {
        if !self.cell_is_empty(row, col) {
            return Err(CellOccupiedError);
        }
        let position = self.get_position(row, col);
        proof {
            lemma_fill_increments(self@, idx(row as int, col as int), fig);
        }
        self.cells[position] = Some(fig);
        self.marked_count = self.marked_count + 1;
        Ok(self.marked_count)
    }

    /// True iff the three cells at the given coordinates all hold the same
    /// figure.
    fn line_complete(
        &self,
        r0: usize,
        c0: usize,
        r1: usize,
        c1: usize,
        r2: usize,
        c2: usize,
    ) -> (b: bool)
        requires
            self.wf(),
            r0 < 3,
            c0 < 3,
            r1 < 3,
            c1 < 3,
            r2 < 3,
            c2 < 3,
        ensures
            b == three_in_line(
                self@,
                idx(r0 as int, c0 as int),
                idx(r1 as int, c1 as int),
                idx(r2 as int, c2 as int),
            ),
    {
        match (self.get_cell(r0, c0), self.get_cell(r1, c1), self.get_cell(r2, c2)) {
            (Some(x), Some(y), Some(z)) => x == y && y == z,
            _ => false,
        }
    }

    /// Scans the 3 rows, then the 3 columns, then the two diagonals for three
    /// cells holding the same figure. True iff the board has a winning line.
    pub fn complete_line(&self) -> (b: bool)
        requires
            self.wf(),
        ensures
            b == winning_line(self@),
    {
        let mut r: usize = 0;
        while r < 3
            invariant
                self.wf(),
                r <= 3,
                forall|k: int| 0 <= k < r ==> !#[trigger] row_complete(self@, k),
            decreases 3 - r,
        {
            if self.line_complete(r, 0, r, 1, r, 2) {
                proof {
                    assert(row_complete(self@, r as int));
                }
                return true;
            }
            r += 1;
        }
        let mut c: usize = 0;
        while c < 3
            invariant
                self.wf(),
                c <= 3,
                forall|k: int| 0 <= k < c ==> !#[trigger] col_complete(self@, k),
            decreases 3 - c,
        {
            if self.line_complete(0, c, 1, c, 2, c) {
                proof {
                    assert(col_complete(self@, c as int));
                }
                return true;
            }
            c += 1;
        }
        if self.line_complete(0, 0, 1, 1, 2, 2) {
            return true;
        }
        if self.line_complete(0, 2, 1, 1, 2, 0) {
            return true;
        }
        false
    }

    /// The rendered text of row r.
    fn render_row(&self, r: usize) -> (out: String)
        requires
            self.wf(),
            r < 3,
        ensures
            out@ == row_text(self@, r as int),
    {
        let mut out = String::from_str("|  ");
        out.append(cell_str(self.get_cell(r, 0)));
        out.append("  |  ");
        out.append(cell_str(self.get_cell(r, 1)));
        out.append("  |  ");
        out.append(cell_str(self.get_cell(r, 2)));
        out.append("  |\n-------------------\n");
        proof {
            assert(out@ =~= row_text(self@, r as int));
        }
        out
    }

    /// A human-readable picture of the grid: empty cells blank, Cross as 'x',
    /// Circle as 'o', rows separated by horizontal rule lines.
    pub fn render(&self) -> (out: String)
        requires
            self.wf(),
        ensures
            out@ == board_text(self@),
    {
        let mut out = String::from_str("-------------------\n");
        let row0 = self.render_row(0);
        out.append(row0.as_str());
        let row1 = self.render_row(1);
        out.append(row1.as_str());
        let row2 = self.render_row(2);
        out.append(row2.as_str());
        proof {
            assert(out@ =~= board_text(self@));
        }
        out
    }
}

/// The text of one cell, as `cell_text` states it.
fn cell_str(c: Option<Figure>) -> (r: &'static str)
    ensures
        r@ == cell_text(c),
{
    match c {
        None => " ",
        Some(Figure::Cross) => "x",
        Some(Figure::Circle) => "o",
    }
}

/// The occupied count of a 9-cell board is bounded by 9.
pub proof fn lemma_occupied_cells_bounds(s: Seq<Option<Figure>>)
    requires
        s.len() == 9,
    ensures
        0 <= occupied_cells(s) <= 9,
{
}

/// Filling an empty cell raises the occupied count by exactly one.
pub proof fn lemma_fill_increments(s: Seq<Option<Figure>>, i: int, f: Figure)
    requires
        s.len() == 9,
        0 <= i < 9,
        s[i] is None,
    ensures
        occupied_cells(s.update(i, Some(f))) == occupied_cells(s) + 1,
        occupied_cells(s) <= 8,
{
}

/// One attempted mark: a figure aimed at a cell.
pub struct Mark {
    pub fig: Figure,
    pub row: int,
    pub col: int,
}

/// The mark's coordinates are on the board.
pub open spec fn mark_in_range(m: Mark) -> bool {
    0 <= m.row < 3 && 0 <= m.col < 3
}

/// Every mark of the sequence is on the board.
pub open spec fn marks_in_range(ms: Seq<Mark>) -> bool {
    forall|i: int| 0 <= i < ms.len() ==> mark_in_range(#[trigger] ms[i])
}

/// What `mark_cell` leaves on the board: the figure lands on an empty target
/// cell; an occupied one is left as it was.
pub open spec fn mark_result(s: Seq<Option<Figure>>, m: Mark) -> Seq<Option<Figure>>
    recommends
        s.len() == 9,
        mark_in_range(m),
{
    if s[idx(m.row, m.col)] is None {
        s.update(idx(m.row, m.col), Some(m.fig))
    } else {
        s
    }
}

/// The board after playing the marks in order.
pub open spec fn board_after(s: Seq<Option<Figure>>, ms: Seq<Mark>) -> Seq<Option<Figure>>
    decreases ms.len(),
{
    if ms.len() == 0 {
        s
    } else {
        board_after(mark_result(s, ms[0]), ms.drop_first())
    }
}

/// How many of the marks, played in order, land on a then-empty cell.
pub open spec fn successful_marks(s: Seq<Option<Figure>>, ms: Seq<Mark>) -> int
    decreases ms.len(),
{
    if ms.len() == 0 {
        0
    } else {
        (if s[idx(ms[0].row, ms[0].col)] is None {
            1int
        } else {
            0int
        }) + successful_marks(mark_result(s, ms[0]), ms.drop_first())
    }
}

/// The marks after the first are all on the board when all of them are.
proof fn lemma_marks_in_range_drop_first(ms: Seq<Mark>)
    requires
        ms.len() > 0,
        marks_in_range(ms),
    ensures
        marks_in_range(ms.drop_first()),
{
    assert forall|i: int| 0 <= i < ms.drop_first().len() implies mark_in_range(
        #[trigger] ms.drop_first()[i],
    ) by {
        assert(ms.drop_first()[i] == ms[i + 1]);
    }
}

/// Over any run of marks, the occupied count moves in step with the
/// successful ones: each mark that lands on an empty cell adds one, a
/// rejected one adds nothing.
pub proof fn lemma_occupied_counts_successes(s: Seq<Option<Figure>>, ms: Seq<Mark>)
    requires
        s.len() == 9,
        marks_in_range(ms),
    ensures
        occupied_cells(board_after(s, ms)) == occupied_cells(s) + successful_marks(s, ms),
    decreases ms.len(),
{
    if ms.len() > 0 {
        let s1 = mark_result(s, ms[0]);
        if s[idx(ms[0].row, ms[0].col)] is None {
            lemma_fill_increments(s, idx(ms[0].row, ms[0].col), ms[0].fig);
        }
        lemma_marks_in_range_drop_first(ms);
        lemma_occupied_counts_successes(s1, ms.drop_first());
    }
}

/// After any sequence of marks on a fresh board, the occupied count equals
/// the number of marks that were accepted: N successful marks leave N
/// occupied cells.
pub proof fn lemma_occupied_count_is_successful_marks(ms: Seq<Mark>)
    requires
        marks_in_range(ms),
    ensures
        occupied_cells(board_after(empty_board(), ms)) == successful_marks(empty_board(), ms),
{
    lemma_occupied_counts_successes(empty_board(), ms);
}

} // verus!
