use vstd::prelude::*;
use vstd::string::*;

use crate::error::Error;
use crate::marker::{glyph_of, opposite, Marker};
use crate::position::Position;

verus! {

/// The 3x3 grid together with the marker whose turn is active.
///
/// The grid is stored row-major: the cell at `(column, row)` lives at index
/// `row * 3 + column`. A well-formed board (see [`Board::wf`]) has exactly
/// nine cells and a `next` marker that is never `Empty`. A cell once set to a
/// player marker is never overwritten: `put` refuses occupied cells.
pub struct Board {
    /// The nine cells, row-major.
    pub grid: Vec<Marker>,
    /// The marker whose turn is active.
    pub next: Marker,
}

/// The column of the `k`-th cell of winning line `l`.
///
/// Lines are enumerated as the engine checks them: the three columns
/// (`l` in `0..3`), the three rows (`l` in `3..6`), the main diagonal
/// (`l == 6`), and the anti-diagonal (`l == 7`).
pub open spec fn line_column(l: int, k: int) -> int {
    if l < 3 {
        l
    } else if l < 6 {
        k
    } else if l == 6 {
        k
    } else {
        2 - k
    }
}

/// The row of the `k`-th cell of winning line `l`.
pub open spec fn line_row(l: int, k: int) -> int {
    if l < 3 {
        k
    } else if l < 6 {
        l - 3
    } else {
        k
    }
}

/// Whether `(c, r)` is one of the three cells of winning line `l`.
pub open spec fn on_line(l: int, c: int, r: int) -> bool {
    ||| c == line_column(l, 0) && r == line_row(l, 0)
    ||| c == line_column(l, 1) && r == line_row(l, 1)
    ||| c == line_column(l, 2) && r == line_row(l, 2)
}

impl Board {
    /// Exactly nine cells, and the active marker belongs to a player.
    pub open spec fn wf(self) -> bool {
        self.grid@.len() == 9 && self.next != Marker::Empty
    }

    /// The marker in the cell at `(column, row)`.
    pub open spec fn cell(self, column: int, row: int) -> Marker {
        self.grid@[row * 3 + column]
    }

    /// Whether the three cells of line `l` all hold one player's marker.
    pub open spec fn line_complete(self, l: int) -> bool {
        &&& self.cell(line_column(l, 0), line_row(l, 0)) != Marker::Empty
        &&& self.cell(line_column(l, 1), line_row(l, 1)) == self.cell(
            line_column(l, 0),
            line_row(l, 0),
        )
        &&& self.cell(line_column(l, 2), line_row(l, 2)) == self.cell(
            line_column(l, 0),
            line_row(l, 0),
        )
    }

    /// The winner the engine reports: the marker of the first complete line
    /// in enumeration order, or `None` when no line is complete.
    pub open spec fn winner(self) -> Option<Marker> {
        if self.line_complete(0) {
            Some(self.cell(line_column(0, 0), line_row(0, 0)))
        } else if self.line_complete(1) {
            Some(self.cell(line_column(1, 0), line_row(1, 0)))
        } else if self.line_complete(2) {
            Some(self.cell(line_column(2, 0), line_row(2, 0)))
        } else if self.line_complete(3) {
            Some(self.cell(line_column(3, 0), line_row(3, 0)))
        } else if self.line_complete(4) {
            Some(self.cell(line_column(4, 0), line_row(4, 0)))
        } else if self.line_complete(5) {
            Some(self.cell(line_column(5, 0), line_row(5, 0)))
        } else if self.line_complete(6) {
            Some(self.cell(line_column(6, 0), line_row(6, 0)))
        } else if self.line_complete(7) {
            Some(self.cell(line_column(7, 0), line_row(7, 0)))
        } else {
            None
        }
    }

    /// Reads the cell at `(column, row)`.
    pub fn cell_at(&self, column: usize, row: usize) -> (m: Marker)
        requires
            self.wf(),
            column < 3,
            row < 3,
        ensures
            m == self.cell(column as int, row as int),
    {
        self.grid[row * 3 + column]
    }

    /// Places `movement` at `position`, then reports the winner, if any.
    ///
    /// The caller is responsible for passing the active marker (`self.next`);
    /// the engine does not enforce the turn order itself. An occupied cell is
    /// refused with `Error::OccupiedCell` and leaves the board unchanged; a
    /// placement never changes whose turn it is.
    pub fn put(&mut self, movement: Marker, position: Position) -> (r: Result<
        Option<Marker>,
        Error,
    >)
        requires
            old(self).wf(),
            position.wf(),
            movement != Marker::Empty,
        ensures
            final (self).wf(),
            final (self).next == old(self).next,
            old(self).cell(position.0 as int, position.1 as int) == Marker::Empty ==> ({
                &&& final (self).cell(position.0 as int, position.1 as int) == movement
                &&& forall|c: int, r: int|
                    0 <= c < 3 && 0 <= r < 3 && !(c == position.0 && r == position.1)
                        ==> final (self).cell(c, r) == old(self).cell(c, r)
                &&& r == Ok::<Option<Marker>, Error>(final (self).winner())
            }),
            old(self).cell(position.0 as int, position.1 as int) != Marker::Empty ==> ({
                &&& *final (self) == *old(self)
                &&& r == Err::<Option<Marker>, Error>(Error::OccupiedCell(position))
            }),
    {
        let column = position.0;
        let row = position.1;
        let index = row * 3 + column;
        match self.grid[index] {
            Marker::Empty => {
                self.grid.set(index, movement);
                Ok(self.check_winner())
            },
            _ => Err(Error::OccupiedCell(position)),
        }
    }

    /// Hands the turn to the other player.
    pub fn swap_turns(&mut self)
        requires
            old(self).wf(),
        ensures
            final (self).wf(),
            final (self).next == opposite(old(self).next),
            final (self).grid == old(self).grid,
    {
        self.next = match self.next {
            Marker::First => Marker::Second,
            _ => Marker::First,
        };
    }

    /// The `1`-based label that begins the rendered line of grid row `r`.
    pub open spec fn row_label(r: int) -> Seq<char> {
        if r == 0 {
            "1"@
        } else if r == 1 {
            "2"@
        } else {
            "3"@
        }
    }

    /// The rendered text of grid row `r`: its label, then the row's three
    /// glyphs joined by `|` inside brackets, e.g. `1[X|-|O]`, and a newline.
    pub open spec fn row_text(self, r: int) -> Seq<char> {
        Self::row_label(r) + "["@ + glyph_of(self.cell(0, r)) + "|"@ + glyph_of(self.cell(1, r))
            + "|"@ + glyph_of(self.cell(2, r)) + "]\n"@
    }

    /// The full rendered depiction of the grid: a column-header line followed
    /// by the three row lines.
    pub open spec fn rendered(self) -> Seq<char> {
        " [a|b|c]\n"@ + self.row_text(0) + self.row_text(1) + self.row_text(2)
    }

    /// Appends the rendered text of grid row `r` to `out`.
    #[verifier::rlimit(50)]
    fn append_row(&self, out: &mut String, r: usize)
        requires
            self.wf(),
            r < 3,
        ensures
            final (out)@ == old(out)@ + self.row_text(r as int),
    {
        if r == 0 {
            out.append("1");
        } else if r == 1 {
            out.append("2");
        } else {
            out.append("3");
        }
        out.append("[");
        out.append(self.cell_at(0, r).glyph_str());
        out.append("|");
        out.append(self.cell_at(1, r).glyph_str());
        out.append("|");
        out.append(self.cell_at(2, r).glyph_str());
        out.append("]\n");
        proof {
            assert(out@ =~= old(out)@ + self.row_text(r as int));
        }
    }

    /// Renders the grid with column headers and row numbers, each cell shown
    /// as its marker's glyph.
    pub fn render(&self) -> (out: String)
        requires
            self.wf(),
        ensures
            out@ == self.rendered(),
    {
        let mut out = String::new();
        out.append(" [a|b|c]\n");
        self.append_row(&mut out, 0);
        self.append_row(&mut out, 1);
        self.append_row(&mut out, 2);
        proof {
            assert(out@ =~= self.rendered());
        }
        out
    }

    /// Checks all eight lines — three columns, three rows, both diagonals —
    /// and returns the marker of the first complete one, or `None`.
    pub fn check_winner(&self) -> (w: Option<Marker>)
        requires
            self.wf(),
        ensures
            w == self.winner(),
    {
        let c00 = self.cell_at(0, 0);
        let c01 = self.cell_at(0, 1);
        let c02 = self.cell_at(0, 2);
        let c10 = self.cell_at(1, 0);
        let c11 = self.cell_at(1, 1);
        let c12 = self.cell_at(1, 2);
        let c20 = self.cell_at(2, 0);
        let c21 = self.cell_at(2, 1);
        let c22 = self.cell_at(2, 2);
        if c00 != Marker::Empty && c01 == c00 && c02 == c00 {
            Some(c00)
        } else if c10 != Marker::Empty && c11 == c10 && c12 == c10 {
            Some(c10)
        } else if c20 != Marker::Empty && c21 == c20 && c22 == c20 {
            Some(c20)
        } else if c00 != Marker::Empty && c10 == c00 && c20 == c00 {
            Some(c00)
        } else if c01 != Marker::Empty && c11 == c01 && c21 == c01 {
            Some(c01)
        } else if c02 != Marker::Empty && c12 == c02 && c22 == c02 {
            Some(c02)
        } else if c00 != Marker::Empty && c11 == c00 && c22 == c00 {
            Some(c00)
        } else if c20 != Marker::Empty && c11 == c20 && c02 == c20 {
            Some(c20)
        } else {
            None
        }
    }
}

/// Win detection is sound and complete for a single line: on a board whose
/// three cells of line `l` all hold the player marker `m` and whose other
/// cells are all empty, the reported winner is `m` — no other line's
/// completion is falsely reported.
pub proof fn lemma_line_win(b: Board, l: int, m: Marker)
    requires
        b.wf(),
        0 <= l < 8,
        m != Marker::Empty,
        forall|c: int, r: int|
            0 <= c < 3 && 0 <= r < 3 ==> b.cell(c, r) == (if on_line(l, c, r) {
                m
            } else {
                Marker::Empty
            }),
    ensures
        b.winner() == Some(m),
{
}

/// Win detection reports no winner on a board without a complete line.
pub proof fn lemma_no_complete_line_no_winner(b: Board)
    requires
        forall|l: int| 0 <= l < 8 ==> !b.line_complete(l),
    ensures
        b.winner() is None,
{
}

impl Default for Board {
    /// A fresh board: every cell `Empty`, and `First` to move.
    fn default() -> (b: Board)
        ensures
            b.wf(),
            b.next == Marker::First,
            forall|c: int, r: int| 0 <= c < 3 && 0 <= r < 3 ==> b.cell(c, r) == Marker::Empty,
    {
        Board {
            grid: vec![
                Marker::Empty,
                Marker::Empty,
                Marker::Empty,
                Marker::Empty,
                Marker::Empty,
                Marker::Empty,
                Marker::Empty,
                Marker::Empty,
                Marker::Empty,
            ],
            next: Marker::First,
        }
    }
}

} // verus!
