//! The text-mode console surface: a fixed grid of colored character cells.
//!
//! The grid is a plain value; the embedding program mirrors it into the
//! real frame buffer. Every write is immediately visible in the grid and
//! no invariant couples adjacent cells.

use vstd::prelude::*;

verus! {

/// Number of character rows on the surface.
pub const BUFFER_HEIGHT: usize = 25;

/// Number of character columns on the surface.
pub const BUFFER_WIDTH: usize = 80;

/// The sixteen hardware palette entries, in their fixed ordinal order.
/// The embedding program maps each to the matching attribute nibble.
#[derive(Debug, Clone, Copy, PartialEq, Eq, Structural)]
pub enum Color {
    Black,
    Blue,
    Green,
    Cyan,
    Red,
    Magenta,
    Brown,
    LightGray,
    DarkGray,
    LightBlue,
    LightGreen,
    LightCyan,
    LightRed,
    Pink,
    Yellow,
    White,
}

/// One character position: a character plus foreground and background color.
#[derive(Debug, Clone, Copy, PartialEq, Eq, Structural)]
pub struct Cell {
    pub ch: char,
    pub fg: Color,
    pub bg: Color,
}

/// The cell every position holds after a clear: a blank in the default colors.
pub open spec fn blank_cell() -> Cell {
    Cell { ch: ' ', fg: Color::White, bg: Color::Black }
}

/// A fully cleared surface.
pub open spec fn cleared_view() -> Seq<Cell> {
    Seq::new((BUFFER_HEIGHT * BUFFER_WIDTH) as nat, |i: int| blank_cell())
}

/// The surface after one cell at `(row, col)` is overwritten.
pub open spec fn write_cell_view(s: Seq<Cell>, row: int, col: int, cell: Cell) -> Seq<Cell> {
    s.update(row * BUFFER_WIDTH + col, cell)
}

/// The surface after the characters of `text` are laid left to right
/// starting at `(row, col)`, one cell per character.
pub open spec fn write_text_view(
    s: Seq<Cell>,
    row: int,
    col: int,
    text: Seq<char>,
    fg: Color,
    bg: Color,
) -> Seq<Cell>
    decreases text.len(),
{
    if text.len() == 0 {
        s
    } else {
        write_text_view(
            write_cell_view(s, row, col, Cell { ch: text[0], fg, bg }),
            row,
            col + 1,
            text.skip(1),
            fg,
            bg,
        )
    }
}

/// The console surface: `BUFFER_HEIGHT` rows of `BUFFER_WIDTH` cells,
/// stored row-major.
pub struct Console {
    cells: Vec<Cell>,
}

impl View for Console {
    type V = Seq<Cell>;

    closed spec fn view(&self) -> Seq<Cell> {
        self.cells@
    }
}

impl Console {
    /// The surface always holds exactly one cell per position.
    pub open spec fn wf(&self) -> bool {
        self@.len() == BUFFER_HEIGHT * BUFFER_WIDTH
    }

    /// A fresh surface, fully blank.
    pub fn new() -> (c: Console)
        ensures
            c.wf(),
            c@ == cleared_view(),
    {
        let mut cells: Vec<Cell> = Vec::new();
        let mut i: usize = 0;
        while i < BUFFER_HEIGHT * BUFFER_WIDTH
            invariant
                i <= BUFFER_HEIGHT * BUFFER_WIDTH,
                cells@.len() == i,
                forall|j: int| 0 <= j < i ==> cells@[j] == blank_cell(),
            decreases BUFFER_HEIGHT * BUFFER_WIDTH - i,
        {
            cells.push(Cell { ch: ' ', fg: Color::White, bg: Color::Black });
            i = i + 1;
        }
        let c = Console { cells };
        proof {
            assert(c@ =~= cleared_view());
        }
        c
    }

    /// Read the cell at `(row, col)`.
    pub fn read_cell(&self, row: usize, col: usize) -> (r: Cell)
        requires
            self.wf(),
            row < BUFFER_HEIGHT,
            col < BUFFER_WIDTH,
        ensures
            r == self@[row * BUFFER_WIDTH + col],
    {
        self.cells[row * BUFFER_WIDTH + col]
    }

    /// Overwrite the cell at `(row, col)`. Out-of-bounds coordinates are a
    /// programming error and are excluded by precondition.
    pub fn write_cell(&mut self, row: usize, col: usize, ch: char, fg: Color, bg: Color)
        requires
            old(self).wf(),
            row < BUFFER_HEIGHT,
            col < BUFFER_WIDTH,
        ensures
            final(self).wf(),
            final(self)@ == write_cell_view(old(self)@, row as int, col as int, Cell { ch, fg, bg }),
    {
        let idx = row * BUFFER_WIDTH + col;
        assert(idx < BUFFER_HEIGHT * BUFFER_WIDTH) by (nonlinear_arith)
            requires
                row < BUFFER_HEIGHT,
                col < BUFFER_WIDTH,
                idx == row * BUFFER_WIDTH + col,
        ;
        self.cells.set(idx, Cell { ch, fg, bg });
    }

    /// Write each character of `text` left to right starting at `(row, col)`,
    /// one cell per character. The text must fit on the row: lines never wrap,
    /// and truncation is the caller's responsibility.
    pub fn write_text(&mut self, row: usize, col: usize, text: &str, fg: Color, bg: Color)
        requires
            old(self).wf(),
            row < BUFFER_HEIGHT,
            col + text@.len() <= BUFFER_WIDTH,
        ensures
            final(self).wf(),
            final(self)@ == write_text_view(old(self)@, row as int, col as int, text@, fg, bg),
    {
        let n = text.unicode_len();
        let mut i: usize = 0;
        proof {
            assert(text@.skip(0) =~= text@);
        }
        while i < n
            invariant
                self.wf(),
                n == text@.len(),
                i <= n,
                row < BUFFER_HEIGHT,
                col + n <= BUFFER_WIDTH,
                write_text_view(self@, row as int, col + i as int, text@.skip(i as int), fg, bg)
                    == write_text_view(old(self)@, row as int, col as int, text@, fg, bg),
            decreases n - i,
        {
            let ch = text.get_char(i);
            self.write_cell(row, col + i, ch, fg, bg);
            proof {
                assert(text@.skip(i as int)[0] == ch);
                assert(text@.skip(i as int).skip(1) =~= text@.skip(i as int + 1));
            }
            i = i + 1;
        }
    }

    /// Reset every cell to a blank character in the default colors.
    pub fn clear(&mut self)
        requires
            old(self).wf(),
        ensures
            final(self).wf(),
            final(self)@ == cleared_view(),
    {
        let mut i: usize = 0;
        while i < BUFFER_HEIGHT * BUFFER_WIDTH
            invariant
                self@.len() == BUFFER_HEIGHT * BUFFER_WIDTH,
                i <= BUFFER_HEIGHT * BUFFER_WIDTH,
                forall|j: int| 0 <= j < i ==> self@[j] == blank_cell(),
            decreases BUFFER_HEIGHT * BUFFER_WIDTH - i,
        {
            self.cells.set(i, Cell { ch: ' ', fg: Color::White, bg: Color::Black });
            i = i + 1;
        }
        proof {
            assert(self@ =~= cleared_view());
        }
    }
}

/// Writing a cell and reading the same position back yields exactly the
/// cell that was written, and no other position changes.
pub proof fn lemma_write_cell_read_back(s: Seq<Cell>, row: int, col: int, cell: Cell)
    requires
        s.len() == BUFFER_HEIGHT * BUFFER_WIDTH,
        0 <= row < BUFFER_HEIGHT,
        0 <= col < BUFFER_WIDTH,
    ensures
        write_cell_view(s, row, col, cell)[row * BUFFER_WIDTH + col] == cell,
        forall|i: int|
            0 <= i < s.len() && i != row * BUFFER_WIDTH + col
                ==> write_cell_view(s, row, col, cell)[i] == s[i],
{
    assert(0 <= row * BUFFER_WIDTH + col < s.len()) by (nonlinear_arith)
        requires
            s.len() == BUFFER_HEIGHT * BUFFER_WIDTH,
            0 <= row < BUFFER_HEIGHT,
            0 <= col < BUFFER_WIDTH,
    ;
}

/// After a clear, every cell of the surface is the blank cell.
pub proof fn lemma_clear_all_blank(row: int, col: int)
    requires
        0 <= row < BUFFER_HEIGHT,
        0 <= col < BUFFER_WIDTH,
    ensures
        cleared_view()[row * BUFFER_WIDTH + col] == blank_cell(),
{
    assert(0 <= row * BUFFER_WIDTH + col < BUFFER_HEIGHT * BUFFER_WIDTH) by (nonlinear_arith)
        requires
            0 <= row < BUFFER_HEIGHT,
            0 <= col < BUFFER_WIDTH,
    ;
}

} // verus!
