//! The console writer: a grid of `BUFFER_HEIGHT` rows of `BUFFER_WIDTH`
//! volatile cells, written on its last row, scrolling up one row per line.

use vstd::prelude::*;
use vstd::string::StringSliceAdditionalSpecFns;
use volatile::Volatile;
use crate::cell::{held, new_cell, read_cell, write_cell};
use crate::colour::{spec_decode, spec_encode, lemma_decode_encode, ColourCode, ScreenChar};

verus! {

/// The number of rows in the grid.
pub const BUFFER_HEIGHT: usize = 25;

/// The number of cells in each row.
pub const BUFFER_WIDTH: usize = 80;

/// The newline byte.
pub const NEWLINE: u8 = 10;

/// The space byte that blank cells hold.
pub const SPACE: u8 = 32;

/// A blank cell in the given colours.
pub open spec fn blank(attr: ColourCode) -> ScreenChar {
    ScreenChar { ascii_character: SPACE, colour_code: attr }
}

/// A row of blank cells.
pub open spec fn blank_row(attr: ColourCode) -> Seq<ScreenChar> {
    Seq::new(BUFFER_WIDTH as nat, |c: int| blank(attr))
}

/// A grid of blank cells.
pub open spec fn blank_grid(attr: ColourCode) -> Seq<Seq<ScreenChar>> {
    Seq::new(BUFFER_HEIGHT as nat, |r: int| blank_row(attr))
}

/// The grid shifted up by one row: each row takes the content of the row
/// below it, the top row is dropped, and the last row is blank.
pub open spec fn scroll(g: Seq<Seq<ScreenChar>>, attr: ColourCode) -> Seq<Seq<ScreenChar>> {
    Seq::new(
        BUFFER_HEIGHT as nat,
        |r: int|
            if r < BUFFER_HEIGHT - 1 {
                g[r + 1]
            } else {
                blank_row(attr)
            },
    )
}

/// The grid with row `row` blank.
pub open spec fn clear(g: Seq<Seq<ScreenChar>>, row: int, attr: ColourCode) -> Seq<Seq<ScreenChar>> {
    g.update(row, blank_row(attr))
}

/// The grid with cell `ch` at column `col` of the last row.
pub open spec fn put_last(g: Seq<Seq<ScreenChar>>, col: int, ch: ScreenChar) -> Seq<Seq<ScreenChar>> {
    g.update(BUFFER_HEIGHT - 1, g[BUFFER_HEIGHT - 1].update(col, ch))
}

/// A grid of the fixed shape.
pub open spec fn grid_shaped(g: Seq<Seq<ScreenChar>>) -> bool {
    &&& g.len() == BUFFER_HEIGHT
    &&& forall|r: int| 0 <= r < BUFFER_HEIGHT ==> (#[trigger] g[r]).len() == BUFFER_WIDTH
}

/// What a writer is: its cursor column, its colour attribute and its grid.
pub struct Console {
    pub column: nat,
    pub attr: ColourCode,
    pub grid: Seq<Seq<ScreenChar>>,
}

impl Console {
    /// The cursor is at most one past the last column; the grid has its shape.
    pub open spec fn wf(self) -> bool {
        &&& self.column <= BUFFER_WIDTH
        &&& grid_shaped(self.grid)
    }

    /// A scroll: rows move up by one, the last row is cleared, the cursor
    /// returns to column 0.
    pub open spec fn new_line(self) -> Console {
        Console { column: 0, attr: self.attr, grid: scroll(self.grid, self.attr) }
    }

    /// Row `row` is cleared; the cursor stays.
    pub open spec fn clear_row(self, row: int) -> Console {
        Console { column: self.column, attr: self.attr, grid: clear(self.grid, row, self.attr) }
    }

    /// One byte written: a newline scrolls; any other byte scrolls first
    /// when the cursor is past the last column, then lands on the last row
    /// at the cursor, which advances by one.
    pub open spec fn write_byte(self, b: u8) -> Console {
        if b == NEWLINE {
            self.new_line()
        } else {
            let s = if self.column >= BUFFER_WIDTH {
                self.new_line()
            } else {
                self
            };
            Console {
                column: s.column + 1,
                attr: s.attr,
                grid: put_last(s.grid, s.column as int, ScreenChar { ascii_character: b, colour_code: s.attr }),
            }
        }
    }

    /// The bytes written one after the other, in order.
    pub open spec fn write_bytes(self, bs: Seq<u8>) -> Console
        decreases bs.len(),
    {
        if bs.len() == 0 {
            self
        } else {
            self.write_bytes(bs.drop_last()).write_byte(bs.last())
        }
    }
}

/// The grid's cells, row-major, each a volatile word in the hardware layout.
struct Buffer {
    chars: Vec<Volatile<u16>>,
}

impl Buffer {
    spec fn wf(&self) -> bool {
        self.chars@.len() == BUFFER_HEIGHT * BUFFER_WIDTH
    }

    spec fn grid(&self) -> Seq<Seq<ScreenChar>> {
        Seq::new(
            BUFFER_HEIGHT as nat,
            |r: int|
                Seq::new(
                    BUFFER_WIDTH as nat,
                    |c: int| spec_decode(held(self.chars@[r * BUFFER_WIDTH + c])),
                ),
        )
    }

    fn read(&self, row: usize, col: usize) -> (r: ScreenChar)
        requires
            self.wf(),
            row < BUFFER_HEIGHT,
            col < BUFFER_WIDTH,
        ensures
            r == self.grid()[row as int][col as int],
    {
        ScreenChar::from_word(read_cell(&self.chars[row * BUFFER_WIDTH + col]))
    }

    fn write(&mut self, row: usize, col: usize, ch: ScreenChar)
        requires
            old(self).wf(),
            row < BUFFER_HEIGHT,
            col < BUFFER_WIDTH,
        ensures
            final(self).wf(),
            final(self).grid() == old(self).grid().update(
                row as int,
                old(self).grid()[row as int].update(col as int, ch),
            ),
    {
        let i: usize = row * BUFFER_WIDTH + col;
        write_cell(&mut self.chars[i], ch.to_word());
        proof {
            lemma_decode_encode(ch);
            let g0 = old(self).grid();
            let g1 = self.grid();
            let want = g0.update(row as int, g0[row as int].update(col as int, ch));
            assert forall|r: int| 0 <= r < BUFFER_HEIGHT implies g1[r] =~= want[r] by {
                assert forall|c: int| 0 <= c < BUFFER_WIDTH implies g1[r][c] == want[r][c] by {
                    if r != row || c != col {
                        assert(r * BUFFER_WIDTH + c != i);
                    }
                }
            }
            assert(g1 =~= want);
        }
    }
}

/// Writes bytes into the grid's last row, in one colour attribute, scrolling
/// the grid up when a line ends or the row is full.
pub struct Writer {
    column_position: usize,
    colour_code: ColourCode,
    buffer: Buffer,
}

impl View for Writer {
    type V = Console;

    closed spec fn view(&self) -> Console {
        Console { column: self.column_position as nat, attr: self.colour_code, grid: self.buffer.grid() }
    }
}

impl Writer {
    /// The buffer holds exactly one cell per grid position; the cursor is
    /// at most one past the last column.
    pub closed spec fn wf(&self) -> bool {
        &&& self.buffer.wf()
        &&& self.column_position <= BUFFER_WIDTH
    }

    /// A well-formed writer is a well-formed console, so the laws about
    /// consoles apply to it.
    pub proof fn lemma_wf(&self)
        requires
            self.wf(),
        ensures
            self@.wf(),
    {
    }

    /// A writer in the given colours over a blank grid, its cursor at column 0.
    pub fn new(colour_code: ColourCode) -> (r: Writer)
        ensures
            r.wf(),
            r@ == (Console { column: 0, attr: colour_code, grid: blank_grid(colour_code) }),
    {
        let word = ScreenChar::encode(SPACE, colour_code).to_word();
        let mut chars: Vec<Volatile<u16>> = Vec::new();
        let n: usize = BUFFER_HEIGHT * BUFFER_WIDTH;
        while chars.len() < n
            invariant
                chars@.len() <= n,
                n == BUFFER_HEIGHT * BUFFER_WIDTH,
                forall|i: int| 0 <= i < chars@.len() ==> held(#[trigger] chars@[i]) == word,
            decreases n - chars@.len(),
        {
            chars.push(new_cell(word));
        }
        let r = Writer { column_position: 0, colour_code, buffer: Buffer { chars } };
        proof {
            lemma_decode_encode(blank(colour_code));
            let g = r.buffer.grid();
            assert forall|row: int| 0 <= row < BUFFER_HEIGHT implies g[row] =~= blank_row(colour_code) by {
                assert forall|c: int| 0 <= c < BUFFER_WIDTH implies g[row][c] == blank(colour_code) by {
                    assert(0 <= row * BUFFER_WIDTH + c < BUFFER_HEIGHT * BUFFER_WIDTH) by (nonlinear_arith)
                        requires
                            0 <= row < BUFFER_HEIGHT,
                            0 <= c < BUFFER_WIDTH,
                    ;
                }
            }
            assert(g =~= blank_grid(colour_code));
        }
        r
    }

    /// The cursor column.
    pub fn column_position(&self) -> (r: usize)
        ensures
            r == self@.column,
    {
        self.column_position
    }

    /// The colour attribute that written cells get.
    pub fn colour_code(&self) -> (r: ColourCode)
        ensures
            r == self@.attr,
    {
        self.colour_code
    }

    /// The cell at `row`, `col`, read from the grid.
    pub fn char_at(&self, row: usize, col: usize) -> (r: ScreenChar)
        requires
            self.wf(),
            row < BUFFER_HEIGHT,
            col < BUFFER_WIDTH,
        ensures
            r == self@.grid[row as int][col as int],
    {
        self.buffer.read(row, col)
    }

    /// Blanks every cell of row `row` in the writer's colours.
    pub fn clear_row(&mut self, row: usize)
        requires
            old(self).wf(),
            row < BUFFER_HEIGHT,
        ensures
            final(self).wf(),
            final(self)@ == old(self)@.clear_row(row as int),
    {
        let blank_char = ScreenChar::encode(SPACE, self.colour_code);
        let mut col: usize = 0;
        while col < BUFFER_WIDTH
            invariant
                self.wf(),
                col <= BUFFER_WIDTH,
                row < BUFFER_HEIGHT,
                blank_char == blank(old(self)@.attr),
                self.column_position == old(self).column_position,
                self.colour_code == old(self).colour_code,
                forall|r: int| 0 <= r < BUFFER_HEIGHT && r != row ==>
                    #[trigger] self@.grid[r] == old(self)@.grid[r],
                forall|c: int| 0 <= c < col ==> #[trigger] self@.grid[row as int][c] == blank_char,
                forall|c: int| col <= c < BUFFER_WIDTH ==>
                    #[trigger] self@.grid[row as int][c] == old(self)@.grid[row as int][c],
            decreases BUFFER_WIDTH - col,
        {
            let ghost prev = self@.grid;
            self.buffer.write(row, col, blank_char);
            assert(self@.grid == prev.update(row as int, prev[row as int].update(col as int, blank_char)));
            col = col + 1;
        }
        assert(self@.grid[row as int] =~= blank_row(self.colour_code));
        assert(self@.grid =~= clear(old(self)@.grid, row as int, self.colour_code));
    }

    /// Scrolls: every row above the last takes the content of the row below
    /// it, top to bottom, the last row is cleared and the cursor returns to
    /// column 0.
    pub fn new_line(&mut self)
        requires
            old(self).wf(),
        ensures
            final(self).wf(),
            final(self)@ == old(self)@.new_line(),
    {
        let ghost g0 = self@.grid;
        let mut row: usize = 1;
        while row < BUFFER_HEIGHT
            invariant
                self.wf(),
                1 <= row <= BUFFER_HEIGHT,
                self.column_position == old(self).column_position,
                self.colour_code == old(self).colour_code,
                g0 == old(self)@.grid,
                forall|r: int| 0 <= r < row - 1 ==> #[trigger] self@.grid[r] == g0[r + 1],
                forall|r: int| row - 1 <= r < BUFFER_HEIGHT ==> #[trigger] self@.grid[r] == g0[r],
            decreases BUFFER_HEIGHT - row,
        {
            let mut col: usize = 0;
            while col < BUFFER_WIDTH
                invariant
                    self.wf(),
                    1 <= row < BUFFER_HEIGHT,
                    col <= BUFFER_WIDTH,
                    g0 == old(self)@.grid,
                    self.column_position == old(self).column_position,
                    self.colour_code == old(self).colour_code,
                    forall|r: int| 0 <= r < row - 1 ==> #[trigger] self@.grid[r] == g0[r + 1],
                    forall|r: int| row <= r < BUFFER_HEIGHT ==> #[trigger] self@.grid[r] == g0[r],
                    forall|c: int| 0 <= c < col ==> #[trigger] self@.grid[row - 1][c] == g0[row as int][c],
                    forall|c: int| col <= c < BUFFER_WIDTH ==> #[trigger] self@.grid[row - 1][c] == g0[row - 1][c],
                decreases BUFFER_WIDTH - col,
            {
                let character = self.buffer.read(row, col);
                let ghost prev = self@.grid;
                self.buffer.write(row - 1, col, character);
                assert(self@.grid == prev.update(row - 1, prev[row - 1].update(col as int, character)));
                col = col + 1;
            }
            assert(self@.grid[row - 1] =~= g0[row as int]);
            row = row + 1;
        }
        self.clear_row(BUFFER_HEIGHT - 1);
        self.column_position = 0;
        assert(self@.grid =~= scroll(g0, self.colour_code));
    }

    /// Writes one byte. A newline scrolls. Any other byte first scrolls when
    /// the cursor is past the last column, then is written in the writer's
    /// colours on the last row at the cursor, which advances by one.
    pub fn write_byte(&mut self, byte: u8)
        requires
            old(self).wf(),
        ensures
            final(self).wf(),
            final(self)@ == old(self)@.write_byte(byte),
    {
        if byte == NEWLINE {
            self.new_line();
        } else {
            if self.column_position >= BUFFER_WIDTH {
                self.new_line();
            }
            let row: usize = BUFFER_HEIGHT - 1;
            let col: usize = self.column_position;
            let colour_code = self.colour_code;
            self.buffer.write(row, col, ScreenChar::encode(byte, colour_code));
            self.column_position = col + 1;
        }
    }

    /// Writes each byte of `s` in order, as `write_byte` does.
    pub fn write_string(&mut self, s: &str)
        requires
            old(self).wf(),
        ensures
            final(self).wf(),
            final(self)@ == old(self)@.write_bytes(s.spec_bytes()),
    {
        let bytes = s.as_bytes();
        let mut i: usize = 0;
        while i < bytes.len()
            invariant
                self.wf(),
                i <= bytes@.len(),
                bytes@ == s.spec_bytes(),
                self@ == old(self)@.write_bytes(bytes@.take(i as int)),
            decreases bytes@.len() - i,
        {
            proof {
                assert(bytes@.take(i + 1).drop_last() =~= bytes@.take(i as int));
            }
            self.write_byte(bytes[i]);
            i = i + 1;
        }
        assert(bytes@.take(i as int) =~= bytes@);
    }
}

/// Prints `text` through `writer`: its bytes are written in order.
pub fn print(writer: &mut Writer, text: &str)
    requires
        old(writer).wf(),
    ensures
        final(writer).wf(),
        final(writer)@ == old(writer)@.write_bytes(text.spec_bytes()),
{
    writer.write_string(text);
}

/// Prints `text` through `writer`, then ends the line.
pub fn println(writer: &mut Writer, text: &str)
    requires
        old(writer).wf(),
    ensures
        final(writer).wf(),
        final(writer)@ == old(writer)@.write_bytes(text.spec_bytes().push(NEWLINE)),
{
    writer.write_string(text);
    writer.write_byte(NEWLINE);
    assert(text.spec_bytes().push(NEWLINE).drop_last() =~= text.spec_bytes());
}

} // verus!
