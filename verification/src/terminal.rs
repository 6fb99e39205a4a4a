//! The terminal emulator that renders what the remote side sends.
//!
//! The emulation itself is the work of the `vt100` crate. This module states
//! what the session relies on: which bytes an emulator has consumed, how large
//! its grid is, and that its title depends on the consumed bytes alone.
//!
//! The emulator computes positions in 16 bits and takes for granted that a
//! line can wrap onto a next row and that a wide character fits into a row.
//! A grid therefore has at least [`MIN_ROWS`] rows and between [`MIN_COLS`]
//! and [`MAX_COLS`] columns; see [`fits`].
//!
//! The emulator can make its grid larger, but not smaller: when it takes
//! rows or columns away, it leaves a saved cursor and the halves of wide
//! characters where they were, and fails on them later. This module never asks
//! it to. A terminal that is to become smaller is made anew instead, and is
//! fed what the emulator gives as the way to show again what it shows; see
//! [`Terminal::resize`]. Every emulator is made and changed by this module
//! alone, so what is stated below is stated of emulators whose grid was never
//! made smaller.

use vstd::prelude::*;

verus! {

/// The least number of rows of a grid: a wrapped line needs a second row.
pub const MIN_ROWS: u16 = 2;

/// The least number of columns of a grid: a wide character takes two.
pub const MIN_COLS: u16 = 2;

/// The greatest number of columns of a grid: the tab stop behind the last
/// column must still be a 16-bit number.
pub const MAX_COLS: u16 = 65527;

/// Whether the emulator can work on a grid of `rows` by `cols` cells.
pub open spec fn fits(rows: u16, cols: u16) -> bool {
    MIN_ROWS <= rows && MIN_COLS <= cols && cols <= MAX_COLS
}

/// The emulator of the `vt100` crate, opaque to the verifier.
#[verifier::external_type_specification]
#[verifier::external_body]
pub struct ExParser(vt100::Parser);

/// The bytes that an emulator has processed since it was made.
pub uninterp spec fn processed(p: vt100::Parser) -> Seq<u8>;

/// The number of rows and of columns of an emulator's grid.
pub uninterp spec fn grid_size(p: vt100::Parser) -> (u16, u16);

/// The visible rows of an emulator, each rendered from its first column over
/// `width` columns.
pub uninterp spec fn grid_rows(p: vt100::Parser, width: u16) -> Seq<Seq<u8>>;

/// The row and the column at which an emulator's cursor stands.
pub uninterp spec fn grid_cursor(p: vt100::Parser) -> (u16, u16);

/// The bytes that the emulator gives as the way to make a blank emulator show
/// what this one shows, with its title and its input modes.
pub uninterp spec fn state_bytes(p: vt100::Parser) -> Seq<u8>;

/// The window title that a new emulator shows once it has processed `input`.
pub uninterp spec fn rendered_title(input: Seq<u8>) -> Seq<char>;

/// `n` rows with nothing in them.
pub open spec fn blank_rows(n: nat) -> Seq<Seq<u8>> {
    Seq::new(n, |i: int| Seq::<u8>::empty())
}

/// `vt100::Parser::new` with no scrollback: an emulator of the given size that
/// has processed nothing. It has no title, its rows are blank, and its cursor
/// stands in the first cell.
#[verifier::external_body]
fn parser_new(rows: u16, cols: u16) -> (p: vt100::Parser)
    requires
        fits(rows, cols),
    ensures
        processed(p) == Seq::<u8>::empty(),
        grid_size(p) == (rows, cols),
        rendered_title(processed(p)) == Seq::<char>::empty(),
        forall|width: u16| #[trigger] grid_rows(p, width) == blank_rows(rows as nat),
        grid_cursor(p) == (0u16, 0u16),
{
    vt100::Parser::new(rows, cols, 0)
}

/// `vt100::Parser::process`: the emulator consumes `bytes` and keeps its size.
#[verifier::external_body]
fn parser_process(p: &mut vt100::Parser, bytes: &[u8])
    requires
        fits(grid_size(*old(p)).0, grid_size(*old(p)).1),
    ensures
        processed(*final(p)) == processed(*old(p)) + bytes@,
        grid_size(*final(p)) == grid_size(*old(p)),
    no_unwind
{
    p.process(bytes)
}

/// `vt100::Parser::set_size`, for a grid that loses neither rows nor columns:
/// the grid takes the new size, and what was processed stays. The emulator
/// is never asked to take rows or columns away.
#[verifier::external_body]
fn parser_grow(p: &mut vt100::Parser, rows: u16, cols: u16)
    requires
        fits(rows, cols),
        fits(grid_size(*old(p)).0, grid_size(*old(p)).1),
        grid_size(*old(p)).0 <= rows,
        grid_size(*old(p)).1 <= cols,
    ensures
        processed(*final(p)) == processed(*old(p)),
        grid_size(*final(p)) == (rows, cols),
    no_unwind
{
    p.set_size(rows, cols)
}

/// `vt100::Screen::size`, as rows and columns.
#[verifier::external_body]
fn parser_size(p: &vt100::Parser) -> (size: (u16, u16))
    ensures
        size == grid_size(*p),
{
    p.screen().size()
}

/// `vt100::Screen::state_formatted`: escape codes that reproduce the state
/// of the emulator. They end with the codes that set its title, so an
/// emulator that has processed them and nothing else has the same title.
#[verifier::external_body]
fn parser_state(p: &vt100::Parser) -> (state: Vec<u8>)
    requires
        fits(grid_size(*p).0, grid_size(*p).1),
    ensures
        state@ == state_bytes(*p),
        rendered_title(state@) == rendered_title(processed(*p)),
{
    p.screen().state_formatted()
}

/// `vt100::Screen::title` of the emulator's screen: the title is that of the
/// bytes processed so far.
#[verifier::external_body]
fn parser_title(p: &vt100::Parser) -> (title: String)
    ensures
        title@ == rendered_title(processed(*p)),
{
    String::from(p.screen().title())
}

/// `vt100::Screen::rows_formatted` from column 0, collected into a vector:
/// one item for each row of the grid.
#[verifier::external_body]
fn parser_rows(p: &vt100::Parser, width: u16) -> (rows: Vec<Vec<u8>>)
    requires
        fits(grid_size(*p).0, grid_size(*p).1),
    ensures
        rows.deep_view() == grid_rows(*p, width),
        rows.len() == grid_size(*p).0,
{
    p.screen().rows_formatted(0, width).collect()
}

/// `vt100::Screen::cursor_position`, as row and column.
#[verifier::external_body]
fn parser_cursor(p: &vt100::Parser) -> (pos: (u16, u16))
    ensures
        pos == grid_cursor(*p),
{
    p.screen().cursor_position()
}

/// A terminal emulator on a grid of a size that [`fits`].
pub struct Terminal {
    parser: vt100::Parser,
}

/// What a terminal has consumed and how large its grid is.
pub struct TerminalState {
    /// Every byte that the emulator has consumed, in order: what was fed, and,
    /// for a terminal that became smaller, the rendering with which it was
    /// made anew before that.
    pub fed: Seq<u8>,
    /// The number of rows of the grid.
    pub rows: u16,
    /// The number of columns of the grid.
    pub cols: u16,
}

impl TerminalState {
    /// The state after `bytes` were fed.
    pub open spec fn feed(self, bytes: Seq<u8>) -> TerminalState {
        TerminalState { fed: self.fed + bytes, ..self }
    }

    /// Whether a grid of `rows` by `cols` cells has room for this one.
    pub open spec fn fits_into(self, rows: u16, cols: u16) -> bool {
        self.rows <= rows && self.cols <= cols
    }

    /// The window title that the terminal shows.
    pub open spec fn title(self) -> Seq<char> {
        rendered_title(self.fed)
    }
}

impl View for Terminal {
    type V = TerminalState;

    closed spec fn view(&self) -> TerminalState {
        TerminalState {
            fed: processed(self.parser),
            rows: grid_size(self.parser).0,
            cols: grid_size(self.parser).1,
        }
    }
}

/// The rows of `rows` up to the last one that is not empty.
pub open spec fn trimmed(rows: Seq<Seq<u8>>) -> Seq<Seq<u8>>
    decreases rows.len(),
{
    if rows.len() == 0 || rows.last().len() > 0 {
        rows
    } else {
        trimmed(rows.drop_last())
    }
}

/// A trimmed sequence is the prefix of the rows that ends with their last
/// non-empty row: it drops empty rows only, and keeps nothing if all are empty.
pub proof fn lemma_trimmed(rows: Seq<Seq<u8>>)
    ensures
        trimmed(rows).len() <= rows.len(),
        trimmed(rows) == rows.take(trimmed(rows).len() as int),
        trimmed(rows).len() > 0 ==> trimmed(rows).last().len() > 0,
        forall|i: int| trimmed(rows).len() <= i < rows.len() ==> (#[trigger] rows[i]).len() == 0,
    decreases rows.len(),
{
    if rows.len() == 0 || rows.last().len() > 0 {
        assert(rows.take(rows.len() as int) == rows);
    } else {
        let shorter = rows.drop_last();
        lemma_trimmed(shorter);
        let kept: int = trimmed(shorter).len() as int;
        assert(shorter.take(kept) == rows.take(kept));
        assert forall|i: int| kept <= i < rows.len() implies (#[trigger] rows[i]).len() == 0 by {
            if i < shorter.len() {
                assert(shorter[i] == rows[i]);
            }
        }
    }
}

/// The trimmed rows are the first `kept` rows, whenever every row behind them
/// is empty and the last of them is not.
pub proof fn lemma_trimmed_keeps(rows: Seq<Seq<u8>>, kept: int)
    requires
        0 <= kept <= rows.len(),
        forall|i: int| kept <= i < rows.len() ==> (#[trigger] rows[i]).len() == 0,
        kept > 0 ==> rows[kept - 1].len() > 0,
    ensures
        trimmed(rows) == rows.take(kept),
    decreases rows.len(),
{
    if kept == rows.len() {
        assert(rows.take(kept) == rows);
    } else {
        let shorter = rows.drop_last();
        assert(rows.last() == rows[rows.len() - 1]);
        assert forall|i: int| kept <= i < shorter.len() implies (#[trigger] shorter[i]).len()
            == 0 by {
            assert(shorter[i] == rows[i]);
        }
        lemma_trimmed_keeps(shorter, kept);
        assert(shorter.take(kept) == rows.take(kept));
    }
}

/// Of blank rows nothing is left.
pub proof fn lemma_trimmed_blank(n: nat)
    ensures
        trimmed(blank_rows(n)) == Seq::<Seq<u8>>::empty(),
    decreases n,
{
    if n > 0 {
        assert(blank_rows(n).drop_last() == blank_rows((n - 1) as nat));
        lemma_trimmed_blank((n - 1) as nat);
    }
}

/// Drops the trailing empty rows of `rows`.
pub fn trim_rows(rows: Vec<Vec<u8>>) -> (kept: Vec<Vec<u8>>)
    ensures
        kept.deep_view() == trimmed(rows.deep_view()),
        kept.len() == trimmed(rows.deep_view()).len(),
{
    let mut rows = rows;
    let ghost all = rows.deep_view();
    let mut n: usize = rows.len();
    assert(all.take(n as int) == all);
    while n > 0 && rows[n - 1].len() == 0
        invariant
            n <= rows.len(),
            rows.deep_view() == all,
            trimmed(all) == trimmed(all.take(n as int)),
        decreases n,
    {
        proof {
            let head = all.take(n as int);
            assert(head.last() == rows[n - 1].deep_view());
            assert(head.drop_last() == all.take(n - 1));
        }
        n = n - 1;
    }
    proof {
        let head = all.take(n as int);
        if n > 0 {
            assert(head.last() == rows[n - 1].deep_view());
        }
        assert(trimmed(head) == head);
    }
    rows.truncate(n);
    assert(rows.deep_view() == all.take(n as int));
    rows
}

/// A rendering of the terminal at one moment.
#[derive(Debug, PartialEq, Eq)]
pub struct ShellBuffer {
    /// The visible rows, without the empty ones at the end.
    pub rows: Vec<Vec<u8>>,
    /// The row and the column of the cursor.
    pub cursor: (u16, u16),
}

impl Terminal {
    #[verifier::type_invariant]
    spec fn size_fits(self) -> bool {
        fits(grid_size(self.parser).0, grid_size(self.parser).1)
    }

    /// Tells whether a terminal can have `rows` rows and `cols` columns.
    pub fn supports(rows: u16, cols: u16) -> (yes: bool)
        ensures
            yes == fits(rows, cols),
    {
        MIN_ROWS <= rows && MIN_COLS <= cols && cols <= MAX_COLS
    }

    /// The rows that the terminal shows over `width` columns.
    pub closed spec fn grid(self, width: u16) -> Seq<Seq<u8>> {
        grid_rows(self.parser, width)
    }

    /// The row and the column of the cursor.
    pub closed spec fn cursor(self) -> (u16, u16) {
        grid_cursor(self.parser)
    }

    /// The bytes that make a blank terminal show what this one shows.
    pub closed spec fn rendering(self) -> Seq<u8> {
        state_bytes(self.parser)
    }

    /// Whether `after` is this terminal once it has `rows` rows and `cols`
    /// columns. It keeps its title. If it lost no row and no column, it is
    /// the same emulator with a larger grid; otherwise it is a new emulator
    /// that was fed the rendering of this one.
    pub open spec fn resized(self, rows: u16, cols: u16, after: Terminal) -> bool {
        &&& after@.rows == rows
        &&& after@.cols == cols
        &&& after@.title() == self@.title()
        &&& after@.fed == if self@.fits_into(rows, cols) {
            self@.fed
        } else {
            self.rendering()
        }
    }

    /// A blank terminal of `rows` by `cols` cells: nothing fed, no title,
    /// nothing on its rows, the cursor in the first cell.
    pub fn new(rows: u16, cols: u16) -> (t: Terminal)
        requires
            fits(rows, cols),
        ensures
            t@ == (TerminalState { fed: Seq::empty(), rows, cols }),
            t@.title() == Seq::<char>::empty(),
            forall|width: u16| #[trigger] t.grid(width) == blank_rows(rows as nat),
            t.cursor() == (0u16, 0u16),
    {
        Terminal { parser: parser_new(rows, cols) }
    }

    /// Hands `bytes` to the emulator.
    pub fn feed(&mut self, bytes: &[u8])
        ensures
            final(self)@ == old(self)@.feed(bytes@),
    {
        proof {
            use_type_invariant(&*self);
        }
        parser_process(&mut self.parser, bytes);
    }

    /// Gives the grid `rows` rows and `cols` columns. A grid that loses
    /// neither rows nor columns grows in place. For a grid that loses some,
    /// the terminal is made anew in the smaller size and fed the rendering
    /// of the old one, so that it shows what fits of what was shown.
    pub fn resize(&mut self, rows: u16, cols: u16)
        requires
            fits(rows, cols),
        ensures
            old(self).resized(rows, cols, *final(self)),
    {
        proof {
            use_type_invariant(&*self);
        }
        let size: (u16, u16) = parser_size(&self.parser);
        if size.0 <= rows && size.1 <= cols {
            parser_grow(&mut self.parser, rows, cols);
        } else {
            let state = parser_state(&self.parser);
            let mut parser = parser_new(rows, cols);
            parser_process(&mut parser, state.as_slice());
            assert(processed(parser) =~= state@);
            self.parser = parser;
        }
    }

    /// The window title, empty as long as the remote side has set none.
    pub fn title(&self) -> (title: String)
        ensures
            title@ == self@.title(),
    {
        parser_title(&self.parser)
    }

    /// The visible rows over `width` columns, trailing empty rows included.
    pub fn rows(&self, width: u16) -> (rows: Vec<Vec<u8>>)
        ensures
            rows.deep_view() == self.grid(width),
            rows.len() == self@.rows,
    {
        proof {
            use_type_invariant(self);
        }
        parser_rows(&self.parser, width)
    }

    /// The row and the column of the cursor.
    pub fn cursor_position(&self) -> (pos: (u16, u16))
        ensures
            pos == self.cursor(),
    {
        parser_cursor(&self.parser)
    }

    /// Renders the terminal over `width` columns, without trailing empty
    /// rows.
    pub fn snapshot(&self, width: u16) -> (buffer: ShellBuffer)
        ensures
            buffer.rows.deep_view() == trimmed(self.grid(width)),
            buffer.rows.len() == trimmed(self.grid(width)).len(),
            buffer.rows.len() <= self@.rows,
            buffer.cursor == self.cursor(),
    {
        let rows = self.rows(width);
        proof {
            lemma_trimmed(rows.deep_view());
        }
        let rows = trim_rows(rows);
        ShellBuffer { rows, cursor: self.cursor_position() }
    }
}

} // verus!
