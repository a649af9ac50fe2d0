use crate::blit::{blit, util_copy_buffer};
use crate::constants::{FOREGROUND_BLUE, FOREGROUND_GREEN, FOREGROUND_RED};
use vstd::prelude::*;
use vstd::std_specs::iter::IteratorSpec;

verus! {

/// Composite of background and foreground colour bits.
#[derive(Debug, Clone, Copy, PartialEq, Eq, Structural)]
pub struct Attribute(pub u16);

/// One cell of the grid: a character and its attribute.
#[derive(Debug, Clone, Copy, PartialEq, Eq, Structural)]
pub struct CharInfo(pub char, pub Attribute);

/// Column and row, both counted from zero.
#[derive(Debug, Clone, Copy, PartialEq, Eq, Structural)]
pub struct Coord(pub u16, pub u16);

/// A rectangle, either as left, top, right, bottom (bounds form, right and
/// bottom exclusive) or as x, y, width, height (extent form).
#[derive(Debug, Clone, Copy, PartialEq, Eq, Structural)]
pub struct Rect(pub u16, pub u16, pub u16, pub u16);

impl Default for Attribute {
    fn default() -> (r: Self)
        ensures
            r == Attribute(0),
    {
        Attribute(0)
    }
}

impl Default for CharInfo {
    fn default() -> (r: Self)
        ensures
            r == CharInfo::blank(),
    {
        CharInfo('\0', Attribute(0))
    }
}

impl Default for Coord {
    fn default() -> (r: Self)
        ensures
            r == Coord(0, 0),
    {
        Coord(0, 0)
    }
}

impl Default for Rect {
    fn default() -> (r: Self)
        ensures
            r == Rect(0, 0, 0, 0),
    {
        Rect(0, 0, 0, 0)
    }
}

impl CharInfo {
    /// The cell that a fresh or resized grid is filled with.
    pub open spec fn blank() -> CharInfo {
        CharInfo('\0', Attribute(0))
    }
}

impl Rect {
    /// The bounds form of the rectangle at `(x, y)` of `w` columns and `h` rows.
    pub open spec fn bounds(x: u16, y: u16, w: u16, h: u16) -> Rect {
        Rect(x, y, (x + w) as u16, (y + h) as u16)
    }

    /// The extent form of a rectangle given in bounds form.
    pub open spec fn extent(self) -> Rect {
        Rect(self.0, self.1, (self.2 - self.0) as u16, (self.3 - self.1) as u16)
    }

    /// Whether right and bottom are not before left and top.
    pub open spec fn ordered(self) -> bool {
        self.0 <= self.2 && self.1 <= self.3
    }

    /// The extent form, with a side that would be negative taken as empty.
    pub open spec fn clipped_extent(self) -> Rect {
        Rect(
            self.0,
            self.1,
            if self.2 >= self.0 { (self.2 - self.0) as u16 } else { 0 },
            if self.3 >= self.1 { (self.3 - self.1) as u16 } else { 0 },
        )
    }

    /// The bounds form of the rectangle at `(x, y)` of `w` columns and `h`
    /// rows.
    pub fn from_xywh(x: u16, y: u16, w: u16, h: u16) -> (r: Self)
        requires
            x + w <= u16::MAX,
            y + h <= u16::MAX,
        ensures
            r == Rect::bounds(x, y, w, h),
            r.ordered(),
            r.extent() == Rect(x, y, w, h),
    {
        Rect(x, y, x + w, y + h)
    }

    /// The extent form of a rectangle in bounds form.
    pub fn to_xywh(&self) -> (r: Self)
        requires
            self.ordered(),
        ensures
            r == self.extent(),
            r.0 + r.2 <= u16::MAX,
            r.1 + r.3 <= u16::MAX,
            Rect::bounds(r.0, r.1, r.2, r.3) == *self,
    {
        Rect(self.0, self.1, self.2 - self.0, self.3 - self.1)
    }

    /// The number of columns of a rectangle in bounds form.
    pub fn width(&self) -> (w: u16)
        requires
            self.0 <= self.2,
        ensures
            w == self.2 - self.0,
    {
        self.2 - self.0
    }

    /// The number of rows of a rectangle in bounds form.
    pub fn height(&self) -> (h: u16)
        requires
            self.1 <= self.3,
        ensures
            h == self.3 - self.1,
    {
        self.3 - self.1
    }
}

/// The two forms of a rectangle are each other's inverse: the extent form of
/// the bounds form of `(x, y, w, h)` is `(x, y, w, h)`, and the bounds form of
/// the extent form of a rectangle is that rectangle.
pub proof fn lemma_rect_forms_invert(x: u16, y: u16, w: u16, h: u16, bounds: Rect)
    requires
        x + w <= u16::MAX,
        y + h <= u16::MAX,
        bounds.ordered(),
    ensures
        Rect::bounds(x, y, w, h).extent() == Rect(x, y, w, h),
        Rect::bounds(x, y, w, h).ordered(),
        Rect::bounds(bounds.extent().0, bounds.extent().1, bounds.extent().2, bounds.extent().3)
            == bounds,
        bounds.clipped_extent() == bounds.extent(),
{
}

/// The grid with its cursor and the attribute that `write_console` gives to
/// the cells it writes.
#[derive(Debug, Clone)]
pub struct Console {
    pub size: Coord,
    pub buffer: Vec<CharInfo>,
    pub cursor: Coord,
    pub attribute: Attribute,
}

/// What a `Console` holds, with the cells as a sequence in row-major order.
pub ghost struct ConsoleView {
    pub size: Coord,
    pub cells: Seq<CharInfo>,
    pub cursor: Coord,
    pub attribute: Attribute,
}

impl View for Console {
    type V = ConsoleView;

    open spec fn view(&self) -> ConsoleView {
        ConsoleView {
            size: self.size,
            cells: self.buffer@,
            cursor: self.cursor,
            attribute: self.attribute,
        }
    }
}

impl ConsoleView {
    /// There is one cell for each column of each row.
    pub open spec fn wf(self) -> bool {
        self.cells.len() == self.size.0 * self.size.1
    }

    /// The place in `cells` of the cell at `at`.
    pub open spec fn index_of(self, at: Coord) -> int {
        at.0 + at.1 * self.size.0
    }

    /// The grid of `size` with every cell blank, the rest kept.
    pub open spec fn resized(self, size: Coord) -> ConsoleView {
        ConsoleView {
            size,
            cells: Seq::new((size.0 * size.1) as nat, |i: int| CharInfo::blank()),
            cursor: self.cursor,
            attribute: self.attribute,
        }
    }

    /// Whether `fill_console_output_attribute` and
    /// `fill_console_output_character` reach the cell `i`: there are
    /// `count + 1` such places from `start` on.
    pub open spec fn filled(self, count: u16, start: Coord, i: int) -> bool {
        self.index_of(start) <= i <= self.index_of(start) + count
    }

    /// The grid with the attribute of each cell that `filled` names set to
    /// `attribute`.
    pub open spec fn with_attribute_filled(self, count: u16, attribute: Attribute, start: Coord)
        -> ConsoleView {
        ConsoleView {
            size: self.size,
            cells: Seq::new(
                self.cells.len(),
                |i: int|
                    if self.filled(count, start, i) {
                        CharInfo(self.cells[i].0, attribute)
                    } else {
                        self.cells[i]
                    },
            ),
            cursor: self.cursor,
            attribute: self.attribute,
        }
    }

    /// The grid with the character of each cell that `filled` names set to
    /// `character`.
    pub open spec fn with_character_filled(self, count: u16, character: char, start: Coord)
        -> ConsoleView {
        ConsoleView {
            size: self.size,
            cells: Seq::new(
                self.cells.len(),
                |i: int|
                    if self.filled(count, start, i) {
                        CharInfo(character, self.cells[i].1)
                    } else {
                        self.cells[i]
                    },
            ),
            cursor: self.cursor,
            attribute: self.attribute,
        }
    }
}

impl ConsoleView {
    /// The row below the cursor's, or the last row where there is none below.
    pub open spec fn row_below(self) -> u16 {
        if self.cursor.1 + 1 < self.size.1 {
            (self.cursor.1 + 1) as u16
        } else {
            (self.size.1 - 1) as u16
        }
    }

    /// The grid after one character of a text was written. Where the cursor
    /// stands on no cell, nothing changes. A newline moves the cursor to the
    /// start of the row below. Any other character takes the cell under the
    /// cursor, with the current attribute, and the cursor moves one column on,
    /// or to the start of the row below from the last column.
    pub open spec fn put_char(self, character: char) -> ConsoleView {
        if self.index_of(self.cursor) >= self.cells.len() {
            self
        } else if character == '\n' {
            ConsoleView {
                size: self.size,
                cells: self.cells,
                cursor: Coord(0, self.row_below()),
                attribute: self.attribute,
            }
        } else {
            ConsoleView {
                size: self.size,
                cells: self.cells.update(
                    self.index_of(self.cursor),
                    CharInfo(character, self.attribute),
                ),
                cursor: if self.cursor.0 + 1 > self.size.0 - 1 {
                    Coord(0, self.row_below())
                } else {
                    Coord((self.cursor.0 + 1) as u16, self.cursor.1)
                },
                attribute: self.attribute,
            }
        }
    }

    /// The grid after the characters of `text` were written one by one.
    pub open spec fn put_text(self, text: Seq<char>) -> ConsoleView
        decreases text.len(),
    {
        if text.len() == 0 {
            self
        } else {
            self.put_char(text[0]).put_text(text.drop_first())
        }
    }

    /// Whether the cursor stands on a column and a row of the grid.
    pub open spec fn cursor_inside(self) -> bool {
        self.cursor.0 < self.size.0 && self.cursor.1 < self.size.1
    }
}

impl Console {
    /// The invariant of the grid: see `ConsoleView::wf`.
    pub open spec fn wf(&self) -> bool {
        self@.wf()
    }

    /// A console of `columns` by `rows` blank cells, with the cursor in the
    /// top-left corner and white on black as the current attribute.
    pub fn new(columns: u16, rows: u16) -> (console: Self)
        ensures
            console.wf(),
            console@ == (ConsoleView {
                size: Coord(columns, rows),
                cells: Seq::new((columns * rows) as nat, |i: int| CharInfo::blank()),
                cursor: Coord(0, 0),
                attribute: Attribute(0x0007),
            }),
    {
        let buffer = blank_cells(cell_count(columns, rows));
        assert(FOREGROUND_RED | FOREGROUND_GREEN | FOREGROUND_BLUE == 0x0007) by (bit_vector);
        Self {
            size: Coord(columns, rows),
            buffer,
            cursor: Coord(0, 0),
            attribute: Attribute(FOREGROUND_RED | FOREGROUND_GREEN | FOREGROUND_BLUE),
        }
    }
}

/// The place of the cell at `column` and `row` in a row-major grid that is
/// `width` cells wide.
pub(crate) fn linear_index(column: u16, row: u16, width: u16) -> (index: u64)
    ensures
        index == column + row * width,
        index <= 0xffff_ffff,
{
    assert(0 <= row * width <= 0xffff * 0xffff) by (nonlinear_arith)
        requires
            0 <= row <= 0xffff,
            0 <= width <= 0xffff,
    ;
    (column as u64) + (row as u64) * (width as u64)
}

/// `count` blank cells.
pub(crate) fn blank_cells(count: usize) -> (cells: Vec<CharInfo>)
    ensures
        cells@ == Seq::new(count as nat, |i: int| CharInfo::blank()),
{
    let cells = vec![CharInfo::default(); count];
    assert(cells@ =~= Seq::new(count as nat, |i: int| CharInfo::blank()));
    cells
}

/// `columns * rows`, which fits in `usize`.
fn cell_count(columns: u16, rows: u16) -> (count: usize)
    ensures
        count == columns * rows,
{
    assert(0 <= columns * rows <= 0xffff * 0xffff) by (nonlinear_arith)
        requires
            0 <= columns <= 0xffff,
            0 <= rows <= 0xffff,
    ;
    (columns as usize) * (rows as usize)
}

/// Gives the console a new size and blank cells; what it held is lost.
pub fn set_console_buffer_size(console: &mut Console, size: Coord)
    ensures
        final(console).wf(),
        final(console)@ == old(console)@.resized(size),
{
    console.buffer = blank_cells(cell_count(size.0, size.1));
    console.size = size;
}

/// Sets the attribute that `write_console` gives to the cells it writes.
pub fn set_console_attribute(console: &mut Console, attribute: Attribute)
    ensures
        *final(console) == (Console { attribute, ..*old(console) }),
{
    console.attribute = attribute;
}

/// Sets the attribute of `count + 1` cells in row-major order from `start`
/// on; cells beyond the end of the grid are left out.
pub fn fill_console_output_attribute(
    console: &mut Console,
    count: u16,
    attribute: Attribute,
    start: Coord,
)
    ensures
        final(console)@ == old(console)@.with_attribute_filled(count, attribute, start),
        old(console).wf() ==> final(console).wf(),
{
    let ghost before = console@;
    let first: u64 = linear_index(start.0, start.1, console.size.0);
    let len: usize = console.buffer.len();
    let mut n: u64 = 0;
    while n <= count as u64 && first + n < len as u64
        invariant
            first == before.index_of(start),
            first <= 0xffff_ffff,
            n <= count + 1,
            len == before.cells.len(),
            console.buffer@.len() == len,
            console.size == before.size,
            console.cursor == before.cursor,
            console.attribute == before.attribute,
            forall|i: int|
                0 <= i < len ==> console.buffer@[i] == if first <= i < first + n {
                    CharInfo(before.cells[i].0, attribute)
                } else {
                    #[trigger] before.cells[i]
                },
        decreases count + 1 - n,
    {
        let index: usize = (first + n) as usize;
        let cell = console.buffer[index];
        console.buffer.set(index, CharInfo(cell.0, attribute));
        n = n + 1;
    }
    assert(console@.cells =~= before.with_attribute_filled(count, attribute, start).cells);
}

/// Sets the character of `count + 1` cells in row-major order from `start`
/// on; cells beyond the end of the grid are left out.
pub fn fill_console_output_character(
    console: &mut Console,
    count: u16,
    character: char,
    start: Coord,
)
    ensures
        final(console)@ == old(console)@.with_character_filled(count, character, start),
        old(console).wf() ==> final(console).wf(),
{
    let ghost before = console@;
    let first: u64 = linear_index(start.0, start.1, console.size.0);
    let len: usize = console.buffer.len();
    let mut n: u64 = 0;
    while n <= count as u64 && first + n < len as u64
        invariant
            first == before.index_of(start),
            first <= 0xffff_ffff,
            n <= count + 1,
            len == before.cells.len(),
            console.buffer@.len() == len,
            console.size == before.size,
            console.cursor == before.cursor,
            console.attribute == before.attribute,
            forall|i: int|
                0 <= i < len ==> console.buffer@[i] == if first <= i < first + n {
                    CharInfo(character, before.cells[i].1)
                } else {
                    #[trigger] before.cells[i]
                },
        decreases count + 1 - n,
    {
        let index: usize = (first + n) as usize;
        let cell = console.buffer[index];
        console.buffer.set(index, CharInfo(character, cell.1));
        n = n + 1;
    }
    assert(console@.cells =~= before.with_character_filled(count, character, start).cells);
}

/// Moves the cursor, wherever `position` lies.
pub fn set_console_cursor_position(console: &mut Console, position: Coord)
    ensures
        *final(console) == (Console { cursor: position, ..*old(console) }),
{
    console.cursor = position;
}

/// Once the cursor stands on no cell, no text changes the grid any more.
pub proof fn lemma_put_text_off_grid(v: ConsoleView, text: Seq<char>)
    requires
        v.index_of(v.cursor) >= v.cells.len(),
    ensures
        v.put_text(text) == v,
    decreases text.len(),
{
    if text.len() > 0 {
        lemma_put_text_off_grid(v, text.drop_first());
    }
}

/// A cursor that stands on a cell of a well-formed grid stands on one of its
/// rows.
pub proof fn lemma_cursor_on_cell_row(v: ConsoleView)
    requires
        v.wf(),
        v.index_of(v.cursor) < v.cells.len(),
    ensures
        v.cursor.1 < v.size.1,
        v.size.0 > 0,
{
    let c = v.cursor.1 as int;
    let w = v.size.0 as int;
    let h = v.size.1 as int;
    assert(c < h && w > 0) by (nonlinear_arith)
        requires
            c * w < w * h,
            0 <= c,
            0 <= w,
            0 <= h,
    ;
}

/// Writing a character changes neither the size of the grid, nor the number
/// of its cells, nor the current attribute, nor any cell but the one under
/// the cursor.
pub proof fn lemma_put_char_frame(v: ConsoleView, character: char)
    ensures
        0 <= v.index_of(v.cursor),
        v.put_char(character).size == v.size,
        v.put_char(character).attribute == v.attribute,
        v.put_char(character).cells.len() == v.cells.len(),
        v.wf() ==> v.put_char(character).wf(),
        forall|k: int|
            0 <= k < v.cells.len() && k != v.index_of(v.cursor) ==> #[trigger] v.put_char(
                character,
            ).cells[k] == v.cells[k],
{
    assert(0 <= v.cursor.1 * v.size.0) by (nonlinear_arith)
        requires
            0 <= v.cursor.1,
            0 <= v.size.0,
    ;
}

/// Writing a text changes neither the size of the grid, nor the number of its
/// cells, nor the current attribute.
pub proof fn lemma_put_text_frame(v: ConsoleView, text: Seq<char>)
    ensures
        v.put_text(text).size == v.size,
        v.put_text(text).attribute == v.attribute,
        v.put_text(text).cells.len() == v.cells.len(),
        v.wf() ==> v.put_text(text).wf(),
    decreases text.len(),
{
    if text.len() > 0 {
        lemma_put_char_frame(v, text[0]);
        lemma_put_text_frame(v.put_char(text[0]), text.drop_first());
    }
}

/// A cursor that stands on a row of the grid stays on one, whatever is
/// written: from the last row it goes no further down.
pub proof fn lemma_put_text_keeps_row(v: ConsoleView, text: Seq<char>)
    requires
        v.wf(),
        v.cursor.1 < v.size.1,
    ensures
        v.put_text(text).cursor.1 < v.size.1,
    decreases text.len(),
{
    if text.len() > 0 {
        lemma_put_char_frame(v, text[0]);
        lemma_put_text_keeps_row(v.put_char(text[0]), text.drop_first());
    }
}

/// A cursor that stands on a column and a row of the grid stays on one,
/// whatever is written.
pub proof fn lemma_put_text_keeps_cursor_inside(v: ConsoleView, text: Seq<char>)
    requires
        v.wf(),
        v.cursor_inside(),
    ensures
        v.put_text(text).cursor_inside(),
    decreases text.len(),
{
    lemma_put_text_frame(v, text);
    if text.len() > 0 {
        lemma_put_char_frame(v, text[0]);
        lemma_put_text_frame(v.put_char(text[0]), text.drop_first());
        lemma_put_text_keeps_cursor_inside(v.put_char(text[0]), text.drop_first());
    }
}

/// With the cursor on the last row, whatever is written goes to the last row:
/// the cursor stays there and the rows above keep their cells.
pub proof fn lemma_put_text_on_last_row(v: ConsoleView, text: Seq<char>)
    requires
        v.wf(),
        v.cursor.1 + 1 == v.size.1,
    ensures
        v.put_text(text).cursor.1 + 1 == v.size.1,
        forall|k: int|
            0 <= k < (v.size.1 - 1) * v.size.0 ==> k < v.cells.len() && #[trigger] v.put_text(
                text,
            ).cells[k] == v.cells[k],
    decreases text.len(),
{
    if text.len() > 0 {
        let next = v.put_char(text[0]);
        lemma_put_char_frame(v, text[0]);
        lemma_put_text_on_last_row(next, text.drop_first());
        lemma_put_text_frame(next, text.drop_first());
        assert((v.size.1 - 1) * v.size.0 <= v.size.0 * v.size.1) by (nonlinear_arith)
            requires
                0 <= v.size.0,
                0 < v.size.1,
        ;
        assert forall|k: int| 0 <= k < (v.size.1 - 1) * v.size.0 implies #[trigger] v.put_text(
            text,
        ).cells[k] == v.cells[k] by {
            assert(next.put_text(text.drop_first()).cells[k] == next.cells[k]);
            assert(k != v.index_of(v.cursor));
        }
    } else {
        assert((v.size.1 - 1) * v.size.0 <= v.size.0 * v.size.1) by (nonlinear_arith)
            requires
                0 <= v.size.0,
                0 < v.size.1,
        ;
    }
}

/// Writes one character of a text at the cursor; says whether the cursor
/// stood on a cell.
pub(crate) fn write_character(console: &mut Console, character: char) -> (on_grid: bool)
    requires
        old(console).wf(),
    ensures
        final(console).wf(),
        final(console)@ == old(console)@.put_char(character),
        on_grid == (old(console)@.index_of(old(console).cursor) < old(console)@.cells.len()),
{
    let index: u64 = linear_index(console.cursor.0, console.cursor.1, console.size.0);
    if index >= console.buffer.len() as u64 {
        return false;
    }
    proof {
        lemma_cursor_on_cell_row(console@);
    }
    let below: u16 = if console.cursor.1 + 1 < console.size.1 {
        console.cursor.1 + 1
    } else {
        console.size.1 - 1
    };
    if character == '\n' {
        console.cursor = Coord(0, below);
    } else {
        let cell = CharInfo(character, console.attribute);
        console.buffer.set(index as usize, cell);
        if console.cursor.0 >= console.size.0 - 1 {
            console.cursor = Coord(0, below);
        } else {
            console.cursor = Coord(console.cursor.0 + 1, console.cursor.1);
        }
    }
    true
}

/// Writes `text` at the cursor, character by character: see
/// `ConsoleView::put_char`. Nothing scrolls: from the last row the cursor
/// goes back to the start of that row.
pub fn write_console(console: &mut Console, text: &str)
    requires
        old(console).wf(),
    ensures
        final(console).wf(),
        final(console)@ == old(console)@.put_text(text@),
        final(console).size == old(console).size,
        final(console).attribute == old(console).attribute,
        old(console).cursor.1 < old(console).size.1 ==> final(console).cursor.1 < old(
            console,
        ).size.1,
        old(console)@.cursor_inside() ==> final(console)@.cursor_inside(),
{
    broadcast use {
        vstd::group_vstd_default,
        vstd::string::axiom_spec_iter,
        vstd::string::next_postcondition,
    };

    let ghost before = console@;
    proof {
        lemma_put_text_frame(before, text@);
        if before.cursor.1 < before.size.1 {
            lemma_put_text_keeps_row(before, text@);
        }
        if before.cursor_inside() {
            lemma_put_text_keeps_cursor_inside(before, text@);
        }
    }
    let mut characters = text.chars();
    loop
        invariant
            console.wf(),
            characters.obeys_prophetic_iter_laws(),
            characters.decrease() is Some,
            console@.put_text(characters.remaining()) == before.put_text(text@),
        ensures
            console.wf(),
            console@ == before.put_text(text@),
        decreases characters.decrease()->0,
    {
        let ghost rest = characters.remaining();
        let ghost here = console@;
        let next = characters.next();
        let character = match next {
            Some(character) => character,
            None => {
                break ;
            },
        };
        let on_grid = write_character(console, character);
        if !on_grid {
            proof {
                lemma_put_text_off_grid(here, rest);
            }
            break ;
        }
    }
}

/// The extent form of `src`; a side whose end lies before its start is empty.
fn clipped_extent_of(src: Rect) -> (extent: Rect)
    ensures
        extent == src.clipped_extent(),
{
    Rect(
        src.0,
        src.1,
        if src.2 >= src.0 {
            src.2 - src.0
        } else {
            0
        },
        if src.3 >= src.1 {
            src.3 - src.1
        } else {
            0
        },
    )
}

/// Copies the rectangle `src` (bounds form) of the console to `dst` in
/// `buffer`, a row-major grid `buffer_size.0` cells wide.
pub fn read_console_output(
    console: &Console,
    buffer: &mut Vec<CharInfo>,
    buffer_size: Coord,
    dst: Coord,
    src: Rect,
)
    ensures
        final(buffer)@ == blit(
            console.buffer@,
            console.size.0,
            console.size.1,
            old(buffer)@,
            buffer_size.0,
            src.clipped_extent(),
            dst,
        ),
        final(buffer)@.len() == old(buffer)@.len(),
{
    util_copy_buffer(
        &console.buffer,
        console.size.0,
        console.size.1,
        buffer,
        buffer_size.0,
        clipped_extent_of(src),
        dst,
    );
}

/// Copies the rectangle `src` (bounds form) of `buffer`, a row-major grid of
/// `buffer_size.0` by `buffer_size.1` cells, to `dst` in the console.
pub fn write_console_output(
    console: &mut Console,
    buffer: &Vec<CharInfo>,
    buffer_size: Coord,
    dst: Coord,
    src: Rect,
)
    ensures
        final(console)@ == (ConsoleView {
            cells: blit(
                buffer@,
                buffer_size.0,
                buffer_size.1,
                old(console).buffer@,
                old(console).size.0,
                src.clipped_extent(),
                dst,
            ),
            ..old(console)@
        }),
        old(console).wf() ==> final(console).wf(),
{
    let columns = console.size.0;
    util_copy_buffer(
        buffer,
        buffer_size.0,
        buffer_size.1,
        &mut console.buffer,
        columns,
        clipped_extent_of(src),
        dst,
    );
}

} // verus!
