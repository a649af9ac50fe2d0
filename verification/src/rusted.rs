use crate::blit::util_copy_buffer;
use crate::console::{
    fill_console_output_attribute, fill_console_output_character, lemma_put_char_frame,
    set_console_attribute, set_console_buffer_size, set_console_cursor_position, write_character,
    write_console, write_console_output, Attribute, CharInfo, Console, ConsoleView, Coord, Rect,
};
use crate::constants::{
    BACKGROUND_BLUE, BACKGROUND_GREEN, BACKGROUND_INTENSITY, BACKGROUND_RED,
    BOX_BOTLEFT_DOUBLE, BOX_BOTRIGHT_DOUBLE, BOX_HORIZONTAL_DOUBLE, BOX_TOPLEFT_DOUBLE,
    BOX_TOPRIGHT_DOUBLE, BOX_VERTICAL_DOUBLE, FOREGROUND_BLUE, FOREGROUND_GREEN,
    FOREGROUND_INTENSITY, FOREGROUND_RED,
};
use crate::region::{
    in_region, lemma_grid_bounds, lemma_grid_place, lemma_snapshot_restores, restore, snapshot,
};
use crate::window::Window;
use vstd::prelude::*;

verus! {

/// A console together with the colours that new text is written in.
pub struct Rusted {
    pub console: Console,
    /// the background bits of the current attribute
    pub background_color: u16,
    /// the foreground bits of the current attribute
    pub foreground_color: u16,
}

/// The foreground bits of an attribute for a colour given as four bits: red,
/// green, blue, intensity, from the lowest bit up.
pub open spec fn foreground_bits(color: u16) -> u16 {
    color & 0x000f
}

/// The background bits of an attribute for a colour given as four bits: red,
/// green, blue, intensity, from the lowest bit up.
pub open spec fn background_bits(color: u16) -> u16 {
    (color & 0x000f) << 4
}

/// The grid after `character` was written with the cursor set to `column` and
/// `row`, each taken as 16 bits.
pub open spec fn put_at(v: ConsoleView, column: int, row: int, character: char) -> ConsoleView {
    (ConsoleView { cursor: Coord(column as u16, row as u16), ..v }).put_char(character)
}

/// Whether the width and height of a rectangle fit in 16 bits each, and its
/// corner is such that sums of a coordinate and a side fit in 32 bits.
pub open spec fn region_ok(x: int, y: int, w: int, h: int) -> bool {
    &&& 0 <= w <= u16::MAX
    &&& 0 <= h <= u16::MAX
    &&& -0x4000_0000 <= x <= 0x3fff_0000
    &&& -0x4000_0000 <= y <= 0x3fff_0000
}

/// Whether the rectangle lies where 16-bit columns and rows can name it.
pub open spec fn region_on_grid(x: int, y: int, w: int, h: int) -> bool {
    0 <= x && 0 <= y && 0 <= w && 0 <= h && x + w <= u16::MAX && y + h <= u16::MAX
}

/// The number of columns or rows between the two edges of a frame.
pub open spec fn interior(side: int) -> nat {
    if side >= 2 {
        (side - 2) as nat
    } else {
        0
    }
}

/// The grid after spaces were written into the `columns` cells right of
/// column `x` in one row, from left to right.
pub open spec fn fill_row(v: ConsoleView, x: int, row: int, columns: nat) -> ConsoleView
    decreases columns,
{
    if columns == 0 {
        v
    } else {
        put_at(fill_row(v, x, row, (columns - 1) as nat), x + columns, row, ' ')
    }
}

/// The grid after spaces were written into `columns` cells right of column
/// `x` in each of the `rows` rows below row `y`, from top to bottom.
pub open spec fn fill_rows(v: ConsoleView, x: int, y: int, columns: nat, rows: nat) -> ConsoleView
    decreases rows,
{
    if rows == 0 {
        v
    } else {
        fill_row(fill_rows(v, x, y, columns, (rows - 1) as nat), x, y + rows, columns)
    }
}

/// The grid after the inside of the rectangle was filled with spaces.
pub open spec fn window_filled(v: ConsoleView, x: int, y: int, w: int, h: int) -> ConsoleView {
    fill_rows(v, x, y, interior(w), interior(h))
}

/// The grid after the first `columns` cells of the top and the bottom edge
/// were drawn, from left to right, the top cell before the bottom one.
pub open spec fn frame_horizontal(v: ConsoleView, x: int, y: int, h: int, columns: nat)
    -> ConsoleView
    decreases columns,
{
    if columns == 0 {
        v
    } else {
        put_at(
            put_at(
                frame_horizontal(v, x, y, h, (columns - 1) as nat),
                x + columns - 1,
                y,
                BOX_HORIZONTAL_DOUBLE,
            ),
            x + columns - 1,
            y + h - 1,
            BOX_HORIZONTAL_DOUBLE,
        )
    }
}

/// The grid after the first `rows` cells of the left and the right edge were
/// drawn, from top to bottom, the left cell before the right one.
pub open spec fn frame_vertical(v: ConsoleView, x: int, y: int, w: int, rows: nat) -> ConsoleView
    decreases rows,
{
    if rows == 0 {
        v
    } else {
        put_at(
            put_at(
                frame_vertical(v, x, y, w, (rows - 1) as nat),
                x,
                y + rows - 1,
                BOX_VERTICAL_DOUBLE,
            ),
            x + w - 1,
            y + rows - 1,
            BOX_VERTICAL_DOUBLE,
        )
    }
}

/// The grid after the four corners were drawn.
pub open spec fn frame_corners(v: ConsoleView, x: int, y: int, w: int, h: int) -> ConsoleView {
    put_at(
        put_at(
            put_at(put_at(v, x, y, BOX_TOPLEFT_DOUBLE), x + w - 1, y, BOX_TOPRIGHT_DOUBLE),
            x,
            y + h - 1,
            BOX_BOTLEFT_DOUBLE,
        ),
        x + w - 1,
        y + h - 1,
        BOX_BOTRIGHT_DOUBLE,
    )
}

/// The grid after a double-line frame was drawn on the border of the
/// rectangle: the horizontal edges, then the vertical ones, then the corners.
pub open spec fn window_framed(v: ConsoleView, x: int, y: int, w: int, h: int) -> ConsoleView {
    frame_corners(
        frame_vertical(frame_horizontal(v, x, y, h, w as nat), x, y, w, h as nat),
        x,
        y,
        w,
        h,
    )
}

/// The grid after a window was opened on it: the colours set, the inside
/// filled, and the frame drawn where one was asked for.
pub open spec fn window_opened(
    v: ConsoleView,
    x: int,
    y: int,
    w: int,
    h: int,
    fgc: u16,
    bgc: u16,
    with_frame: bool,
) -> ConsoleView {
    let painted = ConsoleView {
        attribute: Attribute(foreground_bits(fgc) | background_bits(bgc)),
        ..v
    };
    let filled = window_filled(painted, x, y, w, h);
    if with_frame {
        window_framed(filled, x, y, w, h)
    } else {
        filled
    }
}

/// Whether `after` has the size of `before` and differs from it in cells of
/// the rectangle `region` (extent form) only.
pub open spec fn changed_within(before: ConsoleView, after: ConsoleView, region: Rect) -> bool {
    &&& after.size == before.size
    &&& after.cells.len() == before.cells.len()
    &&& forall|k: int|
        0 <= k < before.cells.len() && !in_region(
            k,
            before.size.0 as int,
            Coord(region.0, region.1),
            region.2 as int,
            region.3 as int,
        ) ==> #[trigger] after.cells[k] == before.cells[k]
}

/// Whether the rectangle `region` (extent form) lies within the grid.
pub open spec fn region_inside(v: ConsoleView, region: Rect) -> bool {
    region.0 + region.2 <= v.size.0 && region.1 + region.3 <= v.size.1
}

/// A character written at a column and a row of a rectangle that lies within
/// the grid's columns changes no cell outside the rectangle.
pub proof fn lemma_put_at_within(
    v: ConsoleView,
    column: int,
    row: int,
    character: char,
    region: Rect,
)
    requires
        region.0 <= column < region.0 + region.2,
        region.1 <= row < region.1 + region.3,
        region.0 + region.2 <= v.size.0,
        region.1 + region.3 <= u16::MAX,
    ensures
        changed_within(v, put_at(v, column, row, character), region),
        put_at(v, column, row, character).attribute == v.attribute,
{
    let moved = ConsoleView { cursor: Coord(column as u16, row as u16), ..v };
    lemma_put_char_frame(moved, character);
    assert forall|k: int|
        0 <= k < v.cells.len() && !in_region(
            k,
            v.size.0 as int,
            Coord(region.0, region.1),
            region.2 as int,
            region.3 as int,
        ) implies #[trigger] put_at(v, column, row, character).cells[k] == v.cells[k] by {
        lemma_grid_place(k, v.size.0 as int, column, row);
    }
}

/// Filling part of a row inside the rectangle changes no cell outside it.
pub proof fn lemma_fill_row_within(v: ConsoleView, x: int, row: int, columns: nat, region: Rect)
    requires
        region.0 <= x + 1,
        x + columns < region.0 + region.2,
        region.1 <= row < region.1 + region.3,
        region.0 + region.2 <= v.size.0,
        region.1 + region.3 <= u16::MAX,
    ensures
        changed_within(v, fill_row(v, x, row, columns), region),
        fill_row(v, x, row, columns).attribute == v.attribute,
    decreases columns,
{
    if columns > 0 {
        let earlier = fill_row(v, x, row, (columns - 1) as nat);
        lemma_fill_row_within(v, x, row, (columns - 1) as nat, region);
        lemma_put_at_within(earlier, x + columns, row, ' ', region);
    }
}

/// Filling rows inside the rectangle changes no cell outside it.
pub proof fn lemma_fill_rows_within(
    v: ConsoleView,
    x: int,
    y: int,
    columns: nat,
    rows: nat,
    region: Rect,
)
    requires
        region.0 <= x + 1,
        x + columns < region.0 + region.2,
        region.1 <= y + 1,
        y + rows < region.1 + region.3,
        region.0 + region.2 <= v.size.0,
        region.1 + region.3 <= u16::MAX,
    ensures
        changed_within(v, fill_rows(v, x, y, columns, rows), region),
        fill_rows(v, x, y, columns, rows).attribute == v.attribute,
    decreases rows,
{
    if rows > 0 {
        let above = fill_rows(v, x, y, columns, (rows - 1) as nat);
        lemma_fill_rows_within(v, x, y, columns, (rows - 1) as nat, region);
        lemma_fill_row_within(above, x, y + rows, columns, region);
    }
}

/// Drawing the horizontal edges of a rectangle that has a cell changes no
/// cell outside it.
pub proof fn lemma_frame_horizontal_within(
    v: ConsoleView,
    x: int,
    y: int,
    h: int,
    columns: nat,
    region: Rect,
)
    requires
        region.0 == x,
        region.1 == y,
        region.3 == h,
        1 <= h,
        columns <= region.2,
        region.0 + region.2 <= v.size.0,
        region.1 + region.3 <= u16::MAX,
    ensures
        changed_within(v, frame_horizontal(v, x, y, h, columns), region),
    decreases columns,
{
    if columns > 0 {
        let earlier = frame_horizontal(v, x, y, h, (columns - 1) as nat);
        lemma_frame_horizontal_within(v, x, y, h, (columns - 1) as nat, region);
        let top = put_at(earlier, x + columns - 1, y, BOX_HORIZONTAL_DOUBLE);
        lemma_put_at_within(earlier, x + columns - 1, y, BOX_HORIZONTAL_DOUBLE, region);
        lemma_put_at_within(top, x + columns - 1, y + h - 1, BOX_HORIZONTAL_DOUBLE, region);
    }
}

/// Drawing the vertical edges of a rectangle that has a cell changes no cell
/// outside it.
pub proof fn lemma_frame_vertical_within(
    v: ConsoleView,
    x: int,
    y: int,
    w: int,
    rows: nat,
    region: Rect,
)
    requires
        region.0 == x,
        region.1 == y,
        region.2 == w,
        1 <= w,
        rows <= region.3,
        region.0 + region.2 <= v.size.0,
        region.1 + region.3 <= u16::MAX,
    ensures
        changed_within(v, frame_vertical(v, x, y, w, rows), region),
    decreases rows,
{
    if rows > 0 {
        let earlier = frame_vertical(v, x, y, w, (rows - 1) as nat);
        lemma_frame_vertical_within(v, x, y, w, (rows - 1) as nat, region);
        let left = put_at(earlier, x, y + rows - 1, BOX_VERTICAL_DOUBLE);
        lemma_put_at_within(earlier, x, y + rows - 1, BOX_VERTICAL_DOUBLE, region);
        lemma_put_at_within(left, x + w - 1, y + rows - 1, BOX_VERTICAL_DOUBLE, region);
    }
}

/// Opening a window on a rectangle that has a cell and lies within the
/// grid's columns changes no cell outside the rectangle.
pub proof fn lemma_window_opened_within(
    v: ConsoleView,
    x: int,
    y: int,
    w: int,
    h: int,
    fgc: u16,
    bgc: u16,
    with_frame: bool,
)
    requires
        region_on_grid(x, y, w, h),
        1 <= w,
        1 <= h,
        x + w <= v.size.0,
    ensures
        changed_within(
            v,
            window_opened(v, x, y, w, h, fgc, bgc, with_frame),
            Rect(x as u16, y as u16, w as u16, h as u16),
        ),
{
    let region = Rect(x as u16, y as u16, w as u16, h as u16);
    let painted = ConsoleView {
        attribute: Attribute(foreground_bits(fgc) | background_bits(bgc)),
        ..v
    };
    let filled = window_filled(painted, x, y, w, h);
    lemma_fill_rows_within(painted, x, y, interior(w), interior(h), region);
    assert(changed_within(v, filled, region));
    if with_frame {
        let edged = frame_horizontal(filled, x, y, h, w as nat);
        lemma_frame_horizontal_within(filled, x, y, h, w as nat, region);
        let sided = frame_vertical(edged, x, y, w, h as nat);
        lemma_frame_vertical_within(edged, x, y, w, h as nat, region);
        let first = put_at(sided, x, y, BOX_TOPLEFT_DOUBLE);
        lemma_put_at_within(sided, x, y, BOX_TOPLEFT_DOUBLE, region);
        let second = put_at(first, x + w - 1, y, BOX_TOPRIGHT_DOUBLE);
        lemma_put_at_within(first, x + w - 1, y, BOX_TOPRIGHT_DOUBLE, region);
        let third = put_at(second, x, y + h - 1, BOX_BOTLEFT_DOUBLE);
        lemma_put_at_within(second, x, y + h - 1, BOX_BOTLEFT_DOUBLE, region);
        lemma_put_at_within(third, x + w - 1, y + h - 1, BOX_BOTRIGHT_DOUBLE, region);
        assert(changed_within(v, sided, region));
        assert(changed_within(v, third, region));
    }
}

/// What a cell of an opened window holds: `i` and `j` are its column and row
/// within the rectangle of `w` by `h` cells. A cell between the edges holds
/// a space in the window's colours. A cell on an edge holds the glyph of the
/// frame in those colours where a frame was drawn, and what it held where
/// none was.
pub open spec fn opened_cell(
    before: CharInfo,
    colors: Attribute,
    i: int,
    j: int,
    w: int,
    h: int,
    with_frame: bool,
) -> CharInfo {
    if 0 < i < w - 1 && 0 < j < h - 1 {
        CharInfo(' ', colors)
    } else if with_frame {
        CharInfo(frame_glyph(i, j, w, h), colors)
    } else {
        before
    }
}

/// The glyph of a double-line frame of `w` by `h` cells at column `i` and
/// row `j` of its border. Where two corners fall on one cell, the cell shows
/// the bottom one of them, and the right one of two in a row.
pub open spec fn frame_glyph(i: int, j: int, w: int, h: int) -> char {
    if i == w - 1 && j == h - 1 {
        BOX_BOTRIGHT_DOUBLE
    } else if i == 0 && j == h - 1 {
        BOX_BOTLEFT_DOUBLE
    } else if i == w - 1 && j == 0 {
        BOX_TOPRIGHT_DOUBLE
    } else if i == 0 && j == 0 {
        BOX_TOPLEFT_DOUBLE
    } else if i == 0 || i == w - 1 {
        BOX_VERTICAL_DOUBLE
    } else {
        BOX_HORIZONTAL_DOUBLE
    }
}

/// What one cell holds after a character that is no newline was written at
/// a column and a row of the grid: the character in the current attribute
/// where the cell is the one written, and what it held before where not.
pub proof fn lemma_put_at_cell(
    v: ConsoleView,
    column: int,
    row: int,
    character: char,
    other: int,
    line: int,
)
    requires
        v.wf(),
        character != '\n',
        0 <= column < v.size.0,
        0 <= row < v.size.1,
        0 <= other < v.size.0,
        0 <= line < v.size.1,
    ensures
        put_at(v, column, row, character).wf(),
        put_at(v, column, row, character).size == v.size,
        put_at(v, column, row, character).attribute == v.attribute,
        0 <= other + line * v.size.0 < v.cells.len(),
        put_at(v, column, row, character).cells[other + line * v.size.0] == if other == column
            && line == row {
            CharInfo(character, v.attribute)
        } else {
            v.cells[other + line * v.size.0]
        },
{
    let moved = ConsoleView { cursor: Coord(column as u16, row as u16), ..v };
    lemma_put_char_frame(moved, character);
    lemma_grid_bounds(column, row, v.size.0 as int, v.size.1 as int);
    lemma_grid_bounds(other, line, v.size.0 as int, v.size.1 as int);
    lemma_grid_place(other + line * v.size.0, v.size.0 as int, column, row);
    lemma_grid_place(other + line * v.size.0, v.size.0 as int, other, line);
}

/// What one cell holds after part of a row was filled with spaces.
pub proof fn lemma_fill_row_cell(
    v: ConsoleView,
    x: int,
    row: int,
    columns: nat,
    other: int,
    line: int,
)
    requires
        v.wf(),
        0 <= x,
        x + columns < v.size.0,
        0 <= row < v.size.1,
        0 <= other < v.size.0,
        0 <= line < v.size.1,
    ensures
        fill_row(v, x, row, columns).wf(),
        fill_row(v, x, row, columns).size == v.size,
        fill_row(v, x, row, columns).attribute == v.attribute,
        fill_row(v, x, row, columns).cells[other + line * v.size.0] == if line == row && x < other
            <= x + columns {
            CharInfo(' ', v.attribute)
        } else {
            v.cells[other + line * v.size.0]
        },
    decreases columns,
{
    if columns > 0 {
        let earlier = fill_row(v, x, row, (columns - 1) as nat);
        lemma_fill_row_cell(v, x, row, (columns - 1) as nat, other, line);
        lemma_put_at_cell(earlier, x + columns, row, ' ', other, line);
    }
}

/// What one cell holds after rows were filled with spaces.
pub proof fn lemma_fill_rows_cell(
    v: ConsoleView,
    x: int,
    y: int,
    columns: nat,
    rows: nat,
    other: int,
    line: int,
)
    requires
        v.wf(),
        0 <= x,
        0 <= y,
        x + columns < v.size.0,
        y + rows < v.size.1,
        0 <= other < v.size.0,
        0 <= line < v.size.1,
    ensures
        fill_rows(v, x, y, columns, rows).wf(),
        fill_rows(v, x, y, columns, rows).size == v.size,
        fill_rows(v, x, y, columns, rows).attribute == v.attribute,
        fill_rows(v, x, y, columns, rows).cells[other + line * v.size.0] == if y < line <= y + rows
            && x < other <= x + columns {
            CharInfo(' ', v.attribute)
        } else {
            v.cells[other + line * v.size.0]
        },
    decreases rows,
{
    if rows > 0 {
        let above = fill_rows(v, x, y, columns, (rows - 1) as nat);
        lemma_fill_rows_cell(v, x, y, columns, (rows - 1) as nat, other, line);
        lemma_fill_row_cell(above, x, y + rows, columns, other, line);
    }
}

/// What one cell holds after part of the horizontal edges was drawn.
pub proof fn lemma_frame_horizontal_cell(
    v: ConsoleView,
    x: int,
    y: int,
    h: int,
    columns: nat,
    other: int,
    line: int,
)
    requires
        v.wf(),
        0 <= x,
        0 <= y,
        1 <= h,
        x + columns <= v.size.0,
        y + h <= v.size.1,
        0 <= other < v.size.0,
        0 <= line < v.size.1,
    ensures
        frame_horizontal(v, x, y, h, columns).wf(),
        frame_horizontal(v, x, y, h, columns).size == v.size,
        frame_horizontal(v, x, y, h, columns).attribute == v.attribute,
        frame_horizontal(v, x, y, h, columns).cells[other + line * v.size.0] == if (line == y
            || line == y + h - 1) && x <= other < x + columns {
            CharInfo(BOX_HORIZONTAL_DOUBLE, v.attribute)
        } else {
            v.cells[other + line * v.size.0]
        },
    decreases columns,
{
    if columns > 0 {
        let earlier = frame_horizontal(v, x, y, h, (columns - 1) as nat);
        lemma_frame_horizontal_cell(v, x, y, h, (columns - 1) as nat, other, line);
        let top = put_at(earlier, x + columns - 1, y, BOX_HORIZONTAL_DOUBLE);
        lemma_put_at_cell(earlier, x + columns - 1, y, BOX_HORIZONTAL_DOUBLE, other, line);
        lemma_put_at_cell(top, x + columns - 1, y + h - 1, BOX_HORIZONTAL_DOUBLE, other, line);
    }
}

/// What one cell holds after part of the vertical edges was drawn.
pub proof fn lemma_frame_vertical_cell(
    v: ConsoleView,
    x: int,
    y: int,
    w: int,
    rows: nat,
    other: int,
    line: int,
)
    requires
        v.wf(),
        0 <= x,
        0 <= y,
        1 <= w,
        x + w <= v.size.0,
        y + rows <= v.size.1,
        0 <= other < v.size.0,
        0 <= line < v.size.1,
    ensures
        frame_vertical(v, x, y, w, rows).wf(),
        frame_vertical(v, x, y, w, rows).size == v.size,
        frame_vertical(v, x, y, w, rows).attribute == v.attribute,
        frame_vertical(v, x, y, w, rows).cells[other + line * v.size.0] == if (other == x || other
            == x + w - 1) && y <= line < y + rows {
            CharInfo(BOX_VERTICAL_DOUBLE, v.attribute)
        } else {
            v.cells[other + line * v.size.0]
        },
    decreases rows,
{
    if rows > 0 {
        let earlier = frame_vertical(v, x, y, w, (rows - 1) as nat);
        lemma_frame_vertical_cell(v, x, y, w, (rows - 1) as nat, other, line);
        let left = put_at(earlier, x, y + rows - 1, BOX_VERTICAL_DOUBLE);
        lemma_put_at_cell(earlier, x, y + rows - 1, BOX_VERTICAL_DOUBLE, other, line);
        lemma_put_at_cell(left, x + w - 1, y + rows - 1, BOX_VERTICAL_DOUBLE, other, line);
    }
}

/// The picture of an opened window: where the rectangle has a cell and lies
/// within the grid, each of its cells holds what `opened_cell` says, in the
/// colours that the window was opened with.
pub proof fn lemma_window_opened_cell(
    v: ConsoleView,
    x: int,
    y: int,
    w: int,
    h: int,
    fgc: u16,
    bgc: u16,
    with_frame: bool,
    column: int,
    row: int,
)
    requires
        v.wf(),
        0 <= x,
        0 <= y,
        1 <= w,
        1 <= h,
        x + w <= v.size.0,
        y + h <= v.size.1,
        x <= column < x + w,
        y <= row < y + h,
    ensures
        0 <= column + row * v.size.0 < v.cells.len(),
        window_opened(v, x, y, w, h, fgc, bgc, with_frame).attribute == Attribute(
            foreground_bits(fgc) | background_bits(bgc),
        ),
        window_opened(v, x, y, w, h, fgc, bgc, with_frame).cells[column + row * v.size.0]
            == opened_cell(
            v.cells[column + row * v.size.0],
            Attribute(foreground_bits(fgc) | background_bits(bgc)),
            column - x,
            row - y,
            w,
            h,
            with_frame,
        ),
{
    let painted = ConsoleView {
        attribute: Attribute(foreground_bits(fgc) | background_bits(bgc)),
        ..v
    };
    lemma_grid_bounds(column, row, v.size.0 as int, v.size.1 as int);
    let filled = window_filled(painted, x, y, w, h);
    lemma_fill_rows_cell(painted, x, y, interior(w), interior(h), column, row);
    if with_frame {
        let edged = frame_horizontal(filled, x, y, h, w as nat);
        lemma_frame_horizontal_cell(filled, x, y, h, w as nat, column, row);
        let sided = frame_vertical(edged, x, y, w, h as nat);
        lemma_frame_vertical_cell(edged, x, y, w, h as nat, column, row);
        let first = put_at(sided, x, y, BOX_TOPLEFT_DOUBLE);
        lemma_put_at_cell(sided, x, y, BOX_TOPLEFT_DOUBLE, column, row);
        let second = put_at(first, x + w - 1, y, BOX_TOPRIGHT_DOUBLE);
        lemma_put_at_cell(first, x + w - 1, y, BOX_TOPRIGHT_DOUBLE, column, row);
        let third = put_at(second, x, y + h - 1, BOX_BOTLEFT_DOUBLE);
        lemma_put_at_cell(second, x, y + h - 1, BOX_BOTLEFT_DOUBLE, column, row);
        lemma_put_at_cell(third, x + w - 1, y + h - 1, BOX_BOTRIGHT_DOUBLE, column, row);
    }
}

/// A window gives back what it saved: where a rectangle of the grid was
/// saved and then only cells of that rectangle were changed, copying the
/// saved cells back gives the cells that the grid had before. The rectangle
/// lies within the grid.
pub proof fn lemma_window_round_trip(
    before: ConsoleView,
    held: Seq<CharInfo>,
    changed: ConsoleView,
    region: Rect,
)
    requires
        before.wf(),
        region_inside(before, region),
        held.len() == region.2 * region.3,
        changed_within(before, changed, region),
    ensures
        restore(
            snapshot(before.cells, before.size.0, before.size.1, held, region),
            changed.cells,
            before.size.0,
            region,
        ) == before.cells,
{
    lemma_snapshot_restores(
        before.cells,
        before.size.0,
        before.size.1,
        held,
        changed.cells,
        region,
    );
}

/// Opening a window on a rectangle that has a cell and lies within the grid,
/// and closing it at once, gives the cells that the grid had before.
pub proof fn lemma_open_close_restores(
    v: ConsoleView,
    x: int,
    y: int,
    w: int,
    h: int,
    fgc: u16,
    bgc: u16,
    with_frame: bool,
    held: Seq<CharInfo>,
)
    requires
        v.wf(),
        region_on_grid(x, y, w, h),
        1 <= w,
        1 <= h,
        x + w <= v.size.0,
        y + h <= v.size.1,
        held.len() == w * h,
    ensures
        restore(
            snapshot(
                v.cells,
                v.size.0,
                v.size.1,
                held,
                Rect(x as u16, y as u16, w as u16, h as u16),
            ),
            window_opened(v, x, y, w, h, fgc, bgc, with_frame).cells,
            v.size.0,
            Rect(x as u16, y as u16, w as u16, h as u16),
        ) == v.cells,
{
    lemma_window_opened_within(v, x, y, w, h, fgc, bgc, with_frame);
    lemma_window_round_trip(
        v,
        held,
        window_opened(v, x, y, w, h, fgc, bgc, with_frame),
        Rect(x as u16, y as u16, w as u16, h as u16),
    );
}

impl Rusted {
    /// The attribute made of the current colours.
    pub open spec fn colors(&self) -> Attribute {
        Attribute(self.foreground_color | self.background_color)
    }

    /// A console of 80 columns and 25 rows, white on black.
    pub fn new() -> (rusted: Self)
        ensures
            rusted.console.wf(),
            rusted.console@ == (ConsoleView {
                size: Coord(80, 25),
                cells: Seq::new(2000, |i: int| CharInfo::blank()),
                cursor: Coord(0, 0),
                attribute: Attribute(0x0007),
            }),
            rusted.background_color == 0,
            rusted.foreground_color == 0x0007,
    {
        assert(FOREGROUND_RED | FOREGROUND_GREEN | FOREGROUND_BLUE == 0x0007) by (bit_vector);
        Self {
            console: Console::new(80, 25),
            background_color: 0,
            foreground_color: FOREGROUND_RED | FOREGROUND_GREEN | FOREGROUND_BLUE,
        }
    }

    /// Clears the console to 80 columns and 25 rows of blank cells.
    pub fn screen80x25(&mut self)
        ensures
            final(self).console.wf(),
            final(self).console@ == old(self).console@.resized(Coord(80, 25)),
            final(self).background_color == old(self).background_color,
            final(self).foreground_color == old(self).foreground_color,
    {
        set_console_buffer_size(&mut self.console, Coord(80, 25));
    }

    /// Clears the console to 80 columns and 50 rows of blank cells.
    pub fn screen80x50(&mut self)
        ensures
            final(self).console.wf(),
            final(self).console@ == old(self).console@.resized(Coord(80, 50)),
            final(self).background_color == old(self).background_color,
            final(self).foreground_color == old(self).foreground_color,
    {
        set_console_buffer_size(&mut self.console, Coord(80, 50));
    }

    /// Sets the background colour from the low four bits of `color`.
    pub fn set_bgcolor(&mut self, color: u16)
        ensures
            final(self).background_color == background_bits(color),
            final(self).foreground_color == old(self).foreground_color,
            final(self).console == (Console {
                attribute: Attribute(old(self).foreground_color | background_bits(color)),
                ..old(self).console
            }),
    {
        let red: u16 = if color & 1 == 1 {
            BACKGROUND_RED
        } else {
            0
        };
        let green: u16 = if color & 2 == 2 {
            BACKGROUND_GREEN
        } else {
            0
        };
        let blue: u16 = if color & 4 == 4 {
            BACKGROUND_BLUE
        } else {
            0
        };
        let intensity: u16 = if color & 8 == 8 {
            BACKGROUND_INTENSITY
        } else {
            0
        };
        let value: u16 = red | green | blue | intensity;
        assert(value == (color & 0x000f) << 4) by (bit_vector)
            requires
                red == (if color & 1 == 1 { 0x0010u16 } else { 0u16 }),
                green == (if color & 2 == 2 { 0x0020u16 } else { 0u16 }),
                blue == (if color & 4 == 4 { 0x0040u16 } else { 0u16 }),
                intensity == (if color & 8 == 8 { 0x0080u16 } else { 0u16 }),
                value == red | green | blue | intensity,
        ;
        self.background_color = value;
        let attribute = Attribute(self.foreground_color | self.background_color);
        set_console_attribute(&mut self.console, attribute);
    }

    /// Sets the foreground colour from the low four bits of `color`.
    pub fn set_fgcolor(&mut self, color: u16)
        ensures
            final(self).foreground_color == foreground_bits(color),
            final(self).background_color == old(self).background_color,
            final(self).console == (Console {
                attribute: Attribute(foreground_bits(color) | old(self).background_color),
                ..old(self).console
            }),
    {
        let red: u16 = if color & 1 == 1 {
            FOREGROUND_RED
        } else {
            0
        };
        let green: u16 = if color & 2 == 2 {
            FOREGROUND_GREEN
        } else {
            0
        };
        let blue: u16 = if color & 4 == 4 {
            FOREGROUND_BLUE
        } else {
            0
        };
        let intensity: u16 = if color & 8 == 8 {
            FOREGROUND_INTENSITY
        } else {
            0
        };
        let value: u16 = red | green | blue | intensity;
        assert(value == color & 0x000f) by (bit_vector)
            requires
                red == (if color & 1 == 1 { 0x0001u16 } else { 0u16 }),
                green == (if color & 2 == 2 { 0x0002u16 } else { 0u16 }),
                blue == (if color & 4 == 4 { 0x0004u16 } else { 0u16 }),
                intensity == (if color & 8 == 8 { 0x0008u16 } else { 0u16 }),
                value == red | green | blue | intensity,
        ;
        self.foreground_color = value;
        let attribute = Attribute(self.foreground_color | self.background_color);
        set_console_attribute(&mut self.console, attribute);
    }

    /// Clears every cell to a space in the current colours and moves the
    /// cursor to the top-left corner.
    pub fn cls(&mut self)
        requires
            old(self).console.wf(),
            old(self).console.size.0 * old(self).console.size.1 <= u16::MAX,
        ensures
            final(self).console.wf(),
            final(self).console@ == (ConsoleView {
                cells: Seq::new(
                    old(self).console@.cells.len(),
                    |i: int| CharInfo(' ', old(self).colors()),
                ),
                cursor: Coord(0, 0),
                ..old(self).console@
            }),
            final(self).background_color == old(self).background_color,
            final(self).foreground_color == old(self).foreground_color,
    {
        let count: u16 = self.console.size.0 * self.console.size.1;
        let attribute = Attribute(self.foreground_color | self.background_color);
        fill_console_output_attribute(&mut self.console, count, attribute, Coord(0, 0));
        fill_console_output_character(&mut self.console, count, ' ', Coord(0, 0));
        set_console_cursor_position(&mut self.console, Coord(0, 0));
        assert(self.console@.cells =~= Seq::new(
            old(self).console@.cells.len(),
            |i: int| CharInfo(' ', old(self).colors()),
        ));
    }

    /// Moves the cursor to column `x` and row `y`, each taken as 16 bits.
    pub fn set_xy(&mut self, x: i32, y: i32)
        ensures
            *final(self) == (Rusted {
                console: Console { cursor: Coord(x as u16, y as u16), ..old(self).console },
                ..*old(self)
            }),
    {
        let position = Coord(#[verifier::truncate] (x as u16), #[verifier::truncate] (y as u16));
        set_console_cursor_position(&mut self.console, position);
    }

    /// Writes one character at column `x` and row `y`.
    pub fn outchar(&mut self, x: i32, y: i32, character: char)
        requires
            old(self).console.wf(),
        ensures
            final(self).console.wf(),
            final(self).console@ == put_at(old(self).console@, x as int, y as int, character),
            final(self).background_color == old(self).background_color,
            final(self).foreground_color == old(self).foreground_color,
    {
        let position = Coord(#[verifier::truncate] (x as u16), #[verifier::truncate] (y as u16));
        set_console_cursor_position(&mut self.console, position);
        let _ = write_character(&mut self.console, character);
    }

    /// Writes a text from column `x` and row `y` on.
    pub fn outchars(&mut self, x: i32, y: i32, text: &str)
        requires
            old(self).console.wf(),
        ensures
            final(self).console.wf(),
            final(self).console@ == (ConsoleView {
                cursor: Coord(x as u16, y as u16),
                ..old(self).console@
            }).put_text(text@),
            final(self).background_color == old(self).background_color,
            final(self).foreground_color == old(self).foreground_color,
    {
        let position = Coord(#[verifier::truncate] (x as u16), #[verifier::truncate] (y as u16));
        set_console_cursor_position(&mut self.console, position);
        write_console(&mut self.console, text);
    }
}

impl Rusted {
    /// Fills the inside of the rectangle with spaces in the current colours.
    fn draw_window_fill(&mut self, x: i32, y: i32, w: i32, h: i32)
        requires
            old(self).console.wf(),
            region_ok(x as int, y as int, w as int, h as int),
        ensures
            final(self).console.wf(),
            final(self).console@ == window_filled(
                old(self).console@,
                x as int,
                y as int,
                w as int,
                h as int,
            ),
            final(self).background_color == old(self).background_color,
            final(self).foreground_color == old(self).foreground_color,
    {
        let ghost before = self.console@;
        let mut cy: i32 = 1;
        while cy < h - 1
            invariant
                region_ok(x as int, y as int, w as int, h as int),
                1 <= cy,
                cy - 1 <= interior(h as int),
                self.console.wf(),
                self.console@ == fill_rows(
                    before,
                    x as int,
                    y as int,
                    interior(w as int),
                    (cy - 1) as nat,
                ),
                self.background_color == old(self).background_color,
                self.foreground_color == old(self).foreground_color,
            decreases h - cy,
        {
            let ghost above = self.console@;
            let mut cx: i32 = 1;
            while cx < w - 1
                invariant
                    region_ok(x as int, y as int, w as int, h as int),
                    1 <= cx,
                    1 <= cy < h - 1,
                    cx - 1 <= interior(w as int),
                    self.console.wf(),
                    self.console@ == fill_row(above, x as int, y + cy, (cx - 1) as nat),
                    self.background_color == old(self).background_color,
                    self.foreground_color == old(self).foreground_color,
                decreases w - cx,
            {
                self.outchar(x + cx, y + cy, ' ');
                cx = cx + 1;
            }
            cy = cy + 1;
        }
    }

    /// Draws a double-line frame on the border of the rectangle.
    fn draw_window_frame(&mut self, x: i32, y: i32, w: i32, h: i32)
        requires
            old(self).console.wf(),
            region_ok(x as int, y as int, w as int, h as int),
        ensures
            final(self).console.wf(),
            final(self).console@ == window_framed(
                old(self).console@,
                x as int,
                y as int,
                w as int,
                h as int,
            ),
            final(self).background_color == old(self).background_color,
            final(self).foreground_color == old(self).foreground_color,
    {
        let ghost before = self.console@;
        let mut cx: i32 = 0;
        while cx < w
            invariant
                region_ok(x as int, y as int, w as int, h as int),
                0 <= cx <= w,
                self.console.wf(),
                self.console@ == frame_horizontal(before, x as int, y as int, h as int, cx as nat),
                self.background_color == old(self).background_color,
                self.foreground_color == old(self).foreground_color,
            decreases w - cx,
        {
            self.outchar(x + cx, y, BOX_HORIZONTAL_DOUBLE);
            self.outchar(x + cx, y + h - 1, BOX_HORIZONTAL_DOUBLE);
            cx = cx + 1;
        }
        let ghost edged = self.console@;
        let mut cy: i32 = 0;
        while cy < h
            invariant
                region_ok(x as int, y as int, w as int, h as int),
                0 <= cy <= h,
                self.console.wf(),
                self.console@ == frame_vertical(edged, x as int, y as int, w as int, cy as nat),
                self.background_color == old(self).background_color,
                self.foreground_color == old(self).foreground_color,
            decreases h - cy,
        {
            self.outchar(x, y + cy, BOX_VERTICAL_DOUBLE);
            self.outchar(x + w - 1, y + cy, BOX_VERTICAL_DOUBLE);
            cy = cy + 1;
        }
        self.outchar(x, y, BOX_TOPLEFT_DOUBLE);
        self.outchar(x + w - 1, y, BOX_TOPRIGHT_DOUBLE);
        self.outchar(x, y + h - 1, BOX_BOTLEFT_DOUBLE);
        self.outchar(x + w - 1, y + h - 1, BOX_BOTRIGHT_DOUBLE);
    }

    /// Saves the cells of the rectangle `rect`, given as x, y, width and
    /// height, in a new window; then sets the colours, fills the inside of
    /// the rectangle with spaces and, if asked, draws a frame on its border.
    pub fn open_window(
        &mut self,
        rect: (i32, i32, i32, i32),
        fgc: u16,
        bgc: u16,
        with_frame: bool,
    ) -> (window: Window)
        requires
            old(self).console.wf(),
            region_ok(rect.0 as int, rect.1 as int, rect.2 as int, rect.3 as int),
        ensures
            window.wf(),
            window.data@ == seq![rect.0, rect.1, rect.2, rect.3],
            window.buffer@ == snapshot(
                old(self).console@.cells,
                old(self).console.size.0,
                old(self).console.size.1,
                Seq::new((rect.2 * rect.3) as nat, |i: int| CharInfo::blank()),
                window.region(),
            ),
            final(self).console.wf(),
            final(self).console@ == window_opened(
                old(self).console@,
                rect.0 as int,
                rect.1 as int,
                rect.2 as int,
                rect.3 as int,
                fgc,
                bgc,
                with_frame,
            ),
            final(self).foreground_color == foreground_bits(fgc),
            final(self).background_color == background_bits(bgc),
            0 <= rect.0 && 0 <= rect.1 && 1 <= rect.2 && 1 <= rect.3 && rect.0 + rect.2 <= old(
                self,
            ).console.size.0 && rect.1 + rect.3 <= u16::MAX ==> changed_within(old(self).console@, final(self).console@, window.region()),
    {
        let (x, y, w, h) = rect;
        proof {
            if 0 <= x && 0 <= y && 1 <= w && 1 <= h && x + w <= self.console.size.0 && y + h
                <= u16::MAX {
                lemma_window_opened_within(
                    self.console@,
                    x as int,
                    y as int,
                    w as int,
                    h as int,
                    fgc,
                    bgc,
                    with_frame,
                );
            }
        }
        assert(0 <= w * h <= 0xffff * 0xffff) by (nonlinear_arith)
            requires
                0 <= w <= 0xffff,
                0 <= h <= 0xffff,
        ;
        let mut window: Window = Window::new(x, y, w, h);
        let left: u16 = #[verifier::truncate] (x as u16);
        let top: u16 = #[verifier::truncate] (y as u16);
        let columns: u16 = w as u16;
        let rows: u16 = h as u16;
        util_copy_buffer(
            &self.console.buffer,
            self.console.size.0,
            self.console.size.1,
            &mut window.buffer,
            columns,
            Rect(left, top, columns, rows),
            Coord(0, 0),
        );
        self.set_bgcolor(bgc);
        self.set_fgcolor(fgc);
        self.draw_window_fill(x, y, w, h);
        if with_frame {
            self.draw_window_frame(x, y, w, h);
        }
        window
    }

    /// Copies the cells that the window saved back to its rectangle. The
    /// window is used up.
    pub fn close_window(&mut self, window: Window)
        ensures
            final(self).console@ == (ConsoleView {
                cells: restore(
                    window.buffer@,
                    old(self).console@.cells,
                    old(self).console.size.0,
                    window.region(),
                ),
                ..old(self).console@
            }),
            old(self).console.wf() ==> final(self).console.wf(),
            final(self).background_color == old(self).background_color,
            final(self).foreground_color == old(self).foreground_color,
    {
        let x: u16 = #[verifier::truncate] (window.data[0] as u16);
        let y: u16 = #[verifier::truncate] (window.data[1] as u16);
        let w: u16 = #[verifier::truncate] (window.data[2] as u16);
        let h: u16 = #[verifier::truncate] (window.data[3] as u16);
        write_console_output(
            &mut self.console,
            &window.buffer,
            Coord(w, h),
            Coord(x, y),
            Rect(0, 0, w, h),
        );
    }

    /// Draws a framed, filled rectangle with a caption inside its top-left
    /// corner.
    pub fn draw_button(&mut self, rect: (i32, i32, i32, i32), caption: &str, fgc: u16, bgc: u16)
        requires
            old(self).console.wf(),
            region_ok(rect.0 as int, rect.1 as int, rect.2 as int, rect.3 as int),
        ensures
            final(self).console.wf(),
            final(self).console@ == (ConsoleView {
                cursor: Coord((rect.0 + 2) as u16, (rect.1 + 1) as u16),
                ..window_opened(
                    old(self).console@,
                    rect.0 as int,
                    rect.1 as int,
                    rect.2 as int,
                    rect.3 as int,
                    fgc,
                    bgc,
                    true,
                )
            }).put_text(caption@),
            final(self).foreground_color == foreground_bits(fgc),
            final(self).background_color == background_bits(bgc),
    {
        let (x, y, w, h) = rect;
        self.set_bgcolor(bgc);
        self.set_fgcolor(fgc);
        self.draw_window_fill(x, y, w, h);
        self.draw_window_frame(x, y, w, h);
        self.outchars(x + 2, y + 1, caption);
    }
}

/// The low four bits of an attribute: the foreground colour.
pub open spec fn foreground_of(attribute: Attribute) -> u16 {
    attribute.0 & 0x000f
}

/// The four bits above them, moved down: the background colour.
pub open spec fn background_of(attribute: Attribute) -> u16 {
    (attribute.0 >> 4) & 0x000f
}

/// What a walk over the grid gives for the cell at place `i`: its column
/// and row, its character, and its background and foreground colour.
pub open spec fn cell_item(size: Coord, cells: Seq<CharInfo>, i: int) -> (Coord, char, (u16, u16)) {
    (
        Coord((i % (size.0 as int)) as u16, (i / (size.0 as int)) as u16),
        cells[i].0,
        (background_of(cells[i].1), foreground_of(cells[i].1)),
    )
}

/// A walk over the cells of a console in row-major order.
pub struct RustedIter<'a> {
    pub size: Coord,
    pub char_info: &'a [CharInfo],
    pub index: usize,
}

impl<'a> RustedIter<'a> {
    /// The walk is over a grid with one cell for each column of each row,
    /// and has not gone past its end.
    pub open spec fn wf(&self) -> bool {
        self.char_info@.len() == self.size.0 * self.size.1 && self.index <= self.char_info@.len()
    }

    /// The next cell of the walk, or `None` once every cell was given.
    pub fn next(&mut self) -> (item: Option<(Coord, char, (u16, u16))>)
        requires
            old(self).wf(),
        ensures
            final(self).wf(),
            final(self).size == old(self).size,
            final(self).char_info@ == old(self).char_info@,
            old(self).index < old(self).char_info@.len() ==> item == Some(
                cell_item(old(self).size, old(self).char_info@, old(self).index as int),
            ) && final(self).index == old(self).index + 1,
            old(self).index >= old(self).char_info@.len() ==> item.is_none() && final(self).index
                == old(self).index,
    {
        if self.index >= self.char_info.len() {
            return None;
        }
        let current: CharInfo = self.char_info[self.index];
        let width: usize = self.size.0 as usize;
        proof {
            let i = self.index as int;
            let w = self.size.0 as int;
            let h = self.size.1 as int;
            assert(w > 0) by (nonlinear_arith)
                requires
                    0 <= i < w * h,
                    0 <= w,
            ;
            vstd::arithmetic::div_mod::lemma_multiply_divide_lt(i, w, h);
            vstd::arithmetic::div_mod::lemma_mod_pos_bound(i, w);
            vstd::arithmetic::div_mod::lemma_div_pos_is_pos(i, w);
        }
        let column: u16 = (self.index % width) as u16;
        let row: u16 = (self.index / width) as u16;
        let bits: u16 = current.1.0;
        let red: u16 = if bits & FOREGROUND_RED == FOREGROUND_RED {
            FOREGROUND_RED
        } else {
            0
        };
        let green: u16 = if bits & FOREGROUND_GREEN == FOREGROUND_GREEN {
            FOREGROUND_GREEN
        } else {
            0
        };
        let blue: u16 = if bits & FOREGROUND_BLUE == FOREGROUND_BLUE {
            FOREGROUND_BLUE
        } else {
            0
        };
        let intensity: u16 = if bits & FOREGROUND_INTENSITY == FOREGROUND_INTENSITY {
            FOREGROUND_INTENSITY
        } else {
            0
        };
        let foreground_color: u16 = red | green | blue | intensity;
        assert(foreground_color == bits & 0x000f) by (bit_vector)
            requires
                red == (if bits & 1 == 1 { 1u16 } else { 0u16 }),
                green == (if bits & 2 == 2 { 2u16 } else { 0u16 }),
                blue == (if bits & 4 == 4 { 4u16 } else { 0u16 }),
                intensity == (if bits & 8 == 8 { 8u16 } else { 0u16 }),
                foreground_color == red | green | blue | intensity,
        ;
        let back_red: u16 = if bits & BACKGROUND_RED == BACKGROUND_RED {
            FOREGROUND_RED
        } else {
            0
        };
        let back_green: u16 = if bits & BACKGROUND_GREEN == BACKGROUND_GREEN {
            FOREGROUND_GREEN
        } else {
            0
        };
        let back_blue: u16 = if bits & BACKGROUND_BLUE == BACKGROUND_BLUE {
            FOREGROUND_BLUE
        } else {
            0
        };
        let back_intensity: u16 = if bits & BACKGROUND_INTENSITY == BACKGROUND_INTENSITY {
            FOREGROUND_INTENSITY
        } else {
            0
        };
        let background_color: u16 = back_red | back_green | back_blue | back_intensity;
        assert(background_color == (bits >> 4) & 0x000f) by (bit_vector)
            requires
                back_red == (if bits & 0x10 == 0x10 { 1u16 } else { 0u16 }),
                back_green == (if bits & 0x20 == 0x20 { 2u16 } else { 0u16 }),
                back_blue == (if bits & 0x40 == 0x40 { 4u16 } else { 0u16 }),
                back_intensity == (if bits & 0x80 == 0x80 { 8u16 } else { 0u16 }),
                background_color == back_red | back_green | back_blue | back_intensity,
        ;
        self.index = self.index + 1;
        Some((Coord(column, row), current.0, (background_color, foreground_color)))
    }
}

impl Rusted {
    /// A walk over the cells of the console from its first cell on.
    pub fn iter(&self) -> (cells: RustedIter<'_>)
        ensures
            cells.size == self.console.size,
            cells.char_info@ == self.console.buffer@,
            cells.index == 0,
            self.console.wf() ==> cells.wf(),
    {
        RustedIter { size: self.console.size, char_info: self.console.buffer.as_slice(), index: 0 }
    }
}

impl Default for Rusted {
    fn default() -> (rusted: Self)
        ensures
            rusted.console.wf(),
            rusted.console@ == (ConsoleView {
                size: Coord(80, 25),
                cells: Seq::new(2000, |i: int| CharInfo::blank()),
                cursor: Coord(0, 0),
                attribute: Attribute(0x0007),
            }),
            rusted.background_color == 0,
            rusted.foreground_color == 0x0007,
    {
        Self::new()
    }
}

} // verus!
