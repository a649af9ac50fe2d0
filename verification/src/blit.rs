use crate::console::{Coord, Rect};
use vstd::prelude::*;

verus! {

/// The place in the source grid of the cell `column` columns right of and
/// `row` rows below the corner of `src`, a rectangle in extent form.
pub open spec fn source_index(source_width: int, src: Rect, row: int, column: int) -> int {
    (src.0 + column) + (src.1 + row) * source_width
}

/// The place in the target grid of the cell `column` columns right of and
/// `row` rows below `dst`.
pub open spec fn target_index(target_width: int, dst: Coord, row: int, column: int) -> int {
    (dst.0 + column) + (dst.1 + row) * target_width
}

/// The target after one cell was copied; a cell whose place lies beyond the
/// end of either grid is left out.
pub open spec fn blit_cell<T>(
    source: Seq<T>,
    source_width: int,
    target: Seq<T>,
    target_width: int,
    src: Rect,
    dst: Coord,
    row: int,
    column: int,
) -> Seq<T> {
    let from = source_index(source_width, src, row, column);
    let to = target_index(target_width, dst, row, column);
    if 0 <= from < source.len() && 0 <= to < target.len() {
        target.update(to, source[from])
    } else {
        target
    }
}

/// The target after the first `columns` cells of one row were copied, from
/// left to right.
pub open spec fn blit_row<T>(
    source: Seq<T>,
    source_width: int,
    target: Seq<T>,
    target_width: int,
    src: Rect,
    dst: Coord,
    row: int,
    columns: nat,
) -> Seq<T>
    decreases columns,
{
    if columns == 0 {
        target
    } else {
        blit_cell(
            source,
            source_width,
            blit_row(
                source,
                source_width,
                target,
                target_width,
                src,
                dst,
                row,
                (columns - 1) as nat,
            ),
            target_width,
            src,
            dst,
            row,
            columns - 1,
        )
    }
}

/// The target after the first `rows` rows, each of `columns` cells, were
/// copied from top to bottom.
pub open spec fn blit_rows<T>(
    source: Seq<T>,
    source_width: int,
    target: Seq<T>,
    target_width: int,
    src: Rect,
    dst: Coord,
    columns: nat,
    rows: nat,
) -> Seq<T>
    decreases rows,
{
    if rows == 0 {
        target
    } else {
        blit_row(
            source,
            source_width,
            blit_rows(
                source,
                source_width,
                target,
                target_width,
                src,
                dst,
                columns,
                (rows - 1) as nat,
            ),
            target_width,
            src,
            dst,
            rows - 1,
            columns,
        )
    }
}

/// The number of columns or rows that are copied: what was asked for, but no
/// more than the source grid has.
pub open spec fn clipped(asked: u16, available: u16) -> nat {
    if asked <= available {
        asked as nat
    } else {
        available as nat
    }
}

/// The target grid after the rectangle `src` (in extent form) of the source
/// grid was copied to `dst`. The width and height of the rectangle are cut
/// down to those of the source grid; the cells are copied row by row, and one
/// whose place lies beyond the end of either grid is left out.
pub open spec fn blit<T>(
    source: Seq<T>,
    source_width: u16,
    source_height: u16,
    target: Seq<T>,
    target_width: u16,
    src: Rect,
    dst: Coord,
) -> Seq<T> {
    blit_rows(
        source,
        source_width as int,
        target,
        target_width as int,
        src,
        dst,
        clipped(src.2, source_width),
        clipped(src.3, source_height),
    )
}

/// Copying part of a row keeps the target's length.
pub proof fn lemma_blit_row_len<T>(
    source: Seq<T>,
    source_width: int,
    target: Seq<T>,
    target_width: int,
    src: Rect,
    dst: Coord,
    row: int,
    columns: nat,
)
    ensures
        blit_row(source, source_width, target, target_width, src, dst, row, columns).len()
            == target.len(),
    decreases columns,
{
    if columns > 0 {
        lemma_blit_row_len(
            source,
            source_width,
            target,
            target_width,
            src,
            dst,
            row,
            (columns - 1) as nat,
        );
    }
}

/// Copying rows keeps the target's length.
pub proof fn lemma_blit_rows_len<T>(
    source: Seq<T>,
    source_width: int,
    target: Seq<T>,
    target_width: int,
    src: Rect,
    dst: Coord,
    columns: nat,
    rows: nat,
)
    ensures
        blit_rows(source, source_width, target, target_width, src, dst, columns, rows).len()
            == target.len(),
    decreases rows,
{
    if rows > 0 {
        lemma_blit_rows_len(
            source,
            source_width,
            target,
            target_width,
            src,
            dst,
            columns,
            (rows - 1) as nat,
        );
        lemma_blit_row_len(
            source,
            source_width,
            blit_rows(
                source,
                source_width,
                target,
                target_width,
                src,
                dst,
                columns,
                (rows - 1) as nat,
            ),
            target_width,
            src,
            dst,
            rows - 1,
            columns,
        );
    }
}

/// Once a cell of a row lies beyond the end of either grid, so do the cells
/// to its right: the rest of the row changes nothing.
pub proof fn lemma_blit_row_stops<T>(
    source: Seq<T>,
    source_width: int,
    target: Seq<T>,
    target_width: int,
    src: Rect,
    dst: Coord,
    row: int,
    done: nat,
    columns: nat,
)
    requires
        done <= columns,
        source_index(source_width, src, row, done as int) >= source.len() || target_index(
            target_width,
            dst,
            row,
            done as int,
        ) >= target.len(),
    ensures
        blit_row(source, source_width, target, target_width, src, dst, row, columns) == blit_row(
            source,
            source_width,
            target,
            target_width,
            src,
            dst,
            row,
            done,
        ),
    decreases columns,
{
    if columns > done {
        let fewer = (columns - 1) as nat;
        lemma_blit_row_stops(source, source_width, target, target_width, src, dst, row, done, fewer);
        lemma_blit_row_len(source, source_width, target, target_width, src, dst, row, done);
    }
}

/// The place `(x + dx) + (y + dy) * width`, which fits in 64 bits.
fn offset_index(x: u16, dx: u16, y: u16, dy: u16, width: u16) -> (index: u64)
    ensures
        index == (x + dx) + (y + dy) * width,
{
    assert(0 <= (y + dy) * width <= 0x1fffe * 0xffff) by (nonlinear_arith)
        requires
            0 <= y + dy <= 0x1fffe,
            0 <= width <= 0xffff,
    ;
    (x as u64 + dx as u64) + (y as u64 + dy as u64) * (width as u64)
}

/// Copies the rectangle `src`, given in extent form, of the source grid to
/// `dst` in the target grid. Both grids are row-major; the rectangle is cut
/// down to the source grid's width and height, and a cell whose place lies
/// beyond the end of either grid ends its row.
pub fn util_copy_buffer<T: Copy>(
    source: &Vec<T>,
    source_width: u16,
    source_height: u16,
    target: &mut Vec<T>,
    target_width: u16,
    src: Rect,
    dst: Coord,
)
    ensures
        final(target)@ == blit(
            source@,
            source_width,
            source_height,
            old(target)@,
            target_width,
            src,
            dst,
        ),
        final(target)@.len() == old(target)@.len(),
{
    let ghost before = target@;
    let copy_width: u16 = if src.2 <= source_width {
        src.2
    } else {
        source_width
    };
    let copy_height: u16 = if src.3 <= source_height {
        src.3
    } else {
        source_height
    };
    let mut row: u16 = 0;
    while row < copy_height
        invariant
            row <= copy_height,
            target@ == blit_rows(
                source@,
                source_width as int,
                before,
                target_width as int,
                src,
                dst,
                copy_width as nat,
                row as nat,
            ),
        decreases copy_height - row,
    {
        let ghost above = target@;
        let mut column: u16 = 0;
        while column < copy_width
            invariant
                column <= copy_width,
                target@ == blit_row(
                    source@,
                    source_width as int,
                    above,
                    target_width as int,
                    src,
                    dst,
                    row as int,
                    column as nat,
                ),
            ensures
                target@ == blit_row(
                    source@,
                    source_width as int,
                    above,
                    target_width as int,
                    src,
                    dst,
                    row as int,
                    copy_width as nat,
                ),
            decreases copy_width - column,
        {
            proof {
                lemma_blit_row_len(
                    source@,
                    source_width as int,
                    above,
                    target_width as int,
                    src,
                    dst,
                    row as int,
                    column as nat,
                );
            }
            let from: u64 = offset_index(src.0, column, src.1, row, source_width);
            let to: u64 = offset_index(dst.0, column, dst.1, row, target_width);
            if from >= source.len() as u64 || to >= target.len() as u64 {
                proof {
                    lemma_blit_row_stops(
                        source@,
                        source_width as int,
                        above,
                        target_width as int,
                        src,
                        dst,
                        row as int,
                        column as nat,
                        copy_width as nat,
                    );
                }
                break ;
            }
            let cell: T = source[from as usize];
            target.set(to as usize, cell);
            column = column + 1;
        }
        row = row + 1;
    }
    proof {
        lemma_blit_rows_len(
            source@,
            source_width as int,
            before,
            target_width as int,
            src,
            dst,
            copy_width as nat,
            copy_height as nat,
        );
    }
}

} // verus!
