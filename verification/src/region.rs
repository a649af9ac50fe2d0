use crate::blit::{
    blit, blit_row, blit_rows, clipped, lemma_blit_row_len, lemma_blit_rows_len, source_index,
    target_index,
};
use crate::console::{Coord, Rect};
use vstd::arithmetic::div_mod::{lemma_fundamental_div_mod, lemma_fundamental_div_mod_converse};
use vstd::prelude::*;

verus! {

/// Whether the cell at place `k` of a row-major grid `width` cells wide lies in
/// the rectangle of `columns` by `rows` cells whose corner is `at`.
pub open spec fn in_region(k: int, width: int, at: Coord, columns: int, rows: int) -> bool {
    width > 0 && at.0 <= k % width < at.0 + columns && at.1 <= k / width < at.1 + rows
}

/// The target grid in which each cell of the rectangle of `columns` by `rows`
/// cells at `dst` holds the cell at the same place of the rectangle `src` of
/// the source grid, and every other cell is kept.
pub open spec fn region_copied<T>(
    source: Seq<T>,
    source_width: int,
    target: Seq<T>,
    target_width: int,
    src: Rect,
    dst: Coord,
    columns: int,
    rows: int,
) -> Seq<T> {
    Seq::new(
        target.len(),
        |k: int|
            if in_region(k, target_width, dst, columns, rows) {
                source[source_index(
                    source_width,
                    src,
                    k / target_width - dst.1,
                    k % target_width - dst.0,
                )]
            } else {
                target[k]
            },
    )
}

/// A place in a row-major grid is that of one column and one row.
pub proof fn lemma_grid_place(k: int, width: int, column: int, row: int)
    requires
        0 <= column < width,
    ensures
        (k == column + row * width) <==> (k % width == column && k / width == row),
{
    lemma_fundamental_div_mod(k, width);
    assert(width * (k / width) == (k / width) * width) by (nonlinear_arith);
    if k == column + row * width {
        lemma_fundamental_div_mod_converse(k, width, row, column);
    }
}

/// The places of the cells of a grid of `width` by `height` cells are those
/// below `width * height`.
pub proof fn lemma_grid_bounds(column: int, row: int, width: int, height: int)
    requires
        0 <= column < width,
        0 <= row < height,
    ensures
        0 <= column + row * width < width * height,
        row * width + width <= width * height,
{
    assert(0 <= row * width && row * width + width <= width * height) by (nonlinear_arith)
        requires
            0 <= row < height,
            0 < width,
    ;
}

/// The target grid in which the first `columns` cells of one row of the
/// rectangle at `dst` hold the cells of the same row of `src`.
pub open spec fn row_copied<T>(
    source: Seq<T>,
    source_width: int,
    target: Seq<T>,
    target_width: int,
    src: Rect,
    dst: Coord,
    row: int,
    columns: int,
) -> Seq<T> {
    Seq::new(
        target.len(),
        |k: int|
            if in_region(k, target_width, dst, columns, row + 1) && k / target_width == dst.1
                + row {
                source[source_index(source_width, src, row, k % target_width - dst.0)]
            } else {
                target[k]
            },
    )
}

/// A row that lies within both grids is copied cell for cell.
pub proof fn lemma_blit_row_within<T>(
    source: Seq<T>,
    source_width: int,
    target: Seq<T>,
    target_width: int,
    src: Rect,
    dst: Coord,
    row: int,
    columns: nat,
)
    requires
        0 <= row,
        0 <= source_width,
        src.0 + columns <= source_width,
        (src.1 + row) * source_width + source_width <= source.len(),
        dst.0 + columns <= target_width,
        (dst.1 + row) * target_width + target_width <= target.len(),
    ensures
        blit_row(source, source_width, target, target_width, src, dst, row, columns) == row_copied(
            source,
            source_width,
            target,
            target_width,
            src,
            dst,
            row,
            columns as int,
        ),
    decreases columns,
{
    let done = blit_row(source, source_width, target, target_width, src, dst, row, columns);
    let stated = row_copied(
        source,
        source_width,
        target,
        target_width,
        src,
        dst,
        row,
        columns as int,
    );
    if columns == 0 {
        assert(done =~= stated);
    } else {
        let fewer = (columns - 1) as nat;
        lemma_blit_row_within(source, source_width, target, target_width, src, dst, row, fewer);
        let earlier = blit_row(source, source_width, target, target_width, src, dst, row, fewer);
        let from = source_index(source_width, src, row, fewer as int);
        let to = target_index(target_width, dst, row, fewer as int);
        assert(0 <= (src.1 + row) * source_width && 0 <= (dst.1 + row) * target_width)
            by (nonlinear_arith)
            requires
                0 <= src.1 + row,
                0 <= source_width,
                0 <= dst.1 + row,
                0 <= target_width,
        ;
        assert(0 <= from < source.len());
        assert(0 <= to < target.len());
        assert(done == earlier.update(to, source[from]));
        assert forall|k: int| 0 <= k < target.len() implies done[k] == stated[k] by {
            lemma_grid_place(k, target_width, dst.0 + fewer, dst.1 + row);
        }
        assert(done =~= stated);
    }
}

/// A rectangle that lies within both grids is copied cell for cell, and the
/// rest of the target is kept.
pub proof fn lemma_blit_rows_within<T>(
    source: Seq<T>,
    source_width: int,
    source_height: int,
    target: Seq<T>,
    target_width: int,
    src: Rect,
    dst: Coord,
    columns: nat,
    rows: nat,
)
    requires
        0 <= source_width,
        source.len() == source_width * source_height,
        src.0 + columns <= source_width,
        src.1 + rows <= source_height,
        dst.0 + columns <= target_width,
        (dst.1 + rows) * target_width <= target.len(),
    ensures
        blit_rows(source, source_width, target, target_width, src, dst, columns, rows)
            == region_copied(
            source,
            source_width,
            target,
            target_width,
            src,
            dst,
            columns as int,
            rows as int,
        ),
    decreases rows,
{
    let done = blit_rows(source, source_width, target, target_width, src, dst, columns, rows);
    let stated = region_copied(
        source,
        source_width,
        target,
        target_width,
        src,
        dst,
        columns as int,
        rows as int,
    );
    if rows == 0 {
        assert(done =~= stated);
    } else {
        let fewer = (rows - 1) as nat;
        assert((dst.1 + fewer) * target_width + target_width == (dst.1 + rows) * target_width)
            by (nonlinear_arith)
            requires
                fewer + 1 == rows,
        ;
        assert(0 <= target_width * 1 <= (dst.1 + rows) * target_width) by (nonlinear_arith)
            requires
                0 <= target_width,
                1 <= dst.1 + rows,
        ;
        assert((src.1 + fewer) * source_width + source_width <= source_width * source_height)
            by (nonlinear_arith)
            requires
                0 <= source_width,
                src.1 + fewer + 1 <= source_height,
        ;
        lemma_blit_rows_within(
            source,
            source_width,
            source_height,
            target,
            target_width,
            src,
            dst,
            columns,
            fewer,
        );
        let above = blit_rows(
            source,
            source_width,
            target,
            target_width,
            src,
            dst,
            columns,
            fewer,
        );
        lemma_blit_row_within(
            source,
            source_width,
            above,
            target_width,
            src,
            dst,
            fewer as int,
            columns,
        );
        assert(done =~= stated);
    }
}

/// What `blit` gives where the rectangle lies within the source grid and the
/// place it is copied to lies within the target grid: the cells of the
/// rectangle, each at its place, and the rest of the target as it was.
pub proof fn lemma_blit_within<T>(
    source: Seq<T>,
    source_width: u16,
    source_height: u16,
    target: Seq<T>,
    target_width: u16,
    src: Rect,
    dst: Coord,
)
    requires
        source.len() == source_width * source_height,
        src.0 + src.2 <= source_width,
        src.1 + src.3 <= source_height,
        dst.0 + src.2 <= target_width,
        (dst.1 + src.3) * target_width <= target.len(),
    ensures
        blit(source, source_width, source_height, target, target_width, src, dst)
            == region_copied(
            source,
            source_width as int,
            target,
            target_width as int,
            src,
            dst,
            src.2 as int,
            src.3 as int,
        ),
{
    lemma_blit_rows_within(
        source,
        source_width as int,
        source_height as int,
        target,
        target_width as int,
        src,
        dst,
        src.2 as nat,
        src.3 as nat,
    );
}

/// A cell of the target that is not the place of any of the first `columns`
/// cells of a row is kept when that row is copied.
pub proof fn lemma_blit_row_keeps<T>(
    source: Seq<T>,
    source_width: int,
    target: Seq<T>,
    target_width: int,
    src: Rect,
    dst: Coord,
    row: int,
    columns: nat,
    k: int,
)
    requires
        0 <= k < target.len(),
        forall|column: int|
            0 <= column < columns ==> k != #[trigger] target_index(target_width, dst, row, column),
    ensures
        blit_row(source, source_width, target, target_width, src, dst, row, columns)[k]
            == target[k],
    decreases columns,
{
    if columns > 0 {
        let fewer = (columns - 1) as nat;
        lemma_blit_row_keeps(source, source_width, target, target_width, src, dst, row, fewer, k);
        lemma_blit_row_len(source, source_width, target, target_width, src, dst, row, fewer);
        assert(k != target_index(target_width, dst, row, fewer as int));
    }
}

/// A cell of the target that is not the place of any cell of the rectangle is
/// kept when the rectangle is copied.
pub proof fn lemma_blit_rows_keeps<T>(
    source: Seq<T>,
    source_width: int,
    target: Seq<T>,
    target_width: int,
    src: Rect,
    dst: Coord,
    columns: nat,
    rows: nat,
    k: int,
)
    requires
        0 <= k < target.len(),
        forall|row: int, column: int|
            0 <= row < rows && 0 <= column < columns ==> k != #[trigger] target_index(
                target_width,
                dst,
                row,
                column,
            ),
    ensures
        blit_rows(source, source_width, target, target_width, src, dst, columns, rows)[k]
            == target[k],
    decreases rows,
{
    if rows > 0 {
        let fewer = (rows - 1) as nat;
        lemma_blit_rows_keeps(
            source,
            source_width,
            target,
            target_width,
            src,
            dst,
            columns,
            fewer,
            k,
        );
        let above = blit_rows(
            source,
            source_width,
            target,
            target_width,
            src,
            dst,
            columns,
            fewer,
        );
        lemma_blit_rows_len(source, source_width, target, target_width, src, dst, columns, fewer);
        lemma_blit_row_keeps(
            source,
            source_width,
            above,
            target_width,
            src,
            dst,
            fewer as int,
            columns,
            k,
        );
    }
}

/// Whether `k` is the place in the target of a cell of the rectangle of
/// `columns` by `rows` cells that is copied to `dst`.
pub open spec fn copied_to(target_width: int, dst: Coord, columns: nat, rows: nat, k: int) -> bool {
    exists|row: int, column: int|
        0 <= row < rows && 0 <= column < columns && k == #[trigger] target_index(
            target_width,
            dst,
            row,
            column,
        )
}

/// A copy is cut down to the source grid: it keeps the length of the target,
/// it is the copy of the rectangle with its width and height cut down to
/// those of the source grid, and it keeps every cell of the target that is
/// not the place of a cell of that smaller rectangle.
pub proof fn lemma_blit_clipped<T>(
    source: Seq<T>,
    source_width: u16,
    source_height: u16,
    target: Seq<T>,
    target_width: u16,
    src: Rect,
    dst: Coord,
)
    ensures
        blit(source, source_width, source_height, target, target_width, src, dst).len()
            == target.len(),
        blit(source, source_width, source_height, target, target_width, src, dst) == blit(
            source,
            source_width,
            source_height,
            target,
            target_width,
            Rect(
                src.0,
                src.1,
                clipped(src.2, source_width) as u16,
                clipped(src.3, source_height) as u16,
            ),
            dst,
        ),
        forall|k: int|
            0 <= k < target.len() && !copied_to(
                target_width as int,
                dst,
                clipped(src.2, source_width),
                clipped(src.3, source_height),
                k,
            ) ==> #[trigger] blit(
                source,
                source_width,
                source_height,
                target,
                target_width,
                src,
                dst,
            )[k] == target[k],
{
    let columns = clipped(src.2, source_width);
    let rows = clipped(src.3, source_height);
    let cut = Rect(src.0, src.1, columns as u16, rows as u16);
    lemma_blit_rows_len(
        source,
        source_width as int,
        target,
        target_width as int,
        src,
        dst,
        columns,
        rows,
    );
    lemma_blit_rows_same_corner(
        source,
        source_width as int,
        target,
        target_width as int,
        src,
        cut,
        dst,
        columns,
        rows,
    );
    assert forall|k: int|
        0 <= k < target.len() && !copied_to(
            target_width as int,
            dst,
            columns,
            rows,
            k,
        ) implies #[trigger] blit(
        source,
        source_width,
        source_height,
        target,
        target_width,
        src,
        dst,
    )[k] == target[k] by {
        lemma_blit_rows_keeps(
            source,
            source_width as int,
            target,
            target_width as int,
            src,
            dst,
            columns,
            rows,
            k,
        );
    }
}

/// The cells that are copied depend on the corner of the rectangle, not on
/// the width and height that it is written with.
pub proof fn lemma_blit_row_same_corner<T>(
    source: Seq<T>,
    source_width: int,
    target: Seq<T>,
    target_width: int,
    src: Rect,
    other: Rect,
    dst: Coord,
    row: int,
    columns: nat,
)
    requires
        src.0 == other.0,
        src.1 == other.1,
    ensures
        blit_row(source, source_width, target, target_width, src, dst, row, columns) == blit_row(
            source,
            source_width,
            target,
            target_width,
            other,
            dst,
            row,
            columns,
        ),
    decreases columns,
{
    if columns > 0 {
        lemma_blit_row_same_corner(
            source,
            source_width,
            target,
            target_width,
            src,
            other,
            dst,
            row,
            (columns - 1) as nat,
        );
    }
}

/// The cells that are copied depend on the corner of the rectangle, not on
/// the width and height that it is written with.
pub proof fn lemma_blit_rows_same_corner<T>(
    source: Seq<T>,
    source_width: int,
    target: Seq<T>,
    target_width: int,
    src: Rect,
    other: Rect,
    dst: Coord,
    columns: nat,
    rows: nat,
)
    requires
        src.0 == other.0,
        src.1 == other.1,
    ensures
        blit_rows(source, source_width, target, target_width, src, dst, columns, rows)
            == blit_rows(source, source_width, target, target_width, other, dst, columns, rows),
    decreases rows,
{
    if rows > 0 {
        let fewer = (rows - 1) as nat;
        lemma_blit_rows_same_corner(
            source,
            source_width,
            target,
            target_width,
            src,
            other,
            dst,
            columns,
            fewer,
        );
        lemma_blit_row_same_corner(
            source,
            source_width,
            blit_rows(source, source_width, target, target_width, src, dst, columns, fewer),
            target_width,
            src,
            other,
            dst,
            fewer as int,
            columns,
        );
    }
}

/// The grid `fresh` in which the cells of the rectangle hold what `first`
/// holds there.
pub open spec fn region_taken_from<T>(first: Seq<T>, fresh: Seq<T>, width: u16, region: Rect) -> Seq<
    T,
> {
    Seq::new(
        fresh.len(),
        |k: int|
            if in_region(
                k,
                width as int,
                Coord(region.0, region.1),
                region.2 as int,
                region.3 as int,
            ) {
                first[k]
            } else {
                fresh[k]
            },
    )
}

/// The cells of the rectangle `region` (in extent form) of the grid `first`,
/// copied into a buffer of the rectangle's size.
pub open spec fn snapshot<T>(first: Seq<T>, width: u16, height: u16, held: Seq<T>, region: Rect)
    -> Seq<T> {
    blit(first, width, height, held, region.2, region, Coord(0, 0))
}

/// The grid `onto` after a buffer of the size of `region` was copied back to
/// the rectangle's place.
pub open spec fn restore<T>(saved: Seq<T>, onto: Seq<T>, width: u16, region: Rect) -> Seq<T> {
    blit(
        saved,
        region.2,
        region.3,
        onto,
        width,
        Rect(0, 0, region.2, region.3),
        Coord(region.0, region.1),
    )
}

/// Copying a rectangle of a grid into a buffer of the rectangle's size, and
/// that buffer to the same place of a second grid of the same size, gives the
/// second grid the cells of the first in the rectangle and changes nothing
/// else. The rectangle lies within the grid.
pub proof fn lemma_blit_round_trip<T>(
    first: Seq<T>,
    width: u16,
    height: u16,
    held: Seq<T>,
    fresh: Seq<T>,
    region: Rect,
)
    requires
        first.len() == width * height,
        fresh.len() == first.len(),
        held.len() == region.2 * region.3,
        region.0 + region.2 <= width,
        region.1 + region.3 <= height,
    ensures
        restore(snapshot(first, width, height, held, region), fresh, width, region)
            == region_taken_from(first, fresh, width, region),
{
    let at = Coord(region.0, region.1);
    let whole = Rect(0, 0, region.2, region.3);
    let w = region.2 as int;
    let h = region.3 as int;
    let saved = snapshot(first, width, height, held, region);
    assert((0 + region.3) * region.2 == region.2 * region.3) by (nonlinear_arith);
    lemma_blit_within(first, width, height, held, region.2, region, Coord(0, 0));
    assert((region.1 + region.3) * width <= width * height) by (nonlinear_arith)
        requires
            0 <= region.1 + region.3 <= height,
            0 <= width,
    ;
    lemma_blit_within(saved, region.2, region.3, fresh, width, whole, at);
    let restored = restore(saved, fresh, width, region);
    let stated = region_taken_from(first, fresh, width, region);
    assert forall|k: int| 0 <= k < fresh.len() implies restored[k] == stated[k] by {
        if in_region(k, width as int, at, w, h) {
            let column = k % (width as int) - region.0;
            let row = k / (width as int) - region.1;
            let j = column + row * w;
            lemma_grid_bounds(column, row, w, h);
            lemma_grid_place(j, w, column, row);
            lemma_fundamental_div_mod(k, width as int);
            assert((width as int) * (k / (width as int)) == (k / (width as int)) * (width as int))
                by (nonlinear_arith);
            assert(restored[k] == saved[j]);
            assert(in_region(j, w, Coord(0, 0), w, h));
            assert(saved[j] == first[source_index(width as int, region, row, column)]);
        }
    }
    assert(restored =~= stated);
}

/// After part of a row was copied, the place of a cell of that part that lies
/// within both grids holds that cell.
pub proof fn lemma_blit_row_last<T>(
    source: Seq<T>,
    source_width: int,
    target: Seq<T>,
    target_width: int,
    src: Rect,
    dst: Coord,
    row: int,
    columns: nat,
    column: int,
)
    requires
        0 <= column < columns,
        0 <= target_index(target_width, dst, row, column) < target.len(),
        0 <= source_index(source_width, src, row, column) < source.len(),
    ensures
        blit_row(source, source_width, target, target_width, src, dst, row, columns)[target_index(
            target_width,
            dst,
            row,
            column,
        )] == source[source_index(source_width, src, row, column)],
    decreases columns,
{
    let fewer = (columns - 1) as nat;
    lemma_blit_row_len(source, source_width, target, target_width, src, dst, row, fewer);
    if fewer > column {
        lemma_blit_row_last(
            source,
            source_width,
            target,
            target_width,
            src,
            dst,
            row,
            fewer,
            column,
        );
    }
}

/// After a rectangle was copied, the place of one of its cells that lies
/// within both grids holds that cell, unless a cell of a later row has the
/// same place.
pub proof fn lemma_blit_rows_last<T>(
    source: Seq<T>,
    source_width: int,
    target: Seq<T>,
    target_width: int,
    src: Rect,
    dst: Coord,
    columns: nat,
    rows: nat,
    row: int,
    column: int,
)
    requires
        0 <= row < rows,
        0 <= column < columns,
        0 <= target_index(target_width, dst, row, column) < target.len(),
        0 <= source_index(source_width, src, row, column) < source.len(),
        forall|later: int, other: int|
            row < later < rows && 0 <= other < columns ==> target_index(
                target_width,
                dst,
                row,
                column,
            ) != #[trigger] target_index(target_width, dst, later, other),
    ensures
        blit_rows(
            source,
            source_width,
            target,
            target_width,
            src,
            dst,
            columns,
            rows,
        )[target_index(target_width, dst, row, column)] == source[source_index(
            source_width,
            src,
            row,
            column,
        )],
    decreases rows,
{
    let fewer = (rows - 1) as nat;
    let above = blit_rows(source, source_width, target, target_width, src, dst, columns, fewer);
    let k = target_index(target_width, dst, row, column);
    lemma_blit_rows_len(source, source_width, target, target_width, src, dst, columns, fewer);
    if fewer > row {
        lemma_blit_rows_last(
            source,
            source_width,
            target,
            target_width,
            src,
            dst,
            columns,
            fewer,
            row,
            column,
        );
        lemma_blit_row_keeps(
            source,
            source_width,
            above,
            target_width,
            src,
            dst,
            fewer as int,
            columns,
            k,
        );
    } else {
        lemma_blit_row_last(
            source,
            source_width,
            above,
            target_width,
            src,
            dst,
            row,
            columns,
            column,
        );
    }
}

/// Copying a rectangle of a grid into a buffer of the rectangle's size, and
/// that buffer to the same place of a second grid of the same size, gives
/// each cell of the second grid that lies in the rectangle what the first
/// grid holds there, wherever the rectangle lies.
pub proof fn lemma_blit_round_trip_cell<T>(
    first: Seq<T>,
    width: u16,
    height: u16,
    held: Seq<T>,
    fresh: Seq<T>,
    region: Rect,
    column: int,
    row: int,
)
    requires
        first.len() == width * height,
        fresh.len() == first.len(),
        held.len() == region.2 * region.3,
        region.0 <= column < region.0 + region.2,
        region.1 <= row < region.1 + region.3,
        column < width,
        row < height,
    ensures
        0 <= column + row * width < first.len(),
        restore(snapshot(first, width, height, held, region), fresh, width, region)[column + row
            * width] == first[column + row * width],
{
    let w = region.2 as int;
    let h = region.3 as int;
    let aw = width as int;
    let c0 = column - region.0;
    let r0 = row - region.1;
    let k = column + row * aw;
    let k1 = c0 + r0 * w;
    let whole = Rect(0, 0, region.2, region.3);
    let at = Coord(region.0, region.1);
    let origin = Coord(0, 0);
    lemma_grid_bounds(column, row, aw, height as int);
    lemma_grid_bounds(c0, r0, w, h);
    let saved = snapshot(first, width, height, held, region);
    assert forall|later: int, other: int|
        r0 < later < clipped(region.3, height) && 0 <= other < clipped(
            region.2,
            width,
        ) implies target_index(w, origin, r0, c0) != #[trigger] target_index(
        w,
        origin,
        later,
        other,
    ) by {
        lemma_grid_place(k1, w, c0, r0);
        lemma_grid_place(k1, w, other, later);
    }
    lemma_blit_rows_last(
        first,
        aw,
        held,
        w,
        region,
        origin,
        clipped(region.2, width),
        clipped(region.3, height),
        r0,
        c0,
    );
    assert(saved[k1] == first[k]);
    lemma_blit_rows_len(
        first,
        aw,
        held,
        w,
        region,
        origin,
        clipped(region.2, width),
        clipped(region.3, height),
    );
    assert forall|later: int, other: int|
        r0 < later < h && 0 <= other < w implies target_index(aw, at, r0, c0)
        != #[trigger] target_index(aw, at, later, other) by {
        assert((region.1 + later) * aw >= row * aw + aw) by (nonlinear_arith)
            requires
                region.1 + later >= row + 1,
                aw >= 0,
        ;
    }
    lemma_blit_rows_last(saved, w, fresh, aw, whole, at, w as nat, h as nat, r0, c0);
}

/// Saving a rectangle of a grid, changing cells of that rectangle only, and
/// copying the saved cells back gives the grid as it was when they were
/// saved. The rectangle lies within the grid.
pub proof fn lemma_snapshot_restores<T>(
    before: Seq<T>,
    width: u16,
    height: u16,
    held: Seq<T>,
    changed: Seq<T>,
    region: Rect,
)
    requires
        before.len() == width * height,
        changed.len() == before.len(),
        held.len() == region.2 * region.3,
        region.0 + region.2 <= width,
        region.1 + region.3 <= height,
        forall|k: int|
            0 <= k < before.len() && !in_region(
                k,
                width as int,
                Coord(region.0, region.1),
                region.2 as int,
                region.3 as int,
            ) ==> changed[k] == before[k],
    ensures
        restore(snapshot(before, width, height, held, region), changed, width, region) == before,
{
    lemma_blit_round_trip(before, width, height, held, changed, region);
    assert(region_taken_from(before, changed, width, region) =~= before);
}

} // verus!
