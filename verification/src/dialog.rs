use crate::console::{ConsoleView, Coord};
use crate::rusted::region_ok;
use vstd::prelude::*;

verus! {

/// Half of `n`, rounded towards zero.
pub open spec fn half(n: int) -> int {
    if n >= 0 {
        n / 2
    } else {
        -((-n) / 2)
    }
}

/// The rectangle of a dialog box with `entries` lines of content on a console
/// of the given size, as x, y, width and height: four fifths of the
/// console's width, four rows more than the content, and centred.
pub open spec fn box_rect(size: Coord, entries: int) -> (int, int, int, int) {
    let width = (size.0 * 4) / 5;
    let height = entries + 4;
    (half(size.0 - width), half(size.1 - height), width, height)
}

/// The grid after `text` was written with the cursor set to `column` and
/// `row`, each taken as 16 bits.
pub open spec fn put_text_at(v: ConsoleView, column: int, row: int, text: Seq<char>)
    -> ConsoleView {
    (ConsoleView { cursor: Coord(column as u16, row as u16), ..v }).put_text(text)
}

/// The length of a text of `bytes` bytes as a 32-bit number: the number of
/// its bytes, or the largest 32-bit number where it has more.
pub open spec fn text_length(bytes: usize) -> int {
    if bytes <= i32::MAX {
        bytes as int
    } else {
        i32::MAX as int
    }
}

/// The length of `text`: see `text_length`.
pub(crate) fn text_length_of(text: &str) -> (length: i32)
    ensures
        length == text_length(text.len()),
        0 <= length,
{
    let bytes: usize = text.len();
    if bytes <= 0x7fff_ffff {
        bytes as i32
    } else {
        i32::MAX
    }
}

/// Half of `n`, rounded towards zero.
pub(crate) fn half_of(n: i32) -> (r: i32)
    requires
        i32::MIN < n,
    ensures
        r == half(n as int),
{
    if n >= 0 {
        n / 2
    } else {
        -((-n) / 2)
    }
}

/// The rectangle of a dialog box: see `box_rect`.
pub fn dialog_rect(size: Coord, entries: usize) -> (rect: (i32, i32, i32, i32))
    requires
        entries + 4 <= u16::MAX,
    ensures
        (rect.0 as int, rect.1 as int, rect.2 as int, rect.3 as int) == box_rect(
            size,
            entries as int,
        ),
        region_ok(rect.0 as int, rect.1 as int, rect.2 as int, rect.3 as int),
        0 <= rect.0,
        rect.0 + rect.2 <= size.0,
{
    let console_width: i32 = size.0 as i32;
    let console_height: i32 = size.1 as i32;
    let box_width: i32 = (console_width * 4) / 5;
    let box_height: i32 = entries as i32 + 4;
    (half_of(console_width - box_width), half_of(console_height - box_height), box_width, box_height)
}

} // verus!
