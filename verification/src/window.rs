use crate::console::{blank_cells, CharInfo, Rect};
use vstd::prelude::*;

verus! {

/// A rectangular region of the console: where it lies and the cells that were
/// saved from it.
#[derive(Debug)]
pub struct Window {
    /// x, y, width, height
    pub data: [i32; 4],
    /// `width * height` cells in row-major order
    pub buffer: Vec<CharInfo>,
    /// the number of cells that the window was made with
    pub cached_buffer_count: usize,
    /// the width and height that the window was made with
    pub cached_buffer_size: (i32, i32),
}

impl Window {
    /// The buffer holds one cell for each column of each row, and the window
    /// remembers the size it was made with.
    pub open spec fn wf(&self) -> bool {
        &&& 0 <= self.data@[2]
        &&& 0 <= self.data@[3]
        &&& self.cached_buffer_size == (self.data@[2], self.data@[3])
        &&& self.cached_buffer_count == self.data@[2] * self.data@[3]
        &&& self.buffer@.len() == self.data@[2] * self.data@[3]
    }

    /// The window's rectangle in extent form, each number taken as 16 bits.
    pub open spec fn region(&self) -> Rect {
        Rect(
            self.data@[0] as u16,
            self.data@[1] as u16,
            self.data@[2] as u16,
            self.data@[3] as u16,
        )
    }

    /// A window at `(x, y)` with `w * h` blank cells.
    pub fn new(x: i32, y: i32, w: i32, h: i32) -> (window: Self)
        requires
            0 <= w,
            0 <= h,
            w * h <= usize::MAX,
        ensures
            window.wf(),
            window.data@ == seq![x, y, w, h],
            window.buffer@ == Seq::new((w * h) as nat, |i: int| CharInfo::blank()),
    {
        assert(0 <= w * h) by (nonlinear_arith)
            requires
                0 <= w,
                0 <= h,
        ;
        let count: usize = (w as usize) * (h as usize);
        let data: [i32; 4] = [x, y, w, h];
        assert(data@ =~= seq![x, y, w, h]);
        Self {
            data,
            buffer: blank_cells(count),
            cached_buffer_count: count,
            cached_buffer_size: (w, h),
        }
    }

    /// The position of the window's top-left corner.
    pub fn position(&self) -> (at: (i32, i32))
        ensures
            at == (self.data@[0], self.data@[1]),
    {
        (self.data[0], self.data[1])
    }

    /// The size of the buffer as width and height.
    pub fn buffer_size(&self) -> (size: (i32, i32))
        ensures
            size == self.cached_buffer_size,
    {
        self.cached_buffer_size
    }

    /// The size of the buffer as a number of cells.
    pub fn buffer_count(&self) -> (count: usize)
        ensures
            count == self.cached_buffer_count,
    {
        self.cached_buffer_count
    }
}

impl Clone for Window {
    fn clone(&self) -> (copy: Self)
        ensures
            copy.data@ == self.data@,
            copy.buffer@ == self.buffer@,
            copy.cached_buffer_count == self.cached_buffer_count,
            copy.cached_buffer_size == self.cached_buffer_size,
            self.wf() ==> copy.wf(),
    {
        let buffer = self.buffer.clone();
        assert(buffer@ =~= self.buffer@);
        Window {
            data: self.data,
            buffer,
            cached_buffer_count: self.cached_buffer_count,
            cached_buffer_size: self.cached_buffer_size,
        }
    }
}

} // verus!
