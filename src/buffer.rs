use vstd::prelude::*;
use crate::color::{swap, swap_spec, Color};

verus! {

/// Width of the canvas in pixels.
pub const WIDTH: u32 = 320;

/// Height of the canvas in pixels.
pub const HEIGHT: u32 = 240;

/// Number of cells of the canvas.
pub const CELLS: usize = 76800;

pub open spec fn in_bounds(x: int, y: int) -> bool {
    0 <= x < WIDTH && 0 <= y < HEIGHT
}

/// Position of the cell at column `x`, row `y` in the row-major grid.
pub open spec fn cell_index(x: int, y: int) -> int {
    y * WIDTH + x
}

/// What a canvas holds: its cells in row-major order, in bus byte order, and
/// whether any of them was written since the last snapshot.
pub struct Frame {
    pub cells: Seq<u16>,
    pub dirty: bool,
}

impl Frame {
    pub open spec fn wf(self) -> bool {
        self.cells.len() == CELLS
    }

    /// A canvas as it is made: every cell zero, nothing to flush.
    pub open spec fn fresh() -> Frame {
        Frame { cells: Seq::new(CELLS as nat, |i: int| 0u16), dirty: false }
    }

    /// The canvas after one pixel is drawn: a position off the canvas changes nothing.
    pub open spec fn drawn(self, x: int, y: int, color: u16) -> Frame {
        if in_bounds(x, y) {
            Frame { cells: self.cells.update(cell_index(x, y), swap_spec(color)), dirty: true }
        } else {
            self
        }
    }

    /// The canvas after it is filled with one color.
    pub open spec fn cleared(self, color: u16) -> Frame {
        Frame { cells: Seq::new(CELLS as nat, |i: int| swap_spec(color)), dirty: true }
    }

    /// What a snapshot hands out: all the cells when the canvas is dirty, else nothing.
    pub open spec fn snapshot(self) -> Option<Seq<u16>> {
        if self.dirty {
            Some(self.cells)
        } else {
            None
        }
    }

    /// The canvas after a snapshot was taken.
    pub open spec fn taken(self) -> Frame {
        Frame { cells: self.cells, dirty: false }
    }
}

/// Drawing at a position off the canvas leaves every cell and the dirty flag as they were.
pub proof fn lemma_draw_off_canvas(f: Frame, x: int, y: int, color: u16)
    requires
        !in_bounds(x, y),
    ensures
        f.drawn(x, y, color) == f,
{
}

/// A fresh canvas has nothing to hand out; after an in-bounds pixel or a clear it
/// hands out its cells once, and nothing on the next call.
pub proof fn lemma_snapshot_once(f: Frame, x: int, y: int, color: u16)
    ensures
        Frame::fresh().snapshot() is None,
        in_bounds(x, y) ==> f.drawn(x, y, color).snapshot() == Some(f.drawn(x, y, color).cells),
        in_bounds(x, y) ==> f.drawn(x, y, color).taken().snapshot() is None,
        f.cleared(color).snapshot() == Some(f.cleared(color).cells),
        f.cleared(color).taken().snapshot() is None,
{
}

/// An off-screen canvas of `WIDTH` x `HEIGHT` cells that remembers whether it
/// was written since it was last read.
pub struct FrameBuffer {
    buf: Vec<u16>,
    dirty: bool,
}

impl View for FrameBuffer {
    type V = Frame;

    closed spec fn view(&self) -> Frame {
        Frame { cells: self.buf@, dirty: self.dirty }
    }
}

impl FrameBuffer {
    pub open spec fn wf(&self) -> bool {
        self@.wf()
    }

    /// A canvas with every cell zero and nothing to flush.
    pub fn new() -> (r: FrameBuffer)
        ensures
            r.wf(),
            r@ == Frame::fresh(),
    {
        let buf: Vec<u16> = vec![0u16; CELLS];
        let r = FrameBuffer { buf, dirty: false };
        assert(r@.cells =~= Frame::fresh().cells);
        r
    }

    /// Hands out the whole grid, row-major, when it was written since the last
    /// call, and marks it clean; returns `None` when nothing was written.
    pub fn inner(&mut self) -> (r: Option<&[u16]>)
        requires
            old(self).wf(),
        ensures
            final(self).wf(),
            r matches Some(s) ==> old(self)@.snapshot() == Some(s@),
            r is None ==> old(self)@.snapshot() is None,
            final(self)@ == old(self)@.taken(),
    {
        if self.dirty {
            self.dirty = false;
            Some(self.buf.as_slice())
        } else {
            None
        }
    }

    pub fn width(&self) -> (r: u32)
        ensures
            r == WIDTH,
    {
        WIDTH
    }

    pub fn height(&self) -> (r: u32)
        ensures
            r == HEIGHT,
    {
        HEIGHT
    }

    /// Width and height in pixels.
    pub fn size(&self) -> (r: (u32, u32))
        ensures
            r == (WIDTH, HEIGHT),
    {
        (self.width(), self.height())
    }

    /// Stores `color`, byte-swapped, at column `x`, row `y`, and marks the canvas
    /// dirty; a position off the canvas is ignored.
    pub fn draw_pixel(&mut self, x: i32, y: i32, color: Color)
        requires
            old(self).wf(),
        ensures
            final(self).wf(),
            final(self)@ == old(self)@.drawn(x as int, y as int, color.raw),
    {
        if x < 0 || y < 0 || x >= self.width() as i32 || y >= self.height() as i32 {
            return;
        }
        self.dirty = true;
        assert(0 <= y < 240 && 0 <= x < 320);
        let i: usize = y as usize * 320 + x as usize;
        self.buf.set(i, swap(color.raw));
    }

    /// Fills every cell with `color`, byte-swapped, and marks the canvas dirty.
    pub fn clear(&mut self, color: Color)
        requires
            old(self).wf(),
        ensures
            final(self).wf(),
            final(self)@ == old(self)@.cleared(color.raw),
    {
        let v = swap(color.raw);
        let mut i: usize = 0;
        while i < CELLS
            invariant
                self.buf@.len() == CELLS,
                i <= CELLS,
                forall|j: int| 0 <= j < i ==> self.buf@[j] == v,
            decreases CELLS - i,
        {
            self.buf.set(i, v);
            i = i + 1;
        }
        self.dirty = true;
        assert(self@.cells =~= old(self)@.cleared(color.raw).cells);
    }
}

} // verus!
