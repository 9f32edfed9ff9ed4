use vstd::prelude::*;

verus! {

/// Columns of the character grid.
pub const COLS: i32 = 40;

/// Rows of the character grid.
pub const ROWS: i32 = 15;

/// Width of one character cell in pixels.
pub const CELL_WIDTH: i32 = 8;

/// Height of one character cell in pixels.
pub const CELL_HEIGHT: i32 = 16;

pub open spec fn up_spec(p: (int, int)) -> (int, int) {
    (p.0, if p.1 - 1 < 0 { 0 } else { p.1 - 1 })
}

pub open spec fn down_spec(p: (int, int)) -> (int, int) {
    (p.0, if p.1 + 1 >= ROWS { ROWS - 1 } else { p.1 + 1 })
}

/// One column back; from the first column to the last of the row above, except
/// in the top row, where the cursor stays in the first column.
pub open spec fn left_spec(p: (int, int)) -> (int, int) {
    if p.0 - 1 >= 0 {
        (p.0 - 1, p.1)
    } else if p.1 != 0 {
        up_spec((COLS - 1, p.1))
    } else {
        (0int, p.1)
    }
}

/// One column on; past the last column to the first of the row below, which
/// the last row clamps.
pub open spec fn right_spec(p: (int, int)) -> (int, int) {
    if p.0 + 1 >= COLS {
        down_spec((0int, p.1))
    } else {
        (p.0 + 1, p.1)
    }
}

/// Start of the next line; nothing on the last row.
pub open spec fn enter_spec(p: (int, int)) -> (int, int) {
    if p.1 != ROWS - 1 {
        down_spec((0int, p.1))
    } else {
        p
    }
}

pub open spec fn on_grid(p: (int, int)) -> bool {
    0 <= p.0 < COLS && 0 <= p.1 < ROWS
}

/// A position on the character grid: column `x`, row `y`.
#[derive(Clone, Copy, Debug, PartialEq, Eq, Structural)]
pub struct Cursor {
    pub x: i32,
    pub y: i32,
}

impl View for Cursor {
    type V = (int, int);

    open spec fn view(&self) -> (int, int) {
        (self.x as int, self.y as int)
    }
}

impl Cursor {
    pub open spec fn wf(&self) -> bool {
        on_grid(self@)
    }

    /// The top-left cell.
    pub fn origin() -> (r: Cursor)
        ensures
            r@ == (0int, 0int),
            r.wf(),
    {
        Cursor { x: 0, y: 0 }
    }

    pub fn up(&mut self)
        requires
            old(self).wf(),
        ensures
            final(self).wf(),
            final(self)@ == up_spec(old(self)@),
    {
        self.y -= 1;
        if self.y < 0 {
            self.y = 0;
        }
    }

    pub fn down(&mut self)
        requires
            old(self).wf(),
        ensures
            final(self).wf(),
            final(self)@ == down_spec(old(self)@),
    {
        self.y += 1;
        if self.y >= ROWS {
            self.y = ROWS - 1;
        }
    }

    pub fn left(&mut self)
        requires
            old(self).wf(),
        ensures
            final(self).wf(),
            final(self)@ == left_spec(old(self)@),
    {
        self.x -= 1;
        if self.x < 0 {
            if self.y != 0 {
                self.x = COLS - 1;
                self.up();
            } else {
                self.x = 0;
            }
        }
    }

    pub fn right(&mut self)
        requires
            old(self).wf(),
        ensures
            final(self).wf(),
            final(self)@ == right_spec(old(self)@),
    {
        self.x += 1;
        if self.x >= COLS {
            self.x = 0;
            self.down();
        }
    }

    pub fn enter(&mut self)
        requires
            old(self).wf(),
        ensures
            final(self).wf(),
            final(self)@ == enter_spec(old(self)@),
    {
        if self.y != ROWS - 1 {
            self.x = 0;
            self.down();
        }
    }

    /// Pixel position of the top-left corner of the cursor's cell.
    pub fn pos(&self) -> (r: (i32, i32))
        requires
            self.wf(),
        ensures
            r.0 == self.x * CELL_WIDTH,
            r.1 == self.y * CELL_HEIGHT,
    {
        (self.x * CELL_WIDTH, self.y * CELL_HEIGHT)
    }
}

/// Moving up from the top row, or down from the bottom row, stays put.
pub proof fn lemma_vertical_clamps(p: (int, int))
    requires
        on_grid(p),
    ensures
        p.1 == 0 ==> up_spec(p) == p,
        p.1 == ROWS - 1 ==> down_spec(p) == p,
{
}

/// Left from the first column goes to the last column of the row above; at the
/// top-left corner it stays.
pub proof fn lemma_left_wraps(y: int)
    requires
        0 <= y < ROWS,
    ensures
        y > 0 ==> left_spec((0, y)) == (COLS - 1, y - 1),
        y == 0 ==> left_spec((0, y)) == (0int, 0int),
{
}

/// Right from the last column goes to the first column of the row below; on the
/// last row it goes to that row's first column.
pub proof fn lemma_right_wraps(y: int)
    requires
        0 <= y < ROWS,
    ensures
        y < ROWS - 1 ==> right_spec((COLS - 1, y)) == (0int, y + 1),
        y == ROWS - 1 ==> right_spec((COLS - 1, y)) == (0int, ROWS - 1),
{
}

/// Enter on the last row changes nothing; on any other row it goes to the start
/// of the next one.
pub proof fn lemma_enter(p: (int, int))
    requires
        on_grid(p),
    ensures
        p.1 == ROWS - 1 ==> enter_spec(p) == p,
        p.1 != ROWS - 1 ==> enter_spec(p) == (0int, p.1 + 1),
{
}

/// Every move keeps the cursor on the grid.
pub proof fn lemma_moves_stay_on_grid(p: (int, int))
    requires
        on_grid(p),
    ensures
        on_grid(up_spec(p)),
        on_grid(down_spec(p)),
        on_grid(left_spec(p)),
        on_grid(right_spec(p)),
        on_grid(enter_spec(p)),
{
}

} // verus!
