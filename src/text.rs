use vstd::prelude::*;
use embedded_graphics::fonts::{Font, Font8x16};
use crate::buffer::{cell_index, in_bounds, Frame, FrameBuffer, HEIGHT, WIDTH};
use crate::color::{swap_spec, Color};

verus! {

/// Width of a glyph in pixels.
pub const GLYPH_WIDTH: i32 = 8;

/// Height of a glyph in pixels.
pub const GLYPH_HEIGHT: i32 = 16;

/// Pixels in a glyph.
pub const GLYPH_PIXELS: usize = 128;

/// Whether the 8x16 font lights pixel (`x`, `y`) of the glyph for `c`.
pub uninterp spec fn font8x16_pixel(c: char, x: u32, y: u32) -> bool;

/// Relies on embedded_graphics's `Font8x16::character_pixel`: whether a pixel of
/// a glyph is lit depends on the character and the pixel alone. Inside the 8x16
/// box the bitmap lookup stays within the font image, for every character.
#[verifier::external_body]
fn character_pixel(c: char, x: u32, y: u32) -> (on: bool)
    requires
        x < 8,
        y < 16,
    ensures
        on == font8x16_pixel(c, x, y),
{
    Font8x16::character_pixel(c, x, y)
}

/// The lit pixels of the glyph for `c`, row by row, eight to a row.
pub open spec fn glyph_mask(c: char) -> Seq<bool> {
    Seq::new(GLYPH_PIXELS as nat, |i: int| font8x16_pixel(c, (i % 8) as u32, (i / 8) as u32))
}

/// Foreground and background color of the text.
#[derive(Clone, Copy, Debug, PartialEq, Eq, Structural)]
pub struct Style {
    pub text_color: Color,
    pub background_color: Color,
}

/// Whether `[a, a + n)` meets `[0, limit)`.
pub open spec fn spans(a: int, n: int, limit: int) -> bool {
    n > 0 && a < limit && a + n > 0
}

pub open spec fn in_glyph(dx: int, dy: int) -> bool {
    0 <= dx < GLYPH_WIDTH && 0 <= dy < GLYPH_HEIGHT
}

/// The color, in host order, of pixel (`dx`, `dy`) of a glyph.
pub open spec fn glyph_color(mask: Seq<bool>, dx: int, dy: int, style: Style) -> u16 {
    if mask[dy * 8 + dx] {
        style.text_color.raw
    } else {
        style.background_color.raw
    }
}

/// Pixel (`dx`, `dy`) of a glyph comes before pixel (`gx`, `gy`) in row order.
pub open spec fn glyph_before(dx: int, dy: int, gx: int, gy: int) -> bool {
    in_glyph(dx, dy) && (dy < gy || (dy == gy && dx < gx))
}

/// `after` is `before` with the glyph pixels before (`gx`, `gy`) drawn at (`x`, `y`),
/// the parts off the canvas clipped.
pub open spec fn glyph_drawn_upto(
    before: Frame,
    after: Frame,
    x: int,
    y: int,
    mask: Seq<bool>,
    style: Style,
    gx: int,
    gy: int,
) -> bool {
    &&& after.cells.len() == before.cells.len()
    &&& after.dirty == (before.dirty || (spans(y, gy, HEIGHT as int) && spans(x, 8, WIDTH as int))
        || (spans(y + gy, 1, HEIGHT as int) && spans(x, gx, WIDTH as int)))
    &&& forall|cx: int, cy: int|
        #![trigger after.cells[cell_index(cx, cy)]]
        in_bounds(cx, cy) ==> after.cells[cell_index(cx, cy)] == if glyph_before(
            cx - x,
            cy - y,
            gx,
            gy,
        ) {
            swap_spec(glyph_color(mask, cx - x, cy - y, style))
        } else {
            before.cells[cell_index(cx, cy)]
        }
}

/// `after` is `before` with a whole glyph drawn with its top-left corner at (`x`, `y`):
/// each pixel of the 8x16 box that lies on the canvas takes the text color where
/// the mask is lit and the background color elsewhere, and the canvas turns dirty
/// when the box meets it.
pub open spec fn glyph_drawn(
    before: Frame,
    after: Frame,
    x: int,
    y: int,
    mask: Seq<bool>,
    style: Style,
) -> bool {
    glyph_drawn_upto(before, after, x, y, mask, style, 0, GLYPH_HEIGHT as int)
}

/// Looks up which pixels of the glyph for `c` are lit.
pub fn glyph_of(c: char) -> (mask: Vec<bool>)
    ensures
        mask@ == glyph_mask(c),
{
    let mut mask: Vec<bool> = Vec::new();
    let mut i: u32 = 0;
    while i < 128
        invariant
            i <= 128,
            mask@.len() == i,
            forall|j: int| 0 <= j < i ==> mask@[j] == font8x16_pixel(c, (j % 8) as u32, (j / 8) as u32),
        decreases 128 - i,
    {
        let on = character_pixel(c, i % 8, i / 8);
        mask.push(on);
        i = i + 1;
    }
    assert(mask@ =~= glyph_mask(c));
    mask
}

proof fn lemma_cell_index_distinct(ax: int, ay: int, bx: int, by: int)
    requires
        in_bounds(ax, ay),
        in_bounds(bx, by),
        ax != bx || ay != by,
    ensures
        cell_index(ax, ay) != cell_index(bx, by),
{
    if ay < by {
        assert(ay * 320 + 320 <= by * 320) by (nonlinear_arith)
            requires
                ay < by,
        ;
    } else if by < ay {
        assert(by * 320 + 320 <= ay * 320) by (nonlinear_arith)
            requires
                by < ay,
        ;
    }
}

impl FrameBuffer {
    /// Draws an 8x16 glyph given by its pixel mask (row by row, eight to a row)
    /// with its top-left corner at (`x`, `y`); pixels off the canvas are skipped.
    pub fn draw_glyph(&mut self, x: i32, y: i32, mask: &Vec<bool>, style: Style)
        requires
            old(self).wf(),
            mask@.len() == GLYPH_PIXELS,
        ensures
            final(self).wf(),
            glyph_drawn(old(self)@, final(self)@, x as int, y as int, mask@, style),
    {
        let ghost start = self@;
        let mut gy: i32 = 0;
        while gy < GLYPH_HEIGHT
            invariant
                0 <= gy <= GLYPH_HEIGHT,
                self.wf(),
                mask@.len() == GLYPH_PIXELS,
                glyph_drawn_upto(start, self@, x as int, y as int, mask@, style, 0, gy as int),
            decreases GLYPH_HEIGHT - gy,
        {
            let mut gx: i32 = 0;
            while gx < GLYPH_WIDTH
                invariant
                    0 <= gx <= GLYPH_WIDTH,
                    0 <= gy < GLYPH_HEIGHT,
                    self.wf(),
                    mask@.len() == GLYPH_PIXELS,
                    glyph_drawn_upto(start, self@, x as int, y as int, mask@, style, gx as int, gy as int),
                decreases GLYPH_WIDTH - gx,
            {
                let color = if mask[(gy * 8 + gx) as usize] {
                    style.text_color
                } else {
                    style.background_color
                };
                let px: i64 = x as i64 + gx as i64;
                let py: i64 = y as i64 + gy as i64;
                let ghost prev = self@;
                if px <= i32::MAX as i64 && py <= i32::MAX as i64 {
                    self.draw_pixel(px as i32, py as i32, color);
                }
                assert forall|cx: int, cy: int| #[trigger] in_bounds(cx, cy) implies
                    self@.cells[cell_index(cx, cy)] == if glyph_before(cx - x, cy - y, gx + 1, gy as int) {
                        swap_spec(glyph_color(mask@, cx - x, cy - y, style))
                    } else {
                        start.cells[cell_index(cx, cy)]
                    } by {
                    if in_bounds(px as int, py as int) && (cx != px || cy != py) {
                        lemma_cell_index_distinct(cx, cy, px as int, py as int);
                    }
                }
                gx = gx + 1;
            }
            gy = gy + 1;
        }
    }

    /// Draws the glyph for `c` of the 8x16 font with its top-left corner at (`x`, `y`).
    pub fn draw_char(&mut self, c: char, x: i32, y: i32, style: Style)
        requires
            old(self).wf(),
        ensures
            final(self).wf(),
            glyph_drawn(old(self)@, final(self)@, x as int, y as int, glyph_mask(c), style),
    {
        let mask = glyph_of(c);
        self.draw_glyph(x, y, &mask, style);
    }
}

} // verus!
