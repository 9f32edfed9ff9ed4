//! Rendering and input core of a keyboard-and-LCD text terminal: an off-screen
//! pixel canvas with dirty tracking, the color codec it writes through, a
//! character-grid cursor, and the key dispatcher that drives them.

mod buffer;
mod color;
mod cursor;
mod terminal;
mod text;

pub use buffer::{
    cell_index, in_bounds, lemma_draw_off_canvas, lemma_snapshot_once, Frame, FrameBuffer, CELLS,
    HEIGHT, WIDTH,
};
pub use color::{lemma_swap_involution, rgb565_pack, swap, swap_spec, Color};
pub use cursor::{
    down_spec, enter_spec, left_spec, lemma_enter, lemma_left_wraps, lemma_moves_stay_on_grid,
    lemma_right_wraps, lemma_vertical_clamps, on_grid, right_spec, up_spec, Cursor, CELL_HEIGHT,
    CELL_WIDTH, COLS, ROWS,
};
pub use text::{
    font8x16_pixel, glyph_before, glyph_color, glyph_drawn, glyph_drawn_upto, glyph_mask, glyph_of,
    in_glyph, spans, Style, GLYPH_HEIGHT, GLYPH_PIXELS, GLYPH_WIDTH,
};
pub use terminal::{
    cell_origin, default_style, style_key_color, typed_char, Action, KeyEvent, Terminal,
    KEY_BACKSPACE, KEY_BLUE, KEY_DOWN, KEY_ENTER, KEY_GREEN, KEY_LEFT, KEY_RED, KEY_RESET,
    KEY_RIGHT, KEY_UP, KEY_WHITE,
};
