use vstd::prelude::*;
use crate::buffer::{Frame, FrameBuffer};
use crate::color::Color;
use crate::cursor::{
    down_spec, enter_spec, left_spec, right_spec, up_spec, Cursor, CELL_HEIGHT, CELL_WIDTH,
};
use crate::text::{glyph_drawn, glyph_mask, Style};

verus! {

/// Up.
pub const KEY_UP: u8 = 1;

/// Down.
pub const KEY_DOWN: u8 = 2;

/// Left.
pub const KEY_LEFT: u8 = 3;

/// Right.
pub const KEY_RIGHT: u8 = 4;

/// Center button: start over.
pub const KEY_RESET: u8 = 5;

/// Outer left soft key: white text.
pub const KEY_WHITE: u8 = 6;

/// Inner right soft key: green text.
pub const KEY_GREEN: u8 = 7;

/// Backspace.
pub const KEY_BACKSPACE: u8 = 8;

/// Enter.
pub const KEY_ENTER: u8 = 10;

/// Inner left soft key: red text.
pub const KEY_RED: u8 = 17;

/// Outer right soft key: blue text.
pub const KEY_BLUE: u8 = 18;

/// One event read from the keyboard's queue.
#[derive(Clone, Copy, Debug, PartialEq, Eq, Structural)]
pub enum KeyEvent {
    /// The queue is empty.
    Invalid,
    Pressed(u8),
    Held(u8),
    Released(u8),
}

/// What the caller does after an event was handled.
#[derive(Clone, Copy, Debug, PartialEq, Eq, Structural)]
pub enum Action {
    /// Read the next event.
    Continue,
    /// Reset the keyboard controller, then read the next event.
    ResetKeyboard,
    /// Take the canvas's snapshot: push it to the display if there is one, else
    /// wait a little before the next read.
    Flush,
}

/// Text color, in host order, that a style key selects.
pub open spec fn style_key_color(k: u8) -> Option<u16> {
    if k == KEY_WHITE {
        Some(0xFFFFu16)
    } else if k == KEY_RED {
        Some(0xF800u16)
    } else if k == KEY_GREEN {
        Some(0x07E0u16)
    } else if k == KEY_BLUE {
        Some(0x001Fu16)
    } else {
        None
    }
}

/// A key code that is typed as a character: one byte that is a whole UTF-8 sequence.
pub open spec fn typed_char(k: u8) -> Option<char> {
    if k < 128 {
        Some(k as char)
    } else {
        None
    }
}

/// White text on black.
pub open spec fn default_style() -> Style {
    Style { text_color: Color { raw: 0xFFFF }, background_color: Color { raw: 0 } }
}

/// Pixel position of the top-left corner of a grid cell.
pub open spec fn cell_origin(p: (int, int)) -> (int, int) {
    (p.0 * CELL_WIDTH, p.1 * CELL_HEIGHT)
}

/// The canvas, the cursor and the style that key events drive.
pub struct Terminal {
    pub canvas: FrameBuffer,
    pub cursor: Cursor,
    pub style: Style,
}

impl Terminal {
    pub open spec fn wf(&self) -> bool {
        self.canvas.wf() && self.cursor.wf()
    }

    /// A black canvas, the cursor at the origin, white text on black.
    pub fn new() -> (r: Terminal)
        ensures
            r.wf(),
            r.canvas@ == Frame::fresh().cleared(0),
            r.cursor@ == (0int, 0int),
            r.style == default_style(),
    {
        let mut canvas = FrameBuffer::new();
        canvas.clear(Color::black());
        Terminal {
            canvas,
            cursor: Cursor::origin(),
            style: Style { text_color: Color::white(), background_color: Color::black() },
        }
    }

    /// Applies one key event to the cursor, the style and the canvas, and says
    /// what the caller does next.
    pub fn handle(&mut self, key: KeyEvent) -> (r: Action)
        requires
            old(self).wf(),
        ensures
            final(self).wf(),
            match key {
                KeyEvent::Pressed(k) => {
                    if let Some(fg) = style_key_color(k) {
                        &&& r == Action::Continue
                        &&& final(self).style == (Style {
                            text_color: Color { raw: fg },
                            background_color: Color { raw: 0 },
                        })
                        &&& final(self).cursor == old(self).cursor
                        &&& final(self).canvas@ == old(self).canvas@
                    } else if k == KEY_RESET {
                        &&& r == Action::ResetKeyboard
                        &&& final(self).cursor@ == (0int, 0int)
                        &&& final(self).canvas@ == old(self).canvas@.cleared(0)
                        &&& final(self).style == old(self).style
                    } else if k == KEY_BACKSPACE {
                        &&& r == Action::Continue
                        &&& final(self).cursor@ == left_spec(old(self).cursor@)
                        &&& glyph_drawn(
                            old(self).canvas@,
                            final(self).canvas@,
                            cell_origin(final(self).cursor@).0,
                            cell_origin(final(self).cursor@).1,
                            glyph_mask(' '),
                            old(self).style,
                        )
                        &&& final(self).style == old(self).style
                    } else {
                        &&& r == Action::Continue
                        &&& final(self).style == old(self).style
                        &&& final(self).cursor@ == if k == KEY_UP {
                            up_spec(old(self).cursor@)
                        } else if k == KEY_DOWN {
                            down_spec(old(self).cursor@)
                        } else if k == KEY_LEFT {
                            left_spec(old(self).cursor@)
                        } else if k == KEY_RIGHT {
                            right_spec(old(self).cursor@)
                        } else if k == KEY_ENTER {
                            enter_spec(old(self).cursor@)
                        } else if typed_char(k) is Some {
                            right_spec(old(self).cursor@)
                        } else {
                            old(self).cursor@
                        }
                        &&& if k != KEY_UP && k != KEY_DOWN && k != KEY_LEFT && k != KEY_RIGHT
                            && k != KEY_ENTER && typed_char(k) is Some {
                            glyph_drawn(
                                old(self).canvas@,
                                final(self).canvas@,
                                cell_origin(old(self).cursor@).0,
                                cell_origin(old(self).cursor@).1,
                                glyph_mask(typed_char(k).unwrap()),
                                old(self).style,
                            )
                        } else {
                            final(self).canvas@ == old(self).canvas@
                        }
                    }
                },
                KeyEvent::Invalid => {
                    &&& r == Action::Flush
                    &&& final(self).canvas@ == old(self).canvas@
                    &&& final(self).cursor == old(self).cursor
                    &&& final(self).style == old(self).style
                },
                _ => {
                    &&& r == Action::Continue
                    &&& final(self).canvas@ == old(self).canvas@
                    &&& final(self).cursor == old(self).cursor
                    &&& final(self).style == old(self).style
                },
            },
    {
        match key {
            KeyEvent::Pressed(k) => {
                if k == KEY_WHITE {
                    self.style = Style { text_color: Color::white(), background_color: Color::black() };
                } else if k == KEY_RED {
                    self.style = Style { text_color: Color::red(), background_color: Color::black() };
                } else if k == KEY_GREEN {
                    self.style = Style { text_color: Color::green(), background_color: Color::black() };
                } else if k == KEY_BLUE {
                    self.style = Style { text_color: Color::blue(), background_color: Color::black() };
                } else if k == KEY_UP {
                    self.cursor.up();
                } else if k == KEY_DOWN {
                    self.cursor.down();
                } else if k == KEY_LEFT {
                    self.cursor.left();
                } else if k == KEY_RIGHT {
                    self.cursor.right();
                } else if k == KEY_RESET {
                    self.cursor = Cursor::origin();
                    self.canvas.clear(Color::black());
                    return Action::ResetKeyboard;
                } else if k == KEY_BACKSPACE {
                    self.cursor.left();
                    let (x, y) = self.cursor.pos();
                    self.canvas.draw_char(' ', x, y, self.style);
                } else if k == KEY_ENTER {
                    self.cursor.enter();
                } else if k < 128 {
                    let (x, y) = self.cursor.pos();
                    self.canvas.draw_char(k as char, x, y, self.style);
                    self.cursor.right();
                }
                Action::Continue
            },
            KeyEvent::Invalid => Action::Flush,
            _ => Action::Continue,
        }
    }
}

} // verus!
