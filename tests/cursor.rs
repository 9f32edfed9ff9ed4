use keywing::{Cursor, COLS, ROWS};

fn at(x: i32, y: i32) -> Cursor {
    Cursor { x, y }
}

#[test]
fn origin_is_top_left() {
    assert_eq!(Cursor::origin(), at(0, 0));
}

#[test]
fn up_clamps_at_top() {
    let mut c = at(5, 0);
    c.up();
    assert_eq!(c, at(5, 0));
    let mut c = at(5, 3);
    c.up();
    assert_eq!(c, at(5, 2));
}

#[test]
fn down_clamps_at_bottom() {
    let mut c = at(5, ROWS - 1);
    c.down();
    assert_eq!(c, at(5, ROWS - 1));
    let mut c = at(5, 3);
    c.down();
    assert_eq!(c, at(5, 4));
}

#[test]
fn left_wraps_to_previous_row() {
    for y in 1..ROWS {
        let mut c = at(0, y);
        c.left();
        assert_eq!(c, at(COLS - 1, y - 1));
    }
    let mut c = at(0, 0);
    c.left();
    assert_eq!(c, at(0, 0));
    let mut c = at(7, 4);
    c.left();
    assert_eq!(c, at(6, 4));
}

#[test]
fn right_wraps_to_next_row() {
    for y in 0..ROWS - 1 {
        let mut c = at(COLS - 1, y);
        c.right();
        assert_eq!(c, at(0, y + 1));
    }
    let mut c = at(COLS - 1, ROWS - 1);
    c.right();
    assert_eq!(c, at(0, ROWS - 1));
    let mut c = at(7, 4);
    c.right();
    assert_eq!(c, at(8, 4));
}

#[test]
fn enter_starts_next_line() {
    for y in 0..ROWS - 1 {
        let mut c = at(12, y);
        c.enter();
        assert_eq!(c, at(0, y + 1));
    }
    let mut c = at(12, ROWS - 1);
    c.enter();
    assert_eq!(c, at(12, ROWS - 1));
}

#[test]
fn pos_is_in_pixels() {
    assert_eq!(at(0, 0).pos(), (0, 0));
    assert_eq!(at(39, 14).pos(), (312, 224));
    assert_eq!(at(3, 2).pos(), (24, 32));
}
