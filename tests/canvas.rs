use keywing::{swap, Color, FrameBuffer, CELLS, HEIGHT, WIDTH};

fn cell(buf: &[u16], x: usize, y: usize) -> u16 {
    buf[y * WIDTH as usize + x]
}

#[test]
fn swap_exchanges_bytes() {
    assert_eq!(swap(0x1234), 0x3412);
    assert_eq!(swap(0xF800), 0x00F8);
    assert_eq!(swap(0x0000), 0x0000);
    assert_eq!(swap(0xFFFF), 0xFFFF);
}

#[test]
fn swap_twice_is_identity() {
    for v in [0u16, 1, 0x00FF, 0xFF00, 0x1234, 0xABCD, 0x8001, 0xFFFF] {
        assert_eq!(swap(swap(v)), v);
    }
}

#[test]
fn colors_pack_rgb565() {
    assert_eq!(Color::black().raw, 0x0000);
    assert_eq!(Color::white().raw, 0xFFFF);
    assert_eq!(Color::red().raw, 0xF800);
    assert_eq!(Color::green().raw, 0x07E0);
    assert_eq!(Color::blue().raw, 0x001F);
    assert_eq!(Color::new(1, 2, 3).raw, (1 << 11) | (2 << 5) | 3);
    assert_eq!(Color::new(0xFF, 0, 0).raw, 0xF800);
}

#[test]
fn size_is_fixed() {
    let fb = FrameBuffer::new();
    assert_eq!(fb.size(), (320, 240));
    assert_eq!(fb.width(), 320);
    assert_eq!(fb.height(), 240);
}

#[test]
fn fresh_canvas_has_no_snapshot() {
    let mut fb = FrameBuffer::new();
    assert!(fb.inner().is_none());
}

#[test]
fn pixel_off_canvas_changes_nothing() {
    let mut fb = FrameBuffer::new();
    for (x, y) in [(-1, 0), (0, -1), (320, 0), (0, 240), (i32::MIN, i32::MAX), (1000, 5)] {
        fb.draw_pixel(x, y, Color::red());
    }
    assert!(fb.inner().is_none());
    fb.clear(Color::white());
    assert!(fb.inner().is_some());
    fb.draw_pixel(-5, 3, Color::red());
    assert!(fb.inner().is_none());
    fb.draw_pixel(0, 0, Color::blue());
    let buf = fb.inner().unwrap();
    assert!(buf.iter().skip(1).all(|&c| c == 0xFFFF));
    assert_eq!(buf[0], swap(Color::blue().raw));
}

#[test]
fn snapshot_comes_once_per_write() {
    let mut fb = FrameBuffer::new();
    fb.draw_pixel(319, 239, Color::green());
    assert!(fb.inner().is_some());
    assert!(fb.inner().is_none());
    fb.draw_pixel(1, 1, Color::green());
    fb.draw_pixel(2, 2, Color::green());
    assert!(fb.inner().is_some());
    assert!(fb.inner().is_none());
    fb.clear(Color::black());
    assert!(fb.inner().is_some());
    assert!(fb.inner().is_none());
}

#[test]
fn clear_then_pixel_snapshot() {
    let mut fb = FrameBuffer::new();
    fb.clear(Color::black());
    fb.draw_pixel(5, 5, Color::red());
    {
        let buf = fb.inner().unwrap();
        assert_eq!(buf.len(), CELLS);
        assert_eq!(cell(buf, 5, 5), 0x00F8);
        for y in 0..HEIGHT as usize {
            for x in 0..WIDTH as usize {
                if (x, y) != (5, 5) {
                    assert_eq!(cell(buf, x, y), 0x0000);
                }
            }
        }
    }
    assert!(fb.inner().is_none());
}

#[test]
fn clear_stores_swapped_color() {
    let mut fb = FrameBuffer::new();
    fb.clear(Color::new(0, 0, 1));
    let buf = fb.inner().unwrap();
    assert!(buf.iter().all(|&c| c == 0x0100));
}
