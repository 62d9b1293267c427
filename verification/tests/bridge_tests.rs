use clockface::bridge::{repaint_step, Bridge, BridgeError, LoopStep};
use clockface::color::rgb565_to_bgr565;

#[test]
fn scanline_becomes_one_exact_write() {
    let mut b = Bridge::new(128, 128);
    let rendered: Vec<u16> = vec![0xf800, 0x07e0, 0x001f, 0xffff, 0x0000];
    let w = b.process_line(5, 2, 7, &rendered);
    // One write for exactly the requested rectangle: row 5, columns
    // 2 up to 7, one row high, one pixel per column.
    assert_eq!(w.x, 2);
    assert_eq!(w.y, 5);
    assert_eq!(w.width, 5);
    assert_eq!(w.height, 1);
    assert_eq!(w.pixels.len(), 5);
    // Red and blue trade places between RGB565 and BGR565.
    assert_eq!(w.pixels, vec![0x001f, 0x07e0, 0xf800, 0xffff, 0x0000]);
}

#[test]
fn empty_range_gives_empty_write() {
    let mut b = Bridge::new(128, 128);
    let rendered: Vec<u16> = vec![];
    let w = b.process_line(0, 64, 64, &rendered);
    assert_eq!(w.width, 0);
    assert_eq!(w.pixels.len(), 0);
}

#[test]
fn full_row_write() {
    let mut b = Bridge::new(128, 128);
    let rendered: Vec<u16> = (0..128u16).collect();
    let w = b.process_line(127, 0, 128, &rendered);
    assert_eq!(w.x, 0);
    assert_eq!(w.y, 127);
    assert_eq!(w.width, 128);
    assert_eq!(w.pixels.len(), 128);
    for (i, p) in w.pixels.iter().enumerate() {
        assert_eq!(*p, rgb565_to_bgr565(i as u16));
    }
}

#[test]
fn surface_binds_exactly_once() {
    let mut b = Bridge::new(128, 128);
    assert_eq!(b.create_surface(), Ok(()));
    assert_eq!(b.create_surface(), Err(BridgeError::SurfaceAlreadyBound));
    assert_eq!(b.create_surface(), Err(BridgeError::SurfaceAlreadyBound));
}

#[test]
fn animations_skip_the_repaint() {
    assert_eq!(repaint_step(true), LoopStep::PollAgain);
    assert_eq!(repaint_step(false), LoopStep::RenderAndSleep);
}

#[test]
fn pixel_conversion_swaps_red_and_blue() {
    assert_eq!(rgb565_to_bgr565(0xf800), 0x001f);
    assert_eq!(rgb565_to_bgr565(0x001f), 0xf800);
    assert_eq!(rgb565_to_bgr565(0x07e0), 0x07e0);
    assert_eq!(rgb565_to_bgr565(0x0000), 0x0000);
    assert_eq!(rgb565_to_bgr565(0xffff), 0xffff);
    // Converting twice gives the original pixel back.
    for p in [0x1234u16, 0xabcd, 0x5555, 0x8001] {
        assert_eq!(rgb565_to_bgr565(rgb565_to_bgr565(p)), p);
    }
}
