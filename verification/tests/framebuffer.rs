use tg_rcore_tutorial::framebuffer::{
    stage_for_app, tangram_pieces, FrameBuffer, Rect, TangramStage, COLOR_BG, COLOR_BLUE,
    COLOR_GOLD, COLOR_GREEN, COLOR_PINK, COLOR_RED, FB_HEIGHT, FB_WIDTH, TANGRAM_PIECES,
};
use tg_rcore_tutorial::tangram::Shape;

fn frame() -> FrameBuffer {
    FrameBuffer::probe((0, 0x8000_0000)).unwrap()
}

fn inside(r: &Rect, x: usize, y: usize) -> bool {
    let (x, y) = (x as i64, y as i64);
    let (rx, ry, rw, rh) = (r.x as i64, r.y as i64, r.w as i64, r.h as i64);
    rx <= x && x < rx + rw && ry <= y && y < ry + rh
}

fn expected_pixel(pieces: &[Rect], x: usize, y: usize) -> u32 {
    let mut c = COLOR_BG;
    for r in pieces {
        if inside(r, x, y) {
            c = r.color;
        }
    }
    c
}

fn same_image(a: &FrameBuffer, b: &FrameBuffer) -> bool {
    for y in 0..FB_HEIGHT {
        for x in 0..FB_WIDTH {
            if a.pixels().get(x, y) != b.pixels().get(x, y) {
                return false;
            }
        }
    }
    true
}

#[test]
fn rect_new_keeps_its_fields() {
    let r = Rect::new(-3, 4, 5, 6, 0x11);
    assert_eq!(r, Rect { x: -3, y: 4, w: 5, h: 6, color: 0x11 });
}

#[test]
fn probe_refuses_an_error_or_a_null_address() {
    assert!(FrameBuffer::probe((-1, 0x8000_0000)).is_none());
    assert!(FrameBuffer::probe((0, 0)).is_none());
    assert!(FrameBuffer::probe((-2, 0)).is_none());
    let fb = FrameBuffer::probe((0, 0x8000_0000)).unwrap();
    assert_eq!(fb.addr(), 0x8000_0000);
    assert_eq!(fb.pixels().width(), FB_WIDTH);
    assert_eq!(fb.pixels().height(), FB_HEIGHT);
    assert_eq!(fb.pixels().get(0, 0), 0);
    assert!(FrameBuffer::probe((5, 1)).is_some());
}

#[test]
fn framebuffer_pixel_address() {
    let fb = frame();
    assert_eq!(fb.pixel_address(0, 0), Some(0x8000_0000));
    assert_eq!(fb.pixel_address(3, 2), Some(0x8000_0000 + (2 * 1280 + 3) * 4));
    assert_eq!(fb.pixel_address(1280, 0), None);
    assert_eq!(fb.pixel_address(0, 720), None);
    let high = FrameBuffer::probe((0, usize::MAX - 4)).unwrap();
    assert_eq!(high.pixel_address(1, 0), Some(usize::MAX));
    assert_eq!(high.pixel_address(2, 0), None);
}

#[test]
fn stage_for_app_builds_o_then_s() {
    assert_eq!(stage_for_app(0), Some(TangramStage { shape: Shape::O, visible_pieces: 1 }));
    assert_eq!(stage_for_app(6), Some(TangramStage { shape: Shape::O, visible_pieces: 7 }));
    assert_eq!(stage_for_app(7), Some(TangramStage { shape: Shape::S, visible_pieces: 1 }));
    assert_eq!(stage_for_app(13), Some(TangramStage { shape: Shape::S, visible_pieces: 7 }));
    assert_eq!(stage_for_app(14), None);
    assert_eq!(stage_for_app(usize::MAX), None);
}

#[test]
fn pieces_of_each_letter() {
    let o = tangram_pieces(Shape::O);
    let s = tangram_pieces(Shape::S);
    assert_eq!(o.len(), TANGRAM_PIECES);
    assert_eq!(s.len(), TANGRAM_PIECES);
    assert_eq!(o[0], Rect::new(180, 120, 220, 28, COLOR_RED));
    assert_eq!(o[6], Rect::new(268, 196, 52, 108, COLOR_PINK));
    assert_eq!(s[3], Rect::new(636, 120, 28, 128, COLOR_GREEN));
    assert_eq!(s[4], Rect::new(816, 220, 28, 128, COLOR_GOLD));
}

#[test]
fn clear_paints_the_background() {
    let mut fb = frame();
    fb.clear();
    assert_eq!(fb.pixels().get(0, 0), COLOR_BG);
    assert_eq!(fb.pixels().get(1279, 719), COLOR_BG);
    assert_eq!(fb.pixels().get(640, 360), COLOR_BG);
}

#[test]
fn draw_rect_clips_negative_and_far_corners() {
    let mut fb = frame();
    fb.draw_rect(Rect::new(-5, -5, 10, 10, 7));
    fb.draw_rect(Rect::new(1275, 715, 100, 100, 8));
    fb.draw_rect(Rect::new(100, 100, -4, 10, 9));
    fb.draw_rect(Rect::new(i32::MAX, 0, 1, 1, 9));
    assert_eq!(fb.pixels().get(0, 0), 7);
    assert_eq!(fb.pixels().get(4, 4), 7);
    assert_eq!(fb.pixels().get(5, 4), 0);
    assert_eq!(fb.pixels().get(1275, 715), 8);
    assert_eq!(fb.pixels().get(1279, 719), 8);
    assert_eq!(fb.pixels().get(1274, 719), 0);
    assert_eq!(fb.pixels().get(100, 100), 0);
    assert_eq!(fb.pixels().get(99, 100), 0);
}

#[test]
fn drawing_a_rect_twice_is_drawing_it_once() {
    let r = Rect::new(10, 20, 30, 40, 0xABCDEF);
    let mut once = frame();
    once.draw_rect(r);
    let mut twice = frame();
    twice.draw_rect(r);
    twice.draw_rect(r);
    assert!(same_image(&once, &twice));
}

#[test]
fn draw_stage_shows_the_first_pieces_in_order() {
    let pieces = tangram_pieces(Shape::O);
    let mut fb = frame();
    fb.draw_rect(Rect::new(0, 0, 1280, 720, 0x123456));
    fb.draw_stage(TangramStage { shape: Shape::O, visible_pieces: 3 });
    for y in (0..FB_HEIGHT).step_by(4) {
        for x in (0..FB_WIDTH).step_by(4) {
            assert_eq!(fb.pixels().get(x, y), expected_pixel(&pieces[..3], x, y));
        }
    }
    assert_eq!(fb.pixels().get(180, 120), COLOR_GREEN);
    assert_eq!(fb.pixels().get(200, 340), COLOR_BLUE);
    assert_eq!(fb.pixels().get(399, 130), COLOR_RED);
    assert_eq!(fb.pixels().get(395, 200), COLOR_BG);
}

#[test]
fn zero_visible_pieces_is_a_cleared_screen() {
    let mut fb = frame();
    fb.draw_stage(TangramStage { shape: Shape::S, visible_pieces: 0 });
    let mut cleared = frame();
    cleared.clear();
    assert!(same_image(&fb, &cleared));
}

#[test]
fn more_than_seven_pieces_is_the_whole_letter() {
    let mut many = frame();
    many.draw_stage(TangramStage { shape: Shape::S, visible_pieces: 100 });
    let mut seven = frame();
    seven.draw_stage(TangramStage { shape: Shape::S, visible_pieces: 7 });
    assert!(same_image(&many, &seven));
}

#[test]
fn each_app_adds_one_piece_on_top() {
    let pieces = tangram_pieces(Shape::S);
    let mut prev = frame();
    prev.draw_stage(stage_for_app(9).unwrap());
    let mut next = frame();
    next.draw_stage(stage_for_app(10).unwrap());
    prev.draw_rect(pieces[3]);
    assert!(same_image(&prev, &next));
}

#[test]
fn last_app_of_each_letter_shows_all_pieces() {
    for (app, shape) in [(6usize, Shape::O), (13usize, Shape::S)] {
        let pieces = tangram_pieces(shape);
        let mut fb = frame();
        fb.draw_stage(stage_for_app(app).unwrap());
        for r in &pieces {
            let cx = (r.x + r.w / 2) as usize;
            let cy = (r.y + r.h / 2) as usize;
            assert_eq!(fb.pixels().get(cx, cy), expected_pixel(&pieces, cx, cy));
        }
        assert_eq!(fb.pixels().get(292, 250), if shape == Shape::O { COLOR_PINK } else { COLOR_BG });
    }
}
