use tg_rcore_tutorial::display::{
    clear_screen, draw_o, draw_pixel, draw_s, fill_rect, gpu_init_writes, new_screen,
    pixel_address, BLACK, BLUE, GREEN, RED, SCREEN_HEIGHT, SCREEN_WIDTH, VIRTIO_GPU_FB_ADDR,
};
use tg_rcore_tutorial::pixels::PixelBuffer;

#[test]
fn gpu_init_programs_mode_size_and_enable() {
    assert_eq!(
        gpu_init_writes(),
        vec![
            (0x8000_1010, 0x100),
            (0x8000_101C, 800),
            (0x8000_1020, 600),
            (0x8000_1014, 0x101),
        ]
    );
}

#[test]
fn screen_is_800_by_600_and_black() {
    let screen = new_screen();
    assert_eq!(screen.width(), SCREEN_WIDTH);
    assert_eq!(screen.height(), SCREEN_HEIGHT);
    assert_eq!(screen.get(0, 0), BLACK);
    assert_eq!(screen.get(799, 599), BLACK);
}

#[test]
fn pixel_address_of_the_screen() {
    assert_eq!(pixel_address(0, 0), Some(VIRTIO_GPU_FB_ADDR));
    assert_eq!(pixel_address(1, 0), Some(0x1000_0004));
    assert_eq!(pixel_address(0, 1), Some(0x1000_0000 + 800 * 4));
    assert_eq!(pixel_address(799, 599), Some(0x1000_0000 + (599 * 800 + 799) * 4));
    assert_eq!(pixel_address(800, 0), None);
    assert_eq!(pixel_address(0, 600), None);
}

#[test]
fn draw_pixel_inside_and_off_screen() {
    let mut screen = PixelBuffer::new(4, 4, 0);
    draw_pixel(&mut screen, 1, 2, GREEN);
    draw_pixel(&mut screen, 4, 0, RED);
    draw_pixel(&mut screen, 0, 4, RED);
    for y in 0..4 {
        for x in 0..4 {
            let expected = if x == 1 && y == 2 { GREEN } else { 0 };
            assert_eq!(screen.get(x, y), expected);
        }
    }
}

#[test]
fn fill_rect_clips_at_the_edge() {
    let mut screen = PixelBuffer::new(6, 5, 0);
    fill_rect(&mut screen, 4, 3, 10, 10, 5);
    for y in 0..5 {
        for x in 0..6 {
            let expected = if x >= 4 && y >= 3 { 5 } else { 0 };
            assert_eq!(screen.get(x, y), expected);
        }
    }
}

#[test]
fn fill_rect_with_no_area_changes_nothing() {
    let mut screen = PixelBuffer::new(3, 3, 1);
    fill_rect(&mut screen, 0, 0, 0, 3, 5);
    fill_rect(&mut screen, 0, 0, 3, 0, 5);
    fill_rect(&mut screen, usize::MAX, 0, 1, 1, 5);
    for y in 0..3 {
        for x in 0..3 {
            assert_eq!(screen.get(x, y), 1);
        }
    }
}

#[test]
fn clear_screen_paints_everything_black() {
    let mut screen = PixelBuffer::new(7, 3, 42);
    clear_screen(&mut screen);
    for y in 0..3 {
        for x in 0..7 {
            assert_eq!(screen.get(x, y), BLACK);
        }
    }
}

#[test]
fn letter_o_is_a_red_ring() {
    let mut screen = new_screen();
    draw_o(&mut screen);
    assert_eq!(screen.get(150, 100), RED);
    assert_eq!(screen.get(249, 219), RED);
    assert_eq!(screen.get(160, 110), RED);
    assert_eq!(screen.get(170, 120), BLACK);
    assert_eq!(screen.get(229, 199), BLACK);
    assert_eq!(screen.get(230, 199), RED);
    assert_eq!(screen.get(250, 100), BLACK);
    assert_eq!(screen.get(149, 100), BLACK);
    assert_eq!(screen.get(150, 220), BLACK);
}

#[test]
fn letter_s_is_three_blue_blocks() {
    let mut screen = new_screen();
    draw_s(&mut screen);
    assert_eq!(screen.get(450, 100), BLUE);
    assert_eq!(screen.get(549, 149), BLUE);
    assert_eq!(screen.get(549, 150), BLACK);
    assert_eq!(screen.get(460, 160), BLUE);
    assert_eq!(screen.get(500, 160), BLACK);
    assert_eq!(screen.get(549, 219), BLUE);
    assert_eq!(screen.get(549, 220), BLACK);
    assert_eq!(screen.get(449, 120), BLACK);
}
