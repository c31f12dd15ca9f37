use tg_rcore_tutorial::pixels::{pixel_address, PixelBuffer, PIXEL_BYTES};

#[test]
fn new_buffer_has_every_pixel_of_the_color() {
    let buf = PixelBuffer::new(4, 3, 7);
    assert_eq!(buf.width(), 4);
    assert_eq!(buf.height(), 3);
    for y in 0..3 {
        for x in 0..4 {
            assert_eq!(buf.get(x, y), 7);
        }
    }
}

#[test]
fn set_changes_exactly_one_pixel() {
    let mut buf = PixelBuffer::new(5, 4, 0);
    buf.set(2, 3, 9);
    for y in 0..4 {
        for x in 0..5 {
            let expected = if x == 2 && y == 3 { 9 } else { 0 };
            assert_eq!(buf.get(x, y), expected);
        }
    }
}

#[test]
fn pixel_address_follows_the_row_major_formula() {
    assert_eq!(pixel_address(0x1000, 10, 5, 3, 2), Some(0x1000 + (2 * 10 + 3) * 4));
    assert_eq!(pixel_address(0x1000, 10, 5, 0, 0), Some(0x1000));
    assert_eq!(pixel_address(0x1000, 10, 5, 9, 4), Some(0x1000 + 49 * PIXEL_BYTES));
}

#[test]
fn pixel_address_is_none_off_screen() {
    assert_eq!(pixel_address(0x1000, 10, 5, 10, 0), None);
    assert_eq!(pixel_address(0x1000, 10, 5, 0, 5), None);
    assert_eq!(pixel_address(0x1000, 0, 0, 0, 0), None);
}

#[test]
fn pixel_address_is_none_when_it_overflows() {
    let base = usize::MAX - 3;
    assert_eq!(pixel_address(base, 10, 5, 0, 0), Some(base));
    assert_eq!(pixel_address(base, 10, 5, 1, 0), None);
    assert_eq!(pixel_address(0, usize::MAX, 5, 0, 4), None);
}

#[test]
fn distinct_pixels_have_distinct_addresses_inside_the_framebuffer() {
    let (w, h, base) = (7usize, 5usize, 0x2000usize);
    let mut seen = Vec::new();
    for y in 0..h {
        for x in 0..w {
            let a = pixel_address(base, w, h, x, y).unwrap();
            assert!(a >= base && a + PIXEL_BYTES <= base + w * h * PIXEL_BYTES);
            assert!(!seen.contains(&a));
            seen.push(a);
        }
    }
}
