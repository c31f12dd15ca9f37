//! The first display demo: an 800 x 600 VirtIO-GPU framebuffer at a fixed physical
//! address, on which the letters O and S are drawn from filled rectangles.
//!
//! The image is kept in a [`PixelBuffer`]; the program that owns the device copies
//! it to the framebuffer memory, pixel `(x, y)` going to [`pixel_address`]`(x, y)`.
use vstd::prelude::*;
use crate::pixels::{
    PixelBuffer,
    fill_box,
    lemma_fill_box_extend_column,
    lemma_fill_box_extend_row,
    lemma_fill_box_no_columns,
    lemma_fill_box_no_rows,
    pixel_address_spec,
    pixel_index,
    lemma_pixel_index_bounds,
};

verus! {

/// Physical address of the framebuffer.
pub const VIRTIO_GPU_FB_ADDR: usize = 0x1000_0000;
/// Width of the screen in pixels.
pub const SCREEN_WIDTH: usize = 800;
/// Height of the screen in pixels.
pub const SCREEN_HEIGHT: usize = 600;
/// Base address of the GPU control registers.
pub const GPU_REG_BASE: usize = 0x8000_1000;

/// Opaque black.
pub const BLACK: u32 = 0xFF00_0000;
/// Opaque red.
pub const RED: u32 = 0xFFFF_0000;
/// Opaque blue.
pub const BLUE: u32 = 0xFF00_00FF;
/// Opaque green.
pub const GREEN: u32 = 0xFF00_FF00;

/// The register writes that switch the display on, in the order they are made:
/// the mode register, the width, the height, then the enable register.
pub open spec fn gpu_init_spec() -> Seq<(usize, u32)> {
    seq![
        (0x8000_1010usize, 0x100u32),
        (0x8000_101Cusize, 800u32),
        (0x8000_1020usize, 600u32),
        (0x8000_1014usize, 0x101u32),
    ]
}

/// The `(register address, value)` writes that initialise the display, in order.
pub fn gpu_init_writes() -> (writes: Vec<(usize, u32)>)
    ensures
        writes@ == gpu_init_spec(),
{
    let mut writes: Vec<(usize, u32)> = Vec::new();
    writes.push((GPU_REG_BASE + 0x10, 0x100));
    writes.push((GPU_REG_BASE + 0x1C, 800u32));
    writes.push((GPU_REG_BASE + 0x20, 600u32));
    writes.push((GPU_REG_BASE + 0x14, 0x101));
    assert(writes@ =~= gpu_init_spec());
    writes
}

/// A screen-sized image, all black.
pub fn new_screen() -> (screen: PixelBuffer)
    ensures
        screen.wf(),
        screen.spec_width() == SCREEN_WIDTH,
        screen.spec_height() == SCREEN_HEIGHT,
        screen@ == Seq::new((SCREEN_WIDTH * SCREEN_HEIGHT) as nat, |i: int| BLACK),
{
    PixelBuffer::new(SCREEN_WIDTH, SCREEN_HEIGHT, BLACK)
}

/// Address of pixel `(x, y)` in framebuffer memory, `None` when it lies off screen.
pub fn pixel_address(x: usize, y: usize) -> (addr: Option<usize>)
    ensures
        addr is Some <==> (x < SCREEN_WIDTH && y < SCREEN_HEIGHT),
        addr is Some ==> addr->0 == pixel_address_spec(
            VIRTIO_GPU_FB_ADDR as int,
            SCREEN_WIDTH as int,
            x as int,
            y as int,
        ),
{
    proof {
        if x < SCREEN_WIDTH && y < SCREEN_HEIGHT {
            assert(y * 800 + x <= 599 * 800 + 799) by (nonlinear_arith)
                requires
                    x < 800,
                    y < 600,
            ;
        }
    }
    crate::pixels::pixel_address(VIRTIO_GPU_FB_ADDR, SCREEN_WIDTH, SCREEN_HEIGHT, x, y)
}

/// Sets pixel `(x, y)` to `color`; a pixel off screen is ignored.
pub fn draw_pixel(screen: &mut PixelBuffer, x: usize, y: usize, color: u32)
    requires
        old(screen).wf(),
    ensures
        final(screen).wf(),
        final(screen).spec_width() == old(screen).spec_width(),
        final(screen).spec_height() == old(screen).spec_height(),
        final(screen)@ == fill_box(
            old(screen)@,
            old(screen).spec_width() as int,
            x as int,
            y as int,
            x + 1,
            y + 1,
            color,
        ),
{
    if x >= screen.width() || y >= screen.height() {
        proof {
            crate::pixels::lemma_fill_cell(
                screen@,
                screen.spec_width() as int,
                screen.spec_height() as int,
                x as int,
                y as int,
                color,
            );
        }
        return;
    }
    screen.set(x, y, color);
}

/// Fills the `w * h` rectangle whose top-left corner is `(x, y)` with `color`; the
/// part of it off screen is ignored.
pub fn fill_rect(screen: &mut PixelBuffer, x: usize, y: usize, w: usize, h: usize, c: u32)
    requires
        old(screen).wf(),
        w > 0 && h > 0 ==> x + w - 1 <= usize::MAX && y + h - 1 <= usize::MAX,
    ensures
        final(screen).wf(),
        final(screen).spec_width() == old(screen).spec_width(),
        final(screen).spec_height() == old(screen).spec_height(),
        final(screen)@ == fill_box(
            old(screen)@,
            old(screen).spec_width() as int,
            x as int,
            y as int,
            x + w,
            y + h,
            c,
        ),
{
    let ghost s0 = screen@;
    let ghost width = screen.spec_width() as int;
    let ghost height = screen.spec_height();
    proof {
        lemma_fill_box_no_rows(s0, width, x as int, x + w, y as int, c);
    }
    let mut dy: usize = 0;
    while dy < h
        invariant
            dy <= h,
            screen.wf(),
            screen.spec_width() == width,
            screen.spec_height() == height,
            w > 0 && h > 0 ==> x + w - 1 <= usize::MAX && y + h - 1 <= usize::MAX,
            screen@ == fill_box(s0, width, x as int, y as int, x + w, y + dy, c),
        decreases h - dy,
    {
        let ghost t = screen@;
        proof {
            lemma_fill_box_no_columns(t, width, x as int, y + dy, y + dy + 1, c);
        }
        let mut dx: usize = 0;
        while dx < w
            invariant
                dx <= w,
                dy < h,
                screen.wf(),
                screen.spec_width() == width,
                screen.spec_height() == height,
                w > 0 && h > 0 ==> x + w - 1 <= usize::MAX && y + h - 1 <= usize::MAX,
                t == fill_box(s0, width, x as int, y as int, x + w, y + dy, c),
                screen@ == fill_box(t, width, x as int, y + dy, x + dx, y + dy + 1, c),
            decreases w - dx,
        {
            draw_pixel(screen, x + dx, y + dy, c);
            proof {
                lemma_fill_box_extend_column(t, width, x as int, x + dx, y + dy, c);
            }
            dx = dx + 1;
        }
        proof {
            lemma_fill_box_extend_row(s0, width, x as int, x + w, y as int, y + dy, c);
        }
        dy = dy + 1;
    }
}

/// Paints the whole screen black.
pub fn clear_screen(screen: &mut PixelBuffer)
    requires
        old(screen).wf(),
    ensures
        final(screen).wf(),
        final(screen).spec_width() == old(screen).spec_width(),
        final(screen).spec_height() == old(screen).spec_height(),
        final(screen)@ == Seq::new(old(screen)@.len(), |i: int| BLACK),
{
    let w = screen.width();
    let h = screen.height();
    fill_rect(screen, 0, 0, w, h, BLACK);
    proof {
        crate::pixels::lemma_fill_box_whole(old(screen)@, w as int, h as int, BLACK);
    }
}

/// The letter O: a red block with a black hole in it.
pub open spec fn letter_o(s: Seq<u32>, width: int) -> Seq<u32> {
    fill_box(fill_box(s, width, 150, 100, 250, 220, RED), width, 170, 120, 230, 200, BLACK)
}

/// The letter S: three blue blocks, a top bar, a bottom bar and a left post.
pub open spec fn letter_s(s: Seq<u32>, width: int) -> Seq<u32> {
    fill_box(
        fill_box(fill_box(s, width, 450, 100, 550, 150, BLUE), width, 450, 170, 550, 220, BLUE),
        width,
        450,
        100,
        490,
        220,
        BLUE,
    )
}

/// The letter O, pixel by pixel: on a `width * height` image, pixel `(x, y)` is black
/// in the hole `[170, 230) x [120, 200)`, red in the rest of the block
/// `[150, 250) x [100, 220)` (a ring closed on all four sides), and unchanged elsewhere.
pub proof fn lemma_letter_o_pixel(s: Seq<u32>, width: int, height: int, x: int, y: int)
    requires
        s.len() == width * height,
        0 <= x < width,
        0 <= y < height,
    ensures
        letter_o(s, width).len() == s.len(),
        letter_o(s, width)[y * width + x] == (if 170 <= x < 230 && 120 <= y < 200 {
            BLACK
        } else if 150 <= x < 250 && 100 <= y < 220 {
            RED
        } else {
            s[y * width + x]
        }),
{
    lemma_pixel_index_bounds(width, height, x, y);
}

/// The letter S, pixel by pixel: on a `width * height` image, pixel `(x, y)` is blue in
/// the top bar `[450, 550) x [100, 150)`, the bottom bar `[450, 550) x [170, 220)` and
/// the left post `[450, 490) x [100, 220)`, and unchanged elsewhere.
pub proof fn lemma_letter_s_pixel(s: Seq<u32>, width: int, height: int, x: int, y: int)
    requires
        s.len() == width * height,
        0 <= x < width,
        0 <= y < height,
    ensures
        letter_s(s, width).len() == s.len(),
        letter_s(s, width)[y * width + x] == (if (450 <= x < 550 && 100 <= y < 150) || (450 <= x
            < 550 && 170 <= y < 220) || (450 <= x < 490 && 100 <= y < 220) {
            BLUE
        } else {
            s[y * width + x]
        }),
{
    lemma_pixel_index_bounds(width, height, x, y);
}

/// Draws the letter O.
pub fn draw_o(screen: &mut PixelBuffer)
    requires
        old(screen).wf(),
    ensures
        final(screen).wf(),
        final(screen).spec_width() == old(screen).spec_width(),
        final(screen).spec_height() == old(screen).spec_height(),
        final(screen)@ == letter_o(old(screen)@, old(screen).spec_width() as int),
        forall|x: int, y: int|
            0 <= x < old(screen).spec_width() && 0 <= y < old(screen).spec_height()
                ==> #[trigger] final(screen)@[pixel_index(old(screen).spec_width() as int, x, y)]
                == (if 170 <= x < 230 && 120 <= y < 200 {
                BLACK
            } else if 150 <= x < 250 && 100 <= y < 220 {
                RED
            } else {
                old(screen)@[pixel_index(old(screen).spec_width() as int, x, y)]
            }),
{
    let ghost s0 = screen@;
    fill_rect(screen, 150, 100, 100, 120, RED);
    fill_rect(screen, 170, 120, 60, 80, BLACK);
    proof {
        let w = screen.spec_width() as int;
        let h = screen.spec_height() as int;
        assert forall|x: int, y: int| 0 <= x < w && 0 <= y < h implies #[trigger] screen@[pixel_index(
            w,
            x,
            y,
        )] == (if 170 <= x < 230 && 120 <= y < 200 {
            BLACK
        } else if 150 <= x < 250 && 100 <= y < 220 {
            RED
        } else {
            s0[pixel_index(w, x, y)]
        }) by {
            lemma_letter_o_pixel(s0, w, h, x, y);
        }
    }
}

/// Draws the letter S.
pub fn draw_s(screen: &mut PixelBuffer)
    requires
        old(screen).wf(),
    ensures
        final(screen).wf(),
        final(screen).spec_width() == old(screen).spec_width(),
        final(screen).spec_height() == old(screen).spec_height(),
        final(screen)@ == letter_s(old(screen)@, old(screen).spec_width() as int),
        forall|x: int, y: int|
            0 <= x < old(screen).spec_width() && 0 <= y < old(screen).spec_height()
                ==> #[trigger] final(screen)@[pixel_index(old(screen).spec_width() as int, x, y)]
                == (if (450 <= x < 550 && 100 <= y < 150) || (450 <= x < 550 && 170 <= y < 220) || (
            450 <= x < 490 && 100 <= y < 220) {
                BLUE
            } else {
                old(screen)@[pixel_index(old(screen).spec_width() as int, x, y)]
            }),
{
    let ghost s0 = screen@;
    fill_rect(screen, 450, 100, 100, 50, BLUE);
    fill_rect(screen, 450, 170, 100, 50, BLUE);
    fill_rect(screen, 450, 100, 40, 120, BLUE);
    proof {
        let w = screen.spec_width() as int;
        let h = screen.spec_height() as int;
        assert forall|x: int, y: int| 0 <= x < w && 0 <= y < h implies #[trigger] screen@[pixel_index(
            w,
            x,
            y,
        )] == (if (450 <= x < 550 && 100 <= y < 150) || (450 <= x < 550 && 170 <= y < 220) || (450
            <= x < 490 && 100 <= y < 220) {
            BLUE
        } else {
            s0[pixel_index(w, x, y)]
        }) by {
            lemma_letter_s_pixel(s0, w, h, x, y);
        }
    }
}

} // verus!
