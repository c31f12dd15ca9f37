//! The batch kernel's tangram display: a 1280 x 720 framebuffer on which the pieces of
//! the letters O and S appear one batch after another.
//!
//! The image is kept in a [`PixelBuffer`]; the program that owns the device copies it
//! to the framebuffer memory, pixel `(x, y)` going to
//! [`FrameBuffer::pixel_address`]`(x, y)`.
use vstd::prelude::*;
use crate::pixels::{
    PixelBuffer,
    fill_box,
    lemma_fill_box_extend_column,
    lemma_fill_box_extend_row,
    lemma_fill_box_no_columns,
    lemma_fill_box_no_rows,
    lemma_fill_box_whole,
    lemma_fill_cell,
    pixel_address_spec,
    pixel_index,
    lemma_pixel_index_bounds,
};
use crate::tangram::Shape;

verus! {

/// Width of the framebuffer in pixels.
pub const FB_WIDTH: usize = 1280;
/// Height of the framebuffer in pixels.
pub const FB_HEIGHT: usize = 720;
/// Number of pieces in each letter.
pub const TANGRAM_PIECES: usize = 7;

/// Background color.
pub const COLOR_BG: u32 = 0x0014_1418;
/// Red.
pub const COLOR_RED: u32 = 0x00D6_4B4B;
/// Blue.
pub const COLOR_BLUE: u32 = 0x0048_88D9;
/// Green.
pub const COLOR_GREEN: u32 = 0x004E_BF85;
/// Gold.
pub const COLOR_GOLD: u32 = 0x00E2_B714;
/// Orange.
pub const COLOR_ORANGE: u32 = 0x00E2_8B38;
/// Cyan.
pub const COLOR_CYAN: u32 = 0x003A_BDD6;
/// Pink.
pub const COLOR_PINK: u32 = 0x00D9_6AB3;

/// A filled rectangle: top-left corner `(x, y)`, size `w * h`, and its color.
#[derive(Clone, Copy, Debug, PartialEq, Eq, Structural)]
pub struct Rect {
    pub x: i32,
    pub y: i32,
    pub w: i32,
    pub h: i32,
    pub color: u32,
}

impl Rect {
    /// The rectangle with the given corner, size and color.
    pub fn new(x: i32, y: i32, w: i32, h: i32, color: u32) -> (r: Self)
        ensures
            r == (Rect { x, y, w, h, color }),
    {
        Rect { x, y, w, h, color }
    }

    /// The last column and the last row of the rectangle fit in an `i32`, so that
    /// walking over its pixels does not overflow.
    pub open spec fn fits(self) -> bool {
        self.w > 0 && self.h > 0 ==> self.x + self.w - 1 <= i32::MAX && self.y + self.h - 1 <= i32::MAX
    }
}

/// One batch of the tangram: the letter and how many of its pieces are shown.
#[derive(Clone, Copy, Debug, PartialEq, Eq, Structural)]
pub struct TangramStage {
    pub shape: Shape,
    pub visible_pieces: usize,
}

/// The pieces of the letter O, in the order they appear.
pub open spec fn o_pieces() -> Seq<Rect> {
    seq![
        Rect { x: 180, y: 120, w: 220, h: 28, color: COLOR_RED },
        Rect { x: 180, y: 332, w: 220, h: 28, color: COLOR_BLUE },
        Rect { x: 166, y: 120, w: 28, h: 240, color: COLOR_GREEN },
        Rect { x: 392, y: 120, w: 28, h: 240, color: COLOR_GOLD },
        Rect { x: 208, y: 152, w: 168, h: 44, color: COLOR_ORANGE },
        Rect { x: 208, y: 260, w: 168, h: 44, color: COLOR_CYAN },
        Rect { x: 268, y: 196, w: 52, h: 108, color: COLOR_PINK },
    ]
}

/// The pieces of the letter S, in the order they appear.
pub open spec fn s_pieces() -> Seq<Rect> {
    seq![
        Rect { x: 650, y: 120, w: 180, h: 28, color: COLOR_RED },
        Rect { x: 650, y: 220, w: 180, h: 28, color: COLOR_ORANGE },
        Rect { x: 650, y: 320, w: 180, h: 28, color: COLOR_BLUE },
        Rect { x: 636, y: 120, w: 28, h: 128, color: COLOR_GREEN },
        Rect { x: 816, y: 220, w: 28, h: 128, color: COLOR_GOLD },
        Rect { x: 676, y: 168, w: 74, h: 32, color: COLOR_CYAN },
        Rect { x: 736, y: 268, w: 74, h: 32, color: COLOR_PINK },
    ]
}

/// The pieces of a letter, in the order they appear.
pub open spec fn pieces_spec(shape: Shape) -> Seq<Rect> {
    match shape {
        Shape::O => o_pieces(),
        Shape::S => s_pieces(),
    }
}

/// The pieces of `shape`, in the order they appear.
pub fn tangram_pieces(shape: Shape) -> (pieces: Vec<Rect>)
    ensures
        pieces@ == pieces_spec(shape),
{
    let mut pieces: Vec<Rect> = Vec::new();
    match shape {
        Shape::O => {
            pieces.push(Rect::new(180, 120, 220, 28, COLOR_RED));
            pieces.push(Rect::new(180, 332, 220, 28, COLOR_BLUE));
            pieces.push(Rect::new(166, 120, 28, 240, COLOR_GREEN));
            pieces.push(Rect::new(392, 120, 28, 240, COLOR_GOLD));
            pieces.push(Rect::new(208, 152, 168, 44, COLOR_ORANGE));
            pieces.push(Rect::new(208, 260, 168, 44, COLOR_CYAN));
            pieces.push(Rect::new(268, 196, 52, 108, COLOR_PINK));
            assert(pieces@ =~= o_pieces());
        },
        Shape::S => {
            pieces.push(Rect::new(650, 120, 180, 28, COLOR_RED));
            pieces.push(Rect::new(650, 220, 180, 28, COLOR_ORANGE));
            pieces.push(Rect::new(650, 320, 180, 28, COLOR_BLUE));
            pieces.push(Rect::new(636, 120, 28, 128, COLOR_GREEN));
            pieces.push(Rect::new(816, 220, 28, 128, COLOR_GOLD));
            pieces.push(Rect::new(676, 168, 74, 32, COLOR_CYAN));
            pieces.push(Rect::new(736, 268, 74, 32, COLOR_PINK));
            assert(pieces@ =~= s_pieces());
        },
    }
    pieces
}

/// The image `s` with the rectangle `r` drawn on it.
pub open spec fn paint_rect(s: Seq<u32>, r: Rect) -> Seq<u32> {
    fill_box(s, FB_WIDTH as int, r.x as int, r.y as int, r.x + r.w, r.y + r.h, r.color)
}

/// The image `s` with the first `n` rectangles of `rects` drawn on it, in order.
pub open spec fn paint_rects(s: Seq<u32>, rects: Seq<Rect>, n: nat) -> Seq<u32>
    decreases n,
{
    if n == 0 {
        s
    } else {
        paint_rect(paint_rects(s, rects, (n - 1) as nat), rects[n - 1])
    }
}

/// The cleared screen: every pixel has the background color.
pub open spec fn background() -> Seq<u32> {
    Seq::new((FB_WIDTH * FB_HEIGHT) as nat, |i: int| COLOR_BG)
}

/// Number of pieces that a stage shows: at most the whole letter.
pub open spec fn shown_pieces(stage: TangramStage) -> nat {
    if stage.visible_pieces < TANGRAM_PIECES {
        stage.visible_pieces as nat
    } else {
        TANGRAM_PIECES as nat
    }
}

/// The image of a stage: the cleared screen with the shown pieces drawn in order.
pub open spec fn stage_image(stage: TangramStage) -> Seq<u32> {
    paint_rects(background(), pieces_spec(stage.shape), shown_pieces(stage))
}

/// Every piece of every letter can be walked over without overflow.
pub proof fn lemma_pieces_fit(shape: Shape)
    ensures
        pieces_spec(shape).len() == TANGRAM_PIECES,
        forall|i: int| 0 <= i < TANGRAM_PIECES ==> (#[trigger] pieces_spec(shape)[i]).fits(),
{
    assert forall|i: int| 0 <= i < TANGRAM_PIECES implies (#[trigger] pieces_spec(shape)[i]).fits() by {
        if i == 0 {} else if i == 1 {} else if i == 2 {} else if i == 3 {} else if i == 4 {} else if i == 5 {} else {}
    }
}

/// The batch shown while app `app_index` runs: apps 0 to 6 build the letter O one piece
/// at a time, apps 7 to 13 build the letter S, and later apps show nothing.
pub open spec fn stage_for_app_spec(app_index: usize) -> Option<TangramStage> {
    if app_index < TANGRAM_PIECES {
        Some(TangramStage { shape: Shape::O, visible_pieces: (app_index + 1) as usize })
    } else if app_index < 2 * TANGRAM_PIECES {
        Some(TangramStage { shape: Shape::S, visible_pieces: (app_index - TANGRAM_PIECES + 1) as usize })
    } else {
        None
    }
}

/// The batch shown while app `app_index` runs.
pub fn stage_for_app(app_index: usize) -> (stage: Option<TangramStage>)
    ensures
        stage == stage_for_app_spec(app_index),
{
    if app_index < TANGRAM_PIECES {
        Some(TangramStage { shape: Shape::O, visible_pieces: app_index + 1 })
    } else if app_index < TANGRAM_PIECES * 2 {
        Some(TangramStage { shape: Shape::S, visible_pieces: app_index - TANGRAM_PIECES + 1 })
    } else {
        None
    }
}

/// Each app of a letter shows exactly one piece more than the app before it: its image
/// is the previous image with the next piece drawn on top.
pub proof fn lemma_next_app_adds_one_piece(app_index: usize)
    requires
        app_index + 1 < 2 * TANGRAM_PIECES,
        app_index + 1 != TANGRAM_PIECES,
    ensures
        ({
            let prev = stage_for_app_spec(app_index)->0;
            let next = stage_for_app_spec((app_index + 1) as usize)->0;
            &&& stage_for_app_spec(app_index) is Some
            &&& stage_for_app_spec((app_index + 1) as usize) is Some
            &&& next.shape == prev.shape
            &&& next.visible_pieces == prev.visible_pieces + 1
            &&& stage_image(next) == paint_rect(
                stage_image(prev),
                pieces_spec(prev.shape)[prev.visible_pieces as int],
            )
        }),
{
}

/// The first app of each letter shows its first piece alone on the cleared screen.
pub proof fn lemma_first_app_of_letter(app_index: usize)
    requires
        app_index == 0 || app_index == TANGRAM_PIECES,
    ensures
        stage_for_app_spec(app_index) is Some,
        stage_image(stage_for_app_spec(app_index)->0) == paint_rect(
            background(),
            pieces_spec(stage_for_app_spec(app_index)->0.shape)[0],
        ),
{
    reveal_with_fuel(paint_rects, 2);
}

/// Drawing a rectangle, pixel by pixel: an on-screen pixel `(x, y)` takes the
/// rectangle's color exactly when `r.x <= x < r.x + r.w` and `r.y <= y < r.y + r.h`,
/// and keeps its color otherwise; nothing off screen reaches the image.
pub proof fn lemma_paint_rect_pixel(s: Seq<u32>, r: Rect, x: int, y: int)
    requires
        s.len() == FB_WIDTH * FB_HEIGHT,
        0 <= x < FB_WIDTH,
        0 <= y < FB_HEIGHT,
    ensures
        paint_rect(s, r).len() == s.len(),
        paint_rect(s, r)[y * 1280 + x] == (if r.x <= x < r.x + r.w && r.y <= y < r.y + r.h {
            r.color
        } else {
            s[y * 1280 + x]
        }),
{
    lemma_pixel_index_bounds(FB_WIDTH as int, FB_HEIGHT as int, x, y);
}

/// Drawing rectangles keeps the size of the image.
pub proof fn lemma_paint_rects_len(s: Seq<u32>, rects: Seq<Rect>, n: nat)
    ensures
        paint_rects(s, rects, n).len() == s.len(),
    decreases n,
{
    if n > 0 {
        lemma_paint_rects_len(s, rects, (n - 1) as nat);
    }
}

/// The pieces of the two letters, corner, size and color, in the order they appear.
pub proof fn lemma_piece_tables()
    ensures
        pieces_spec(Shape::O).len() == 7,
        pieces_spec(Shape::O)[0] == (Rect { x: 180, y: 120, w: 220, h: 28, color: 0x00D6_4B4B }),
        pieces_spec(Shape::O)[1] == (Rect { x: 180, y: 332, w: 220, h: 28, color: 0x0048_88D9 }),
        pieces_spec(Shape::O)[2] == (Rect { x: 166, y: 120, w: 28, h: 240, color: 0x004E_BF85 }),
        pieces_spec(Shape::O)[3] == (Rect { x: 392, y: 120, w: 28, h: 240, color: 0x00E2_B714 }),
        pieces_spec(Shape::O)[4] == (Rect { x: 208, y: 152, w: 168, h: 44, color: 0x00E2_8B38 }),
        pieces_spec(Shape::O)[5] == (Rect { x: 208, y: 260, w: 168, h: 44, color: 0x003A_BDD6 }),
        pieces_spec(Shape::O)[6] == (Rect { x: 268, y: 196, w: 52, h: 108, color: 0x00D9_6AB3 }),
        pieces_spec(Shape::S).len() == 7,
        pieces_spec(Shape::S)[0] == (Rect { x: 650, y: 120, w: 180, h: 28, color: 0x00D6_4B4B }),
        pieces_spec(Shape::S)[1] == (Rect { x: 650, y: 220, w: 180, h: 28, color: 0x00E2_8B38 }),
        pieces_spec(Shape::S)[2] == (Rect { x: 650, y: 320, w: 180, h: 28, color: 0x0048_88D9 }),
        pieces_spec(Shape::S)[3] == (Rect { x: 636, y: 120, w: 28, h: 128, color: 0x004E_BF85 }),
        pieces_spec(Shape::S)[4] == (Rect { x: 816, y: 220, w: 28, h: 128, color: 0x00E2_B714 }),
        pieces_spec(Shape::S)[5] == (Rect { x: 676, y: 168, w: 74, h: 32, color: 0x003A_BDD6 }),
        pieces_spec(Shape::S)[6] == (Rect { x: 736, y: 268, w: 74, h: 32, color: 0x00D9_6AB3 }),
{
}

/// Once its fourth piece is shown, the letter O has its gold right post: the pixel at
/// `(400, 240)` is gold in every later stage (no later piece covers it).
pub proof fn lemma_o_has_right_side(visible_pieces: usize)
    requires
        visible_pieces >= 4,
    ensures
        stage_image(TangramStage { shape: Shape::O, visible_pieces })[240int * 1280 + 400] == COLOR_GOLD,
{
    let n = shown_pieces(TangramStage { shape: Shape::O, visible_pieces });
    lemma_o_right_post_stays(n);
}

/// Stages 4 to 7 of the letter O show gold at `(400, 240)`.
proof fn lemma_o_right_post_stays(n: nat)
    requires
        4 <= n <= 7,
    ensures
        paint_rects(background(), o_pieces(), n)[240int * 1280 + 400] == COLOR_GOLD,
    decreases n,
{
    let prev = paint_rects(background(), o_pieces(), (n - 1) as nat);
    lemma_paint_rects_len(background(), o_pieces(), (n - 1) as nat);
    lemma_paint_rect_pixel(prev, o_pieces()[n - 1], 400, 240);
    if n > 4 {
        lemma_o_right_post_stays((n - 1) as nat);
        if n == 5 {
            assert(o_pieces()[4] == Rect { x: 208, y: 152, w: 168, h: 44, color: COLOR_ORANGE });
        } else if n == 6 {
            assert(o_pieces()[5] == Rect { x: 208, y: 260, w: 168, h: 44, color: COLOR_CYAN });
        } else {
            assert(o_pieces()[6] == Rect { x: 268, y: 196, w: 52, h: 108, color: COLOR_PINK });
        }
    } else {
        assert(o_pieces()[3] == Rect { x: 392, y: 120, w: 28, h: 240, color: COLOR_GOLD });
    }
}

/// Drawing the same rectangle twice gives the image that drawing it once gives.
pub proof fn lemma_paint_rect_idempotent(s: Seq<u32>, r: Rect)
    ensures
        paint_rect(paint_rect(s, r), r) == paint_rect(s, r),
{
    assert(paint_rect(paint_rect(s, r), r) =~= paint_rect(s, r));
}

/// A stage shows more than the whole letter only as the whole letter: any stage with
/// seven or more visible pieces has the image of the complete letter.
pub proof fn lemma_stage_saturates(shape: Shape, visible_pieces: usize)
    requires
        visible_pieces >= TANGRAM_PIECES,
    ensures
        stage_image(TangramStage { shape, visible_pieces }) == stage_image(
            TangramStage { shape, visible_pieces: TANGRAM_PIECES },
        ),
{
}

/// The framebuffer that the firmware reported, with the image shown on it.
pub struct FrameBuffer {
    addr: usize,
    pixels: PixelBuffer,
}

impl FrameBuffer {
    /// The pixels of the image, row after row.
    pub closed spec fn view(&self) -> Seq<u32> {
        self.pixels@
    }

    /// Physical address of the framebuffer memory.
    pub closed spec fn spec_addr(&self) -> usize {
        self.addr
    }

    /// The image has the size of the framebuffer.
    pub closed spec fn wf(&self) -> bool {
        &&& self.pixels.wf()
        &&& self.pixels.spec_width() == FB_WIDTH
        &&& self.pixels.spec_height() == FB_HEIGHT
    }

    /// A well-formed framebuffer holds a `1280 * 720` image.
    pub proof fn lemma_image_size(&self)
        requires
            self.wf(),
        ensures
            self@.len() == FB_WIDTH * FB_HEIGHT,
    {
    }

    /// The framebuffer described by the firmware's answer `(error, address)` to the
    /// framebuffer query: none when the call failed (`error < 0`) or gave no address.
    /// The image starts all zero.
    pub fn probe(sbi_result: (isize, usize)) -> (fb: Option<Self>)
        ensures
            fb is Some <==> !(sbi_result.0 < 0 || sbi_result.1 == 0),
            fb is Some ==> fb->0.wf() && fb->0.spec_addr() == sbi_result.1 && fb->0@ == Seq::new(
                (FB_WIDTH * FB_HEIGHT) as nat,
                |i: int| 0u32,
            ),
    {
        let (err, addr) = sbi_result;
        if err < 0 || addr == 0 {
            None
        } else {
            Some(FrameBuffer { addr, pixels: PixelBuffer::new(FB_WIDTH, FB_HEIGHT, 0) })
        }
    }

    /// Physical address of the framebuffer memory.
    pub fn addr(&self) -> (a: usize)
        ensures
            a == self.spec_addr(),
    {
        self.addr
    }

    /// The image.
    pub fn pixels(&self) -> (p: &PixelBuffer)
        requires
            self.wf(),
        ensures
            p@ == self@,
            p.wf(),
            p.spec_width() == FB_WIDTH,
            p.spec_height() == FB_HEIGHT,
    {
        &self.pixels
    }

    /// Address of pixel `(x, y)` in framebuffer memory: `addr + (y * 1280 + x) * 4`;
    /// `None` when the pixel lies off screen or the address does not fit in a `usize`.
    pub fn pixel_address(&self, x: usize, y: usize) -> (a: Option<usize>)
        ensures
            a is Some <==> (x < FB_WIDTH && y < FB_HEIGHT && pixel_address_spec(
                self.spec_addr() as int,
                FB_WIDTH as int,
                x as int,
                y as int,
            ) <= usize::MAX),
            a is Some ==> a->0 == pixel_address_spec(
                self.spec_addr() as int,
                FB_WIDTH as int,
                x as int,
                y as int,
            ),
    {
        crate::pixels::pixel_address(self.addr, FB_WIDTH, FB_HEIGHT, x, y)
    }

    /// Draws `rect`; the part of it off screen is dropped.
    pub fn draw_rect(&mut self, rect: Rect)
        requires
            old(self).wf(),
            rect.fits(),
        ensures
            final(self).wf(),
            final(self)@.len() == FB_WIDTH * FB_HEIGHT,
            final(self).spec_addr() == old(self).spec_addr(),
            final(self)@ == paint_rect(old(self)@, rect),
            forall|x: int, y: int|
                0 <= x < FB_WIDTH && 0 <= y < FB_HEIGHT ==> #[trigger] final(self)@[pixel_index(
                    1280,
                    x,
                    y,
                )] == (if rect.x <= x < rect.x + rect.w && rect.y <= y < rect.y + rect.h {
                    rect.color
                } else {
                    old(self)@[pixel_index(1280, x, y)]
                }),
    {
        let ghost s0 = self@;
        let ghost width = FB_WIDTH as int;
        proof {
            lemma_fill_box_no_rows(s0, width, rect.x as int, rect.x + rect.w, rect.y as int, rect.color);
        }
        let mut dy: i32 = 0;
        while dy < rect.h
            invariant
                0 <= dy,
                rect.h > 0 ==> dy <= rect.h,
                rect.h <= 0 ==> dy == 0,
                width == FB_WIDTH,
                rect.fits(),
                self.wf(),
                self.spec_addr() == old(self).spec_addr(),
                self@ == fill_box(s0, width, rect.x as int, rect.y as int, rect.x + rect.w, rect.y + dy, rect.color),
            decreases rect.h - dy,
        {
            let ghost t = self@;
            proof {
                lemma_fill_box_no_columns(t, width, rect.x as int, rect.y + dy, rect.y + dy + 1, rect.color);
            }
            let mut dx: i32 = 0;
            while dx < rect.w
                invariant
                    0 <= dx,
                    rect.w > 0 ==> dx <= rect.w,
                    rect.w <= 0 ==> dx == 0,
                    width == FB_WIDTH,
                    0 <= dy < rect.h,
                    rect.fits(),
                    self.wf(),
                    self.spec_addr() == old(self).spec_addr(),
                    t == fill_box(s0, width, rect.x as int, rect.y as int, rect.x + rect.w, rect.y + dy, rect.color),
                    self@ == fill_box(t, width, rect.x as int, rect.y + dy, rect.x + dx, rect.y + dy + 1, rect.color),
                decreases rect.w - dx,
            {
                let px = rect.x + dx;
                let py = rect.y + dy;
                let ghost before = self@;
                proof {
                    assert(FB_WIDTH as i32 == 1280);
                    assert(FB_HEIGHT as i32 == 720);
                    lemma_fill_cell(before, FB_WIDTH as int, FB_HEIGHT as int, px as int, py as int, rect.color);
                    lemma_fill_box_extend_column(t, width, rect.x as int, rect.x + dx, rect.y + dy, rect.color);
                }
                if !(px < 0 || py < 0 || px >= FB_WIDTH as i32 || py >= FB_HEIGHT as i32) {
                    self.pixels.set(px as usize, py as usize, rect.color);
                    assert(self@ == fill_box(before, width, px as int, py as int, px + 1, py + 1, rect.color));
                } else {
                    assert(self@ == fill_box(before, width, px as int, py as int, px + 1, py + 1, rect.color));
                }
                dx = dx + 1;
            }
            proof {
                if rect.w <= 0 {
                    assert(fill_box(t, width, rect.x as int, rect.y + dy, rect.x + rect.w, rect.y + dy + 1, rect.color) =~= t);
                    assert(fill_box(t, width, rect.x as int, rect.y + dy, rect.x + dx, rect.y + dy + 1, rect.color) =~= t);
                }
                lemma_fill_box_extend_row(s0, width, rect.x as int, rect.x + rect.w, rect.y as int, rect.y + dy, rect.color);
            }
            dy = dy + 1;
        }
        proof {
            if rect.h <= 0 {
                assert(fill_box(s0, width, rect.x as int, rect.y as int, rect.x + rect.w, rect.y + rect.h, rect.color) =~= s0);
            }
            assert forall|x: int, y: int| 0 <= x < FB_WIDTH && 0 <= y < FB_HEIGHT implies #[trigger] self@[pixel_index(
                1280,
                x,
                y,
            )] == (if rect.x <= x < rect.x + rect.w && rect.y <= y < rect.y + rect.h {
                rect.color
            } else {
                s0[pixel_index(1280, x, y)]
            }) by {
                lemma_paint_rect_pixel(s0, rect, x, y);
            }
        }
    }

    /// Paints the whole screen with the background color.
    pub fn clear(&mut self)
        requires
            old(self).wf(),
        ensures
            final(self).wf(),
            final(self)@.len() == FB_WIDTH * FB_HEIGHT,
            final(self).spec_addr() == old(self).spec_addr(),
            final(self)@ == background(),
    {
        proof {
            lemma_fill_box_whole(self@, FB_WIDTH as int, FB_HEIGHT as int, COLOR_BG);
        }
        self.draw_rect(Rect::new(0, 0, FB_WIDTH as i32, FB_HEIGHT as i32, COLOR_BG));
    }

    /// Shows `stage`: clears the screen, then draws the first `visible_pieces` pieces of
    /// its letter (all seven when there are more), in order.
    pub fn draw_stage(&mut self, stage: TangramStage)
        requires
            old(self).wf(),
        ensures
            final(self).wf(),
            final(self)@.len() == FB_WIDTH * FB_HEIGHT,
            final(self).spec_addr() == old(self).spec_addr(),
            final(self)@ == stage_image(stage),
    {
        self.clear();
        let pieces = tangram_pieces(stage.shape);
        let n = if stage.visible_pieces < pieces.len() {
            stage.visible_pieces
        } else {
            pieces.len()
        };
        proof {
            lemma_pieces_fit(stage.shape);
        }
        let mut i: usize = 0;
        while i < n
            invariant
                i <= n,
                n == shown_pieces(stage),
                pieces@ == pieces_spec(stage.shape),
                pieces@.len() == TANGRAM_PIECES,
                forall|k: int| 0 <= k < TANGRAM_PIECES ==> (#[trigger] pieces@[k]).fits(),
                self.wf(),
                self.spec_addr() == old(self).spec_addr(),
                self@ == paint_rects(background(), pieces@, i as nat),
            decreases n - i,
        {
            self.draw_rect(pieces[i]);
            i = i + 1;
        }
    }
}

} // verus!
