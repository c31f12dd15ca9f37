//! A row-major buffer of 32-bit pixels, the image that a linear framebuffer shows.
//!
//! Pixel `(x, y)` of a `width`-wide image lives at linear index `y * width + x`,
//! and at byte offset `(y * width + x) * 4` from the start of the framebuffer.
use vstd::prelude::*;
use vstd::arithmetic::div_mod::{
    lemma_fundamental_div_mod,
    lemma_fundamental_div_mod_converse,
    lemma_mod_pos_bound,
    lemma_div_pos_is_pos,
};
use vstd::arithmetic::mul::lemma_mul_inequality;

verus! {

/// Number of bytes that one pixel takes in framebuffer memory.
pub const PIXEL_BYTES: usize = 4;

/// The pixel at linear index `i` of a `width`-wide image lies in the half-open box
/// `[x0, x1) x [y0, y1)`.
pub open spec fn in_box(i: int, width: int, x0: int, y0: int, x1: int, y1: int) -> bool {
    &&& x0 <= i % width < x1
    &&& y0 <= i / width < y1
}

/// The image `s` (of the given width) with every pixel of the box `[x0, x1) x [y0, y1)`
/// set to `color`; the parts of the box outside the image are dropped.
pub open spec fn fill_box(s: Seq<u32>, width: int, x0: int, y0: int, x1: int, y1: int, color: u32) -> Seq<u32> {
    Seq::new(s.len(), |i: int| if in_box(i, width, x0, y0, x1, y1) { color } else { s[i] })
}

/// Linear index of pixel `(x, y)` in a `width`-wide image.
pub open spec fn pixel_index(width: int, x: int, y: int) -> int {
    y * width + x
}

/// Address of pixel `(x, y)` in a framebuffer of the given width that starts at `base`.
pub open spec fn pixel_address_spec(base: int, width: int, x: int, y: int) -> int {
    base + pixel_index(width, x, y) * PIXEL_BYTES
}

/// Pixel `(x, y)` of a `width`-wide framebuffer at `base` is `4 * (y * width + x)`
/// bytes after `base`.
pub proof fn lemma_pixel_address_formula(base: int, width: int, x: int, y: int)
    ensures
        pixel_address_spec(base, width, x, y) == base + 4 * (y * width + x),
{
}

/// Filling a box with no columns changes nothing.
pub proof fn lemma_fill_box_no_columns(s: Seq<u32>, width: int, x0: int, y0: int, y1: int, color: u32)
    ensures
        fill_box(s, width, x0, y0, x0, y1, color) == s,
{
    assert(fill_box(s, width, x0, y0, x0, y1, color) =~= s);
}

/// Filling a box with no rows changes nothing.
pub proof fn lemma_fill_box_no_rows(s: Seq<u32>, width: int, x0: int, x1: int, y0: int, color: u32)
    ensures
        fill_box(s, width, x0, y0, x1, y0, color) == s,
{
    assert(fill_box(s, width, x0, y0, x1, y0, color) =~= s);
}

/// Filling the first columns of a row and then the next single pixel of that row is
/// filling one column more.
pub proof fn lemma_fill_box_extend_column(
    s: Seq<u32>,
    width: int,
    x0: int,
    xa: int,
    row: int,
    color: u32,
)
    requires
        x0 <= xa,
    ensures
        fill_box(fill_box(s, width, x0, row, xa, row + 1, color), width, xa, row, xa + 1, row + 1, color)
            == fill_box(s, width, x0, row, xa + 1, row + 1, color),
{
    assert(fill_box(fill_box(s, width, x0, row, xa, row + 1, color), width, xa, row, xa + 1, row + 1, color)
        =~= fill_box(s, width, x0, row, xa + 1, row + 1, color));
}

/// Filling rows `[y0, row)` of a box and then row `row` is filling rows `[y0, row + 1)`.
pub proof fn lemma_fill_box_extend_row(
    s: Seq<u32>,
    width: int,
    x0: int,
    x1: int,
    y0: int,
    row: int,
    color: u32,
)
    requires
        y0 <= row,
    ensures
        fill_box(fill_box(s, width, x0, y0, x1, row, color), width, x0, row, x1, row + 1, color)
            == fill_box(s, width, x0, y0, x1, row + 1, color),
{
    assert(fill_box(fill_box(s, width, x0, y0, x1, row, color), width, x0, row, x1, row + 1, color)
        =~= fill_box(s, width, x0, y0, x1, row + 1, color));
}

/// In a `width * height` image, the pixel at linear index `i` has the coordinates
/// `(i % width, i / width)`, and those lie inside the image.
pub proof fn lemma_index_coordinates(i: int, width: int, height: int)
    requires
        width > 0,
        0 <= i < width * height,
    ensures
        0 <= i % width < width,
        0 <= i / width < height,
        i == pixel_index(width, i % width, i / width),
{
    lemma_mod_pos_bound(i, width);
    lemma_div_pos_is_pos(i, width);
    lemma_fundamental_div_mod(i, width);
    assert(width * (i / width) == (i / width) * width) by (nonlinear_arith);
    if i / width >= height {
        lemma_mul_inequality(height, i / width, width);
        assert(height * width == width * height) by (nonlinear_arith);
    }
}

/// A pixel inside a `width * height` image has a linear index inside the image, and the
/// index gives the coordinates back.
pub proof fn lemma_pixel_index_bounds(width: int, height: int, x: int, y: int)
    requires
        0 <= x < width,
        0 <= y < height,
    ensures
        0 <= pixel_index(width, x, y) < width * height,
        pixel_index(width, x, y) % width == x,
        pixel_index(width, x, y) / width == y,
{
    assert(0 <= y * width + x < width * height) by (nonlinear_arith)
        requires
            0 <= x < width,
            0 <= y < height,
    ;
    lemma_fundamental_div_mod_converse(y * width + x, width, y, x);
}

/// Filling the one-pixel box at `(px, py)` sets exactly that pixel when it lies in the
/// image, and changes nothing when it does not.
pub proof fn lemma_fill_cell(s: Seq<u32>, width: int, height: int, px: int, py: int, color: u32)
    requires
        width >= 0,
        height >= 0,
        s.len() == width * height,
    ensures
        (0 <= px < width && 0 <= py < height) ==> fill_box(s, width, px, py, px + 1, py + 1, color)
            == s.update(pixel_index(width, px, py), color),
        !(0 <= px < width && 0 <= py < height) ==> fill_box(s, width, px, py, px + 1, py + 1, color)
            == s,
{
    let f = fill_box(s, width, px, py, px + 1, py + 1, color);
    if width == 0 {
        assert(f =~= s);
    } else if 0 <= px < width && 0 <= py < height {
        let k = pixel_index(width, px, py);
        lemma_pixel_index_bounds(width, height, px, py);
        assert forall|i: int| 0 <= i < s.len() implies #[trigger] f[i] == s.update(k, color)[i] by {
            lemma_index_coordinates(i, width, height);
        }
        assert(f =~= s.update(k, color));
    } else {
        assert forall|i: int| 0 <= i < s.len() implies #[trigger] f[i] == s[i] by {
            lemma_index_coordinates(i, width, height);
        }
        assert(f =~= s);
    }
}

/// Filling a box that covers a whole `width * height` image paints every pixel.
pub proof fn lemma_fill_box_whole(s: Seq<u32>, width: int, height: int, color: u32)
    requires
        width >= 0,
        height >= 0,
        s.len() == width * height,
    ensures
        fill_box(s, width, 0, 0, width, height, color) == Seq::new(s.len(), |i: int| color),
{
    assert forall|i: int| 0 <= i < s.len() implies #[trigger] in_box(i, width, 0, 0, width, height) by {
        if width == 0 {
            assert(s.len() == 0);
        }
        lemma_index_coordinates(i, width, height);
    }
    assert(fill_box(s, width, 0, 0, width, height, color) =~= Seq::new(s.len(), |i: int| color));
}

/// A row-major image of `width * height` pixels.
pub struct PixelBuffer {
    width: usize,
    height: usize,
    pixels: Vec<u32>,
}

impl PixelBuffer {
    /// The pixels, row after row.
    pub closed spec fn view(&self) -> Seq<u32> {
        self.pixels@
    }

    /// Width of the image in pixels.
    pub closed spec fn spec_width(&self) -> nat {
        self.width as nat
    }

    /// Height of the image in pixels.
    pub closed spec fn spec_height(&self) -> nat {
        self.height as nat
    }

    /// The buffer holds exactly `width * height` pixels.
    pub open spec fn wf(&self) -> bool {
        self@.len() == self.spec_width() * self.spec_height()
    }

    /// An image of `width * height` pixels, all of the given color. Its bytes must
    /// fit in an allocation (at most `isize::MAX` of them).
    pub fn new(width: usize, height: usize, color: u32) -> (buf: Self)
        requires
            width * height * PIXEL_BYTES <= isize::MAX,
        ensures
            buf.wf(),
            buf.spec_width() == width,
            buf.spec_height() == height,
            buf@ == Seq::new((width * height) as nat, |i: int| color),
    {
        let n = width * height;
        let mut pixels: Vec<u32> = Vec::with_capacity(n);
        let mut i: usize = 0;
        while i < n
            invariant
                i <= n,
                pixels@ == Seq::new(i as nat, |j: int| color),
            decreases n - i,
        {
            pixels.push(color);
            i = i + 1;
            assert(pixels@ =~= Seq::new(i as nat, |j: int| color));
        }
        PixelBuffer { width, height, pixels }
    }

    /// Width of the image in pixels.
    pub fn width(&self) -> (w: usize)
        ensures
            w == self.spec_width(),
    {
        self.width
    }

    /// Height of the image in pixels.
    pub fn height(&self) -> (h: usize)
        ensures
            h == self.spec_height(),
    {
        self.height
    }

    /// The color of pixel `(x, y)`.
    pub fn get(&self, x: usize, y: usize) -> (c: u32)
        requires
            self.wf(),
            x < self.spec_width(),
            y < self.spec_height(),
        ensures
            c == self@[pixel_index(self.spec_width() as int, x as int, y as int)],
    {
        let n = self.pixels.len();
        proof {
            lemma_pixel_index_bounds(self.width as int, self.height as int, x as int, y as int);
            assert(0 <= y * self.width <= y * self.width + x < n);
        }
        self.pixels[y * self.width + x]
    }

    /// Sets pixel `(x, y)`, which must lie in the image, to `color`.
    pub fn set(&mut self, x: usize, y: usize, color: u32)
        requires
            old(self).wf(),
            x < old(self).spec_width(),
            y < old(self).spec_height(),
        ensures
            final(self).wf(),
            final(self).spec_width() == old(self).spec_width(),
            final(self).spec_height() == old(self).spec_height(),
            final(self)@ == fill_box(
                old(self)@,
                old(self).spec_width() as int,
                x as int,
                y as int,
                x + 1,
                y + 1,
                color,
            ),
    {
        let n = self.pixels.len();
        proof {
            lemma_pixel_index_bounds(self.width as int, self.height as int, x as int, y as int);
            assert(0 <= y * self.width <= y * self.width + x < n);
            lemma_fill_cell(self.pixels@, self.width as int, self.height as int, x as int, y as int, color);
        }
        let i = y * self.width + x;
        self.pixels.set(i, color);
    }
}

/// Address of pixel `(x, y)` in a `width * height` framebuffer that starts at `base`:
/// `base + (y * width + x) * 4`. `None` when the pixel lies outside the framebuffer or
/// the address does not fit in a `usize`.
pub fn pixel_address(base: usize, width: usize, height: usize, x: usize, y: usize) -> (addr: Option<usize>)
    ensures
        addr is Some <==> (x < width && y < height && pixel_address_spec(
            base as int,
            width as int,
            x as int,
            y as int,
        ) <= usize::MAX),
        addr is Some ==> addr->0 == pixel_address_spec(base as int, width as int, x as int, y as int),
{
    if x >= width || y >= height {
        return None;
    }
    proof {
        assert(0 <= y * width + x <= y * width + width) by (nonlinear_arith)
            requires
                x < width,
        ;
    }
    let row = match y.checked_mul(width) {
        Some(r) => r,
        None => {
            proof {
                assert((y * width + x) * 4 >= y * width) by (nonlinear_arith)
                    requires
                        y * width >= 0,
                        x >= 0,
                ;
            }
            return None;
        },
    };
    let index = match row.checked_add(x) {
        Some(i) => i,
        None => return None,
    };
    let offset = match index.checked_mul(PIXEL_BYTES) {
        Some(o) => o,
        None => return None,
    };
    base.checked_add(offset)
}

/// Distinct pixels of a framebuffer lie at distinct addresses, and every pixel lies in
/// the `width * height * 4` bytes that follow `base`.
pub proof fn lemma_pixel_addresses_distinct(
    base: int,
    width: int,
    height: int,
    x1: int,
    y1: int,
    x2: int,
    y2: int,
)
    requires
        0 <= x1 < width,
        0 <= y1 < height,
        0 <= x2 < width,
        0 <= y2 < height,
    ensures
        (x1 != x2 || y1 != y2) ==> pixel_address_spec(base, width, x1, y1) != pixel_address_spec(
            base,
            width,
            x2,
            y2,
        ),
        base <= pixel_address_spec(base, width, x1, y1),
        pixel_address_spec(base, width, x1, y1) + PIXEL_BYTES <= base + width * height * PIXEL_BYTES,
{
    lemma_pixel_index_bounds(width, height, x1, y1);
    lemma_pixel_index_bounds(width, height, x2, y2);
}

} // verus!
