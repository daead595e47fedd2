use vstd::prelude::*;
use vstd::arithmetic::div_mod::lemma_fundamental_div_mod;
use vstd::arithmetic::div_mod::lemma_fundamental_div_mod_converse;
use vstd::arithmetic::mul::lemma_mul_upper_bound;

verus! {

/// One RGBA pixel. The alpha channel decides whether the template locator
/// treats the pixel as opaque (`a >= 128`) or as transparent.
#[derive(Clone, Copy, PartialEq, Eq, Structural, Debug)]
pub struct Pixel {
    pub r: u8,
    pub g: u8,
    pub b: u8,
    pub a: u8,
}

/// Mathematical model of a bitmap: dimensions plus the row-major pixel
/// sequence, so that the pixel at column `x` of row `y` sits at index
/// `y * width + x`.
pub struct BitmapView {
    pub width: u32,
    pub height: u32,
    pub pixels: Seq<Pixel>,
}

impl BitmapView {
    /// The pixel sequence holds exactly one pixel per coordinate.
    pub open spec fn wf(self) -> bool {
        self.pixels.len() == self.width * self.height
    }

    pub open spec fn in_bounds(self, x: int, y: int) -> bool {
        0 <= x < self.width && 0 <= y < self.height
    }

    /// The pixel at column `x` of row `y`.
    pub open spec fn pix(self, x: int, y: int) -> Pixel {
        self.pixels[y * self.width + x]
    }
}

/// A bitmap held as plain values: `width * height` pixels in row-major order.
pub struct Bitmap {
    pub width: u32,
    pub height: u32,
    pub pixels: Vec<Pixel>,
}

impl View for Bitmap {
    type V = BitmapView;

    open spec fn view(&self) -> BitmapView {
        BitmapView { width: self.width, height: self.height, pixels: self.pixels@ }
    }
}

/// A row-major index stays inside the pixel sequence.
pub proof fn lemma_row_major_index(w: int, h: int, x: int, y: int)
    requires
        0 <= x < w,
        0 <= y < h,
    ensures
        0 <= y * w + x < w * h,
        (y * w + x) % w == x,
        (y * w + x) / w == y,
{
    assert(0 <= y * w + x < w * h) by (nonlinear_arith)
        requires
            0 <= x < w,
            0 <= y < h,
    ;
    lemma_fundamental_div_mod_converse(y * w + x, w, y, x);
}

impl Bitmap {
    /// Builds a bitmap after checking that the pixel count matches the
    /// dimensions; rejects a mismatched buffer.
    pub fn from_pixels(width: u32, height: u32, pixels: Vec<Pixel>) -> (r: Option<Bitmap>)
        ensures
            match r {
                Some(b) => b@.wf() && b.width == width && b.height == height && b.pixels@
                    == pixels@,
                None => pixels@.len() != width * height,
            },
    {
        proof {
            lemma_mul_upper_bound(width as int, u32::MAX as int, height as int, u32::MAX as int);
        }
        if (pixels.len() as u64) == (width as u64) * (height as u64) {
            Some(Bitmap { width, height, pixels })
        } else {
            None
        }
    }

    /// Reads the pixel at column `x` of row `y`.
    pub fn get(&self, x: u32, y: u32) -> (p: Pixel)
        requires
            self@.wf(),
            x < self.width,
            y < self.height,
        ensures
            p == self@.pix(x as int, y as int),
    {
        proof {
            lemma_row_major_index(self.width as int, self.height as int, x as int, y as int);
        }
        let hlen: usize = self.pixels.len();
        let idx: usize = (y as usize) * (self.width as usize) + (x as usize);
        self.pixels[idx]
    }

    /// Copies out the `w` by `h` region whose top-left corner is at
    /// `(x, y)`; rejects a region that does not lie fully inside.
    pub fn crop(&self, x: u32, y: u32, w: u32, h: u32) -> (r: Option<Bitmap>)
        requires
            self@.wf(),
        ensures
            match r {
                Some(c) => c@.wf() && c.width == w && c.height == h && x + w <= self.width && y
                    + h <= self.height && forall|dx: int, dy: int|
                    0 <= dx < w && 0 <= dy < h ==> #[trigger] c@.pix(dx, dy) == self@.pix(
                        x + dx,
                        y + dy,
                    ),
                None => x + w > self.width || y + h > self.height,
            },
    {
        if w > self.width || x > self.width - w || h > self.height || y > self.height - h {
            return None;
        }
        proof {
            lemma_mul_upper_bound(w as int, self.width as int, h as int, self.height as int);
        }
        let hlen: usize = self.pixels.len();
        let total: usize = (w as usize) * (h as usize);
        let mut out: Vec<Pixel> = Vec::new();
        let mut k: usize = 0;
        while k < total
            invariant
                self@.wf(),
                x + w <= self.width,
                y + h <= self.height,
                total == w * h,
                total <= hlen,
                hlen == self.pixels@.len(),
                k <= total,
                out@.len() == k,
                forall|j: int|
                    0 <= j < k ==> #[trigger] out@[j] == self@.pix(
                        x + (j % (w as int)),
                        y + (j / (w as int)),
                    ),
            decreases total - k,
        {
            assert(w > 0) by {
                if w == 0 {
                    assert(total == 0);
                }
            }
            let dx: usize = k % (w as usize);
            let dy: usize = k / (w as usize);
            proof {
                let ki = k as int;
                let wi = w as int;
                let hi = h as int;
                lemma_fundamental_div_mod(ki, wi);
                assert(ki / wi < hi) by (nonlinear_arith)
                    requires
                        ki < wi * hi,
                        wi > 0,
                        ki == wi * (ki / wi) + ki % wi,
                        0 <= ki % wi < wi,
                ;
                assert(dy == ki / wi);
                lemma_row_major_index(
                    self.width as int,
                    self.height as int,
                    x + dx,
                    y + dy,
                );
            }
            let sx: usize = (x as usize) + dx;
            let sy: usize = (y as usize) + dy;
            let sidx: usize = sy * (self.width as usize) + sx;
            out.push(self.pixels[sidx]);
            k = k + 1;
        }
        let c = Bitmap { width: w, height: h, pixels: out };
        proof {
            assert forall|dx: int, dy: int| 0 <= dx < w && 0 <= dy < h implies #[trigger] c@.pix(
                dx,
                dy,
            ) == self@.pix(x + dx, y + dy) by {
                lemma_row_major_index(w as int, h as int, dx, dy);
                assert(c@.pix(dx, dy) == c.pixels@[dy * w + dx]);
            }
        }
        Some(c)
    }
}

/// Saturating lower and upper channel bounds: `value1` lies within
/// `tolerance` of `value2`, where the band is clamped to `0..=255` rather
/// than wrapping.
pub open spec fn within_tol(value1: u8, value2: u8, tolerance: u8) -> bool {
    &&& (if value2 >= tolerance {
        value2 - tolerance
    } else {
        0
    }) <= value1
    &&& value1 <= (if value2 + tolerance <= 255 {
        value2 + tolerance
    } else {
        255
    })
}

/// Checks whether a color channel value lies within the clamped tolerance
/// band around a reference value.
pub fn within_tolerance(value1: u8, value2: u8, tolerance: u8) -> (r: bool)
    ensures
        r == within_tol(value1, value2, tolerance),
{
    let min_value: u8 = if value2 >= tolerance {
        value2 - tolerance
    } else {
        0
    };
    let max_value: u8 = if value2 <= 255 - tolerance {
        value2 + tolerance
    } else {
        255
    };
    value1 >= min_value && value1 <= max_value
}

/// A needle pixel takes part in the comparison only when it is opaque.
pub open spec fn opaque(p: Pixel) -> bool {
    p.a >= 128
}

/// An opaque needle pixel matches a haystack pixel when every color channel
/// lies within the tolerance band.
pub open spec fn pixel_matches(hp: Pixel, np: Pixel, tol: u8) -> bool {
    within_tol(hp.r, np.r, tol) && within_tol(hp.g, np.g, tol) && within_tol(hp.b, np.b, tol)
}

/// The color painted on located regions of the diagnostic image.
pub open spec fn border_color() -> Pixel {
    Pixel { r: 255, g: 0, b: 0, a: 255 }
}

/// The border of the rectangle with top-left corner `(x, y)`, size `(w, h)`
/// and line thickness `t`: a vertical line down each side and a horizontal
/// line along top and bottom (the right and bottom lines run one pixel
/// longer, closing the corner).
pub open spec fn on_rect_border(x: int, y: int, w: int, h: int, t: int, px: int, py: int) -> bool {
    ||| (x <= px < x + t && y <= py < y + h)
    ||| (x <= px < x + w && y <= py < y + t)
    ||| (x + w <= px < x + w + t && y <= py < y + h + 1)
    ||| (x <= px < x + w + 1 && y + h <= py < y + h + t)
}

/// Line thickness of the rectangles painted on the diagnostic image.
pub const LINE_THICKNESS: u32 = 4;

fn on_border(x: u32, y: u32, w: u32, h: u32, px: u32, py: u32) -> (r: bool)
    ensures
        r == on_rect_border(
            x as int,
            y as int,
            w as int,
            h as int,
            LINE_THICKNESS as int,
            px as int,
            py as int,
        ),
{
    let x64: u64 = x as u64;
    let y64: u64 = y as u64;
    let w64: u64 = w as u64;
    let h64: u64 = h as u64;
    let px64: u64 = px as u64;
    let py64: u64 = py as u64;
    let t64: u64 = LINE_THICKNESS as u64;
    (x64 <= px64 && px64 < x64 + t64 && y64 <= py64 && py64 < y64 + h64) || (x64 <= px64 && px64
        < x64 + w64 && y64 <= py64 && py64 < y64 + t64) || (x64 + w64 <= px64 && px64 < x64 + w64
        + t64 && y64 <= py64 && py64 < y64 + h64 + 1) || (x64 <= px64 && px64 < x64 + w64 + 1
        && y64 + h64 <= py64 && py64 < y64 + h64 + t64)
}

/// The border of the `j`-th mark's rectangle passes through `(px, py)`.
pub open spec fn mark_border(
    marks: Seq<(u32, u32)>,
    j: int,
    w: int,
    h: int,
    px: int,
    py: int,
) -> bool {
    on_rect_border(marks[j].0 as int, marks[j].1 as int, w, h, LINE_THICKNESS as int, px, py)
}

/// The border of one of the first `n` marks' rectangles passes through
/// `(px, py)`.
pub open spec fn any_mark_border(
    marks: Seq<(u32, u32)>,
    n: int,
    w: int,
    h: int,
    px: int,
    py: int,
) -> bool {
    exists|j: int| 0 <= j < n && #[trigger] mark_border(marks, j, w, h, px, py)
}

/// Paints the border of one rectangle onto the bitmap; pixels of the border
/// that fall outside the bitmap are skipped rather than written.
pub fn draw_rectangle_on(img: &mut Bitmap, x: u32, y: u32, w: u32, h: u32)
    requires
        old(img)@.wf(),
    ensures
        final(img)@.wf(),
        final(img).width == old(img).width,
        final(img).height == old(img).height,
        forall|px: int, py: int|
            old(img)@.in_bounds(px, py) ==> #[trigger] final(img)@.pix(px, py) == (
            if on_rect_border(
                x as int,
                y as int,
                w as int,
                h as int,
                LINE_THICKNESS as int,
                px,
                py,
            ) {
                border_color()
            } else {
                old(img)@.pix(px, py)
            }),
{
    let width: u32 = img.width;
    let height: u32 = img.height;
    let len: usize = img.pixels.len();
    let mut k: usize = 0;
    while k < len
        invariant
            img@.wf(),
            img.width == width,
            img.height == height,
            img.pixels@.len() == len,
            old(img)@.wf(),
            old(img).width == width,
            old(img).height == height,
            old(img)@.pixels.len() == len,
            k <= len,
            forall|j: int|
                k <= j < len ==> #[trigger] img.pixels@[j] == old(img)@.pixels[j],
            forall|j: int|
                0 <= j < k ==> #[trigger] img.pixels@[j] == (if on_rect_border(
                    x as int,
                    y as int,
                    w as int,
                    h as int,
                    LINE_THICKNESS as int,
                    j % (width as int),
                    j / (width as int),
                ) {
                    border_color()
                } else {
                    old(img)@.pixels[j]
                }),
        decreases len - k,
    {
        proof {
            let ki = k as int;
            let wi = width as int;
            let hi = height as int;
            assert(len == wi * hi);
            if wi == 0 {
                assert(wi * hi == 0) by (nonlinear_arith)
                    requires
                        wi == 0,
                ;
            }
            assert(wi > 0);
            lemma_fundamental_div_mod(ki, wi);
            assert(ki / wi < hi) by (nonlinear_arith)
                requires
                    ki < wi * hi,
                    wi > 0,
                    ki == wi * (ki / wi) + ki % wi,
                    0 <= ki % wi < wi,
            ;
            assert(0 <= ki / wi < hi);
        }
        let px: u32 = (k % (width as usize)) as u32;
        let py: u32 = (k / (width as usize)) as u32;
        if on_border(x, y, w, h, px, py) {
            img.pixels.set(k, Pixel { r: 255, g: 0, b: 0, a: 255 });
        }
        k = k + 1;
    }
    proof {
        assert forall|px: int, py: int| old(img)@.in_bounds(px, py) implies #[trigger] img@.pix(
            px,
            py,
        ) == (if on_rect_border(
            x as int,
            y as int,
            w as int,
            h as int,
            LINE_THICKNESS as int,
            px,
            py,
        ) {
            border_color()
        } else {
            old(img)@.pix(px, py)
        }) by {
            lemma_row_major_index(width as int, height as int, px, py);
            assert(img.pixels@[py * width + px] == (if on_rect_border(
                x as int,
                y as int,
                w as int,
                h as int,
                LINE_THICKNESS as int,
                (py * width + px) % (width as int),
                (py * width + px) / (width as int),
            ) {
                border_color()
            } else {
                old(img)@.pixels[py * width + px]
            }));
        }
    }
}

/// Paints one rectangle border per located region onto the diagnostic
/// image: a pixel ends up border-colored exactly when some mark's rectangle
/// border passes through it, and is untouched otherwise.
pub fn annotate(img: &mut Bitmap, marks: &Vec<(u32, u32)>, w: u32, h: u32)
    requires
        old(img)@.wf(),
    ensures
        final(img)@.wf(),
        final(img).width == old(img).width,
        final(img).height == old(img).height,
        forall|px: int, py: int|
            old(img)@.in_bounds(px, py) ==> #[trigger] final(img)@.pix(px, py) == (
            if any_mark_border(marks@, marks@.len() as int, w as int, h as int, px, py) {
                border_color()
            } else {
                old(img)@.pix(px, py)
            }),
{
    let count: usize = marks.len();
    let mut i: usize = 0;
    while i < count
        invariant
            img@.wf(),
            img.width == old(img).width,
            img.height == old(img).height,
            old(img)@.wf(),
            count == marks@.len(),
            i <= count,
            forall|px: int, py: int|
                old(img)@.in_bounds(px, py) ==> #[trigger] img@.pix(px, py) == (
                if any_mark_border(marks@, i as int, w as int, h as int, px, py) {
                    border_color()
                } else {
                    old(img)@.pix(px, py)
                }),
        decreases count - i,
    {
        let ghost mid = img@;
        let mark = marks[i];
        draw_rectangle_on(img, mark.0, mark.1, w, h);
        proof {
            assert forall|px: int, py: int| old(img)@.in_bounds(px, py) implies #[trigger] img@.pix(
                px,
                py,
            ) == (if any_mark_border(marks@, i + 1, w as int, h as int, px, py) {
                border_color()
            } else {
                old(img)@.pix(px, py)
            }) by {
                if mark_border(marks@, i as int, w as int, h as int, px, py) {
                    assert(any_mark_border(marks@, i + 1, w as int, h as int, px, py));
                } else {
                    assert(img@.pix(px, py) == mid.pix(px, py));
                    if any_mark_border(marks@, i as int, w as int, h as int, px, py) {
                        let j = choose|j: int|
                            0 <= j < i && #[trigger] mark_border(
                                marks@,
                                j,
                                w as int,
                                h as int,
                                px,
                                py,
                            );
                        assert(mark_border(marks@, j, w as int, h as int, px, py));
                        assert(any_mark_border(marks@, i + 1, w as int, h as int, px, py));
                    } else {
                        if any_mark_border(marks@, i + 1, w as int, h as int, px, py) {
                            let j = choose|j: int|
                                0 <= j < i + 1 && #[trigger] mark_border(
                                    marks@,
                                    j,
                                    w as int,
                                    h as int,
                                    px,
                                    py,
                                );
                            assert(j == i);
                        }
                    }
                }
            }
        }
        i = i + 1;
    }
}

} // verus!
