use vstd::prelude::*;
use vstd::arithmetic::div_mod::lemma_fundamental_div_mod;
use vstd::arithmetic::mul::lemma_mul_inequality;
use vstd::arithmetic::mul::lemma_mul_upper_bound;
use crate::pixels::Bitmap;
use crate::pixels::BitmapView;
use crate::pixels::Pixel;
use crate::pixels::lemma_row_major_index;
use crate::pixels::opaque;
use crate::pixels::pixel_matches;
use crate::pixels::within_tolerance;

verus! {

/// The best match found by the locator: position and size of the region and
/// the confidence ratio `matched / total` over the opaque needle pixels that
/// were compared there.
#[derive(Clone, Copy, PartialEq, Eq, Structural, Debug)]
pub struct LocateResult {
    pub x: u32,
    pub y: u32,
    pub width: u32,
    pub height: u32,
    pub matched: usize,
    pub total: usize,
}

/// Number of needle pixels, i.e. the number of comparison steps at one
/// candidate position.
pub open spec fn needle_len(n: BitmapView) -> int {
    n.width * n.height
}

/// The comparison of one candidate position, scanning needle indices from
/// `k` upward in row-major order: transparent needle pixels are skipped,
/// matching opaque pixels count toward both matched and total, and the
/// first mismatching opaque pixel ends the scan counting only toward total.
/// Returns `(matched, total)`.
pub open spec fn attempt_from(
    h: BitmapView,
    n: BitmapView,
    tol: u8,
    x: int,
    y: int,
    k: int,
) -> (int, int)
    decreases needle_len(n) - k,
{
    if k < 0 || k >= needle_len(n) || n.width <= 0 {
        (0, 0)
    } else {
        let dx = k % (n.width as int);
        let dy = k / (n.width as int);
        let np = n.pix(dx, dy);
        if !opaque(np) {
            attempt_from(h, n, tol, x, y, k + 1)
        } else if pixel_matches(h.pix(x + dx, y + dy), np, tol) {
            let rest = attempt_from(h, n, tol, x, y, k + 1);
            (rest.0 + 1, rest.1 + 1)
        } else {
            (0, 1)
        }
    }
}

/// The `(matched, total)` counts of the comparison at position `(x, y)`.
pub open spec fn attempt_counts(h: BitmapView, n: BitmapView, tol: u8, x: int, y: int) -> (
    int,
    int,
) {
    attempt_from(h, n, tol, x, y, 0)
}

/// The confidence ratio `m / t` reaches the threshold `num / den`; a
/// position where no opaque pixel was compared has confidence zero.
pub open spec fn confidence_reached(m: int, t: int, num: u32, den: u32) -> bool {
    if t == 0 {
        num == 0
    } else {
        m * den >= num * t
    }
}

/// The comparison at `(x, y)` reaches the confidence threshold.
pub open spec fn accepts_at(
    h: BitmapView,
    n: BitmapView,
    num: u32,
    den: u32,
    tol: u8,
    x: int,
    y: int,
) -> bool {
    let c = attempt_counts(h, n, tol, x, y);
    confidence_reached(c.0, c.1, num, den)
}

/// The needle placed at `(x, y)` lies fully inside the haystack.
pub open spec fn in_range(h: BitmapView, n: BitmapView, x: int, y: int) -> bool {
    &&& 0 <= x
    &&& 0 <= y
    &&& x + n.width <= h.width
    &&& y + n.height <= h.height
}

/// Raster-scan order: `(x1, y1)` is visited before `(x2, y2)`.
pub open spec fn earlier(x1: int, y1: int, x2: int, y2: int) -> bool {
    y1 < y2 || (y1 == y2 && x1 < x2)
}

/// Everything `locate` promises: a result is the first position in raster
/// order whose comparison reaches the threshold, together with that
/// comparison's exact counts; no result means no position reaches it.
pub open spec fn locate_post(
    h: BitmapView,
    n: BitmapView,
    num: u32,
    den: u32,
    tol: u8,
    r: Option<LocateResult>,
) -> bool {
    match r {
        Some(lr) => {
            &&& in_range(h, n, lr.x as int, lr.y as int)
            &&& accepts_at(h, n, num, den, tol, lr.x as int, lr.y as int)
            &&& lr.width == n.width
            &&& lr.height == n.height
            &&& lr.matched == attempt_counts(h, n, tol, lr.x as int, lr.y as int).0
            &&& lr.total == attempt_counts(h, n, tol, lr.x as int, lr.y as int).1
            &&& forall|px: int, py: int|
                in_range(h, n, px, py) && earlier(px, py, lr.x as int, lr.y as int)
                    ==> !#[trigger] accepts_at(h, n, num, den, tol, px, py)
        },
        None => forall|px: int, py: int|
            in_range(h, n, px, py) ==> !#[trigger] accepts_at(h, n, num, den, tol, px, py),
    }
}

/// A bitmap with a pixel at index `k` has positive dimensions, and `k`
/// splits into row-major coordinates.
proof fn lemma_needle_index(n: BitmapView, k: int)
    requires
        0 <= k < needle_len(n),
    ensures
        n.width > 0,
        n.height > 0,
        0 <= k % (n.width as int) < n.width,
        0 <= k / (n.width as int) < n.height,
        (k / (n.width as int)) * (n.width as int) + (k % (n.width as int)) == k,
{
    let wi = n.width as int;
    let hi = n.height as int;
    if wi == 0 {
        assert(wi * hi == 0) by (nonlinear_arith)
            requires
                wi == 0,
        ;
    }
    if hi == 0 {
        assert(wi * hi == 0) by (nonlinear_arith)
            requires
                hi == 0,
        ;
    }
    lemma_fundamental_div_mod(k, wi);
    assert(k / wi < hi) by (nonlinear_arith)
        requires
            k < wi * hi,
            wi > 0,
            k == wi * (k / wi) + k % wi,
            0 <= k % wi < wi,
    ;
}

fn attempt_at(h: &Bitmap, n: &Bitmap, tol: u8, x: u32, y: u32) -> (r: (usize, usize))
    requires
        h@.wf(),
        n@.wf(),
        x + n.width <= h.width,
        y + n.height <= h.height,
    ensures
        r.0 == attempt_counts(h@, n@, tol, x as int, y as int).0,
        r.1 == attempt_counts(h@, n@, tol, x as int, y as int).1,
{
    let hlen: usize = h.pixels.len();
    let nlen: usize = n.pixels.len();
    let mut k: usize = 0;
    let mut m: usize = 0;
    while k < nlen
        invariant
            h@.wf(),
            n@.wf(),
            x + n.width <= h.width,
            y + n.height <= h.height,
            hlen == h.pixels@.len(),
            nlen == n.pixels@.len(),
            nlen == needle_len(n@),
            k <= nlen,
            m <= k,
            attempt_counts(h@, n@, tol, x as int, y as int).0 == m + attempt_from(
                h@,
                n@,
                tol,
                x as int,
                y as int,
                k as int,
            ).0,
            attempt_counts(h@, n@, tol, x as int, y as int).1 == m + attempt_from(
                h@,
                n@,
                tol,
                x as int,
                y as int,
                k as int,
            ).1,
        decreases nlen - k,
    {
        proof {
            lemma_needle_index(n@, k as int);
        }
        let w: usize = n.width as usize;
        let dx: usize = k % w;
        let dy: usize = k / w;
        proof {
            assert(n@.pix(dx as int, dy as int) == n@.pixels[k as int]);
            lemma_row_major_index(h.width as int, h.height as int, x + dx, y + dy);
        }
        let np: Pixel = n.pixels[k];
        if np.a < 128 {
            k = k + 1;
        } else {
            let sx: usize = (x as usize) + dx;
            let sy: usize = (y as usize) + dy;
            let sidx: usize = sy * (h.width as usize) + sx;
            let hp: Pixel = h.pixels[sidx];
            proof {
                assert(h@.pix(x + dx, y + dy) == h@.pixels[sidx as int]);
            }
            if within_tolerance(hp.r, np.r, tol) && within_tolerance(hp.g, np.g, tol)
                && within_tolerance(hp.b, np.b, tol) {
                m = m + 1;
                k = k + 1;
            } else {
                assert(attempt_from(h@, n@, tol, x as int, y as int, k as int) == (0int, 1int));
                return (m, m + 1);
            }
        }
    }
    (m, m)
}

/// Exhaustive raster scan for the needle inside the haystack: returns the
/// first position whose confidence over opaque needle pixels reaches
/// `min_conf_num / min_conf_den`, or nothing when no position does. The
/// comparison at each position short-circuits at the first mismatching
/// opaque pixel, so a rejected position's confidence covers only the prefix
/// scanned there.
pub fn locate(
    haystack: &Bitmap,
    needle: &Bitmap,
    min_conf_num: u32,
    min_conf_den: u32,
    tolerance: u8,
) -> (r: Option<LocateResult>)
    requires
        haystack@.wf(),
        needle@.wf(),
        min_conf_den > 0,
    ensures
        locate_post(haystack@, needle@, min_conf_num, min_conf_den, tolerance, r),
{
    if needle.width > haystack.width || needle.height > haystack.height {
        return None;
    }
    let x_end: u32 = haystack.width - needle.width;
    let y_end: u32 = haystack.height - needle.height;
    if needle.pixels.len() == 0 {
        if min_conf_num == 0 {
            let lr = LocateResult {
                x: 0,
                y: 0,
                width: needle.width,
                height: needle.height,
                matched: 0,
                total: 0,
            };
            assert(attempt_counts(haystack@, needle@, tolerance, 0, 0) == (0int, 0int));
            return Some(lr);
        } else {
            proof {
                assert forall|px: int, py: int| in_range(haystack@, needle@, px, py)
                    implies !#[trigger] accepts_at(
                    haystack@,
                    needle@,
                    min_conf_num,
                    min_conf_den,
                    tolerance,
                    px,
                    py,
                ) by {
                    assert(attempt_counts(haystack@, needle@, tolerance, px, py) == (0int, 0int));
                }
            }
            return None;
        }
    }
    proof {
        lemma_needle_index(needle@, 0);
    }
    let mut y: u32 = 0;
    while y <= y_end
        invariant
            haystack@.wf(),
            needle@.wf(),
            min_conf_den > 0,
            needle.width >= 1,
            needle.height >= 1,
            needle.width <= haystack.width,
            needle.height <= haystack.height,
            x_end == haystack.width - needle.width,
            y_end == haystack.height - needle.height,
            y <= y_end + 1,
            forall|px: int, py: int|
                in_range(haystack@, needle@, px, py) && py < y ==> !#[trigger] accepts_at(
                    haystack@,
                    needle@,
                    min_conf_num,
                    min_conf_den,
                    tolerance,
                    px,
                    py,
                ),
        decreases y_end + 1 - y,
    {
        let mut x: u32 = 0;
        while x <= x_end
            invariant
                haystack@.wf(),
                needle@.wf(),
                min_conf_den > 0,
                needle.width >= 1,
                needle.height >= 1,
                needle.width <= haystack.width,
                needle.height <= haystack.height,
                x_end == haystack.width - needle.width,
                y_end == haystack.height - needle.height,
                y <= y_end,
                x <= x_end + 1,
                forall|px: int, py: int|
                    in_range(haystack@, needle@, px, py) && py < y ==> !#[trigger] accepts_at(
                        haystack@,
                        needle@,
                        min_conf_num,
                        min_conf_den,
                        tolerance,
                        px,
                        py,
                    ),
                forall|px: int|
                    in_range(haystack@, needle@, px, y as int) && px < x
                        ==> !#[trigger] accepts_at(
                        haystack@,
                        needle@,
                        min_conf_num,
                        min_conf_den,
                        tolerance,
                        px,
                        y as int,
                    ),
            decreases x_end + 1 - x,
        {
            let counts = attempt_at(haystack, needle, tolerance, x, y);
            let m: usize = counts.0;
            let t: usize = counts.1;
            let accepted: bool = if t == 0 {
                min_conf_num == 0
            } else {
                proof {
                    lemma_mul_upper_bound(
                        m as int,
                        u64::MAX as int,
                        min_conf_den as int,
                        u32::MAX as int,
                    );
                    lemma_mul_upper_bound(
                        min_conf_num as int,
                        u32::MAX as int,
                        t as int,
                        u64::MAX as int,
                    );
                }
                (m as u128) * (min_conf_den as u128) >= (min_conf_num as u128) * (t as u128)
            };
            if accepted {
                let lr = LocateResult {
                    x,
                    y,
                    width: needle.width,
                    height: needle.height,
                    matched: m,
                    total: t,
                };
                proof {
                    assert forall|px: int, py: int|
                        in_range(haystack@, needle@, px, py) && earlier(
                            px,
                            py,
                            x as int,
                            y as int,
                        ) implies !#[trigger] accepts_at(
                        haystack@,
                        needle@,
                        min_conf_num,
                        min_conf_den,
                        tolerance,
                        px,
                        py,
                    ) by {
                        if py < y {
                        } else {
                            assert(py == y && px < x);
                        }
                    }
                }
                return Some(lr);
            }
            x = x + 1;
        }
        y = y + 1;
    }
    proof {
        assert forall|px: int, py: int| in_range(haystack@, needle@, px, py)
            implies !#[trigger] accepts_at(
            haystack@,
            needle@,
            min_conf_num,
            min_conf_den,
            tolerance,
            px,
            py,
        ) by {
            assert(py < y);
        }
    }
    None
}

/// The locator is a pure function of its inputs: its contract pins the
/// result down completely, so any two results that satisfy it are equal.
/// Repeated calls on the same haystack, needle, threshold and tolerance
/// therefore return the same value.
pub proof fn lemma_locate_deterministic(
    h: BitmapView,
    n: BitmapView,
    num: u32,
    den: u32,
    tol: u8,
    r1: Option<LocateResult>,
    r2: Option<LocateResult>,
)
    requires
        locate_post(h, n, num, den, tol, r1),
        locate_post(h, n, num, den, tol, r2),
    ensures
        r1 == r2,
{
    match (r1, r2) {
        (Some(a), Some(b)) => {
            if earlier(a.x as int, a.y as int, b.x as int, b.y as int) {
                assert(!accepts_at(h, n, num, den, tol, a.x as int, a.y as int));
            } else if earlier(b.x as int, b.y as int, a.x as int, a.y as int) {
                assert(!accepts_at(h, n, num, den, tol, b.x as int, b.y as int));
            } else {
                assert(a.x == b.x && a.y == b.y);
            }
        },
        (Some(a), None) => {
            assert(!accepts_at(h, n, num, den, tol, a.x as int, a.y as int));
        },
        (None, Some(b)) => {
            assert(!accepts_at(h, n, num, den, tol, b.x as int, b.y as int));
        },
        (None, None) => {},
    }
}

/// Number of opaque needle pixels from index `k` on.
pub open spec fn opaque_count_from(n: BitmapView, k: int) -> int
    decreases needle_len(n) - k,
{
    if k < 0 || k >= needle_len(n) || n.width <= 0 {
        0
    } else {
        let dx = k % (n.width as int);
        let dy = k / (n.width as int);
        (if opaque(n.pix(dx, dy)) {
            1int
        } else {
            0int
        }) + opaque_count_from(n, k + 1)
    }
}

proof fn lemma_opaque_count_nonneg(n: BitmapView, k: int)
    ensures
        opaque_count_from(n, k) >= 0,
    decreases needle_len(n) - k,
{
    if k < 0 || k >= needle_len(n) || n.width <= 0 {
    } else {
        lemma_opaque_count_nonneg(n, k + 1);
    }
}

proof fn lemma_opaque_count_pos(n: BitmapView, k: int, j: int)
    requires
        0 <= k <= j < needle_len(n),
        opaque(n.pix(j % (n.width as int), j / (n.width as int))),
    ensures
        opaque_count_from(n, k) >= 1,
    decreases j - k,
{
    lemma_needle_index(n, k);
    if k == j {
        lemma_opaque_count_nonneg(n, k + 1);
    } else {
        lemma_opaque_count_pos(n, k + 1, j);
    }
}

proof fn lemma_attempt_identical(h: BitmapView, n: BitmapView, tol: u8, x: int, y: int, k: int)
    requires
        h.wf(),
        n.wf(),
        in_range(h, n, x, y),
        forall|dx: int, dy: int|
            0 <= dx < n.width && 0 <= dy < n.height ==> #[trigger] n.pix(dx, dy) == h.pix(
                x + dx,
                y + dy,
            ),
    ensures
        attempt_from(h, n, tol, x, y, k).0 == opaque_count_from(n, k),
        attempt_from(h, n, tol, x, y, k).1 == opaque_count_from(n, k),
    decreases needle_len(n) - k,
{
    if k < 0 || k >= needle_len(n) || n.width <= 0 {
    } else {
        lemma_needle_index(n, k);
        let dx = k % (n.width as int);
        let dy = k / (n.width as int);
        assert(n.pix(dx, dy) == h.pix(x + dx, y + dy));
        lemma_attempt_identical(h, n, tol, x, y, k + 1);
    }
}

/// A needle that is pixel-identical to the haystack region at `(x, y)` and
/// has at least one opaque pixel is matched there with full confidence
/// (`matched == total > 0`), for every tolerance and every threshold of at
/// most one; the locator therefore reports a find.
pub proof fn lemma_embedded_needle_found(
    h: BitmapView,
    n: BitmapView,
    num: u32,
    den: u32,
    tol: u8,
    x: int,
    y: int,
    r: Option<LocateResult>,
)
    requires
        h.wf(),
        n.wf(),
        den > 0,
        num <= den,
        in_range(h, n, x, y),
        forall|dx: int, dy: int|
            0 <= dx < n.width && 0 <= dy < n.height ==> #[trigger] n.pix(dx, dy) == h.pix(
                x + dx,
                y + dy,
            ),
        exists|j: int| 0 <= j < needle_len(n) && opaque(#[trigger] n.pixels[j]),
        locate_post(h, n, num, den, tol, r),
    ensures
        attempt_counts(h, n, tol, x, y).0 == attempt_counts(h, n, tol, x, y).1,
        attempt_counts(h, n, tol, x, y).1 > 0,
        accepts_at(h, n, num, den, tol, x, y),
        r is Some,
{
    lemma_attempt_identical(h, n, tol, x, y, 0);
    let j = choose|j: int| 0 <= j < needle_len(n) && opaque(#[trigger] n.pixels[j]);
    lemma_needle_index(n, j);
    assert(n.pix(j % (n.width as int), j / (n.width as int)) == n.pixels[j]);
    lemma_opaque_count_pos(n, 0, j);
    let t = attempt_counts(h, n, tol, x, y).1;
    assert(num * t <= den * t) by {
        lemma_mul_inequality(num as int, den as int, t);
    }
    if r is None {
        assert(!accepts_at(h, n, num, den, tol, x, y));
    }
}

proof fn lemma_attempt_alpha_only(
    h: BitmapView,
    n1: BitmapView,
    n2: BitmapView,
    tol: u8,
    x: int,
    y: int,
    k: int,
)
    requires
        n1.wf(),
        n2.wf(),
        n1.width == n2.width,
        n1.height == n2.height,
        forall|j: int|
            0 <= j < needle_len(n1) ==> (#[trigger] n2.pixels[j]).a == n1.pixels[j].a && (opaque(
                n1.pixels[j],
            ) ==> n2.pixels[j] == n1.pixels[j]),
    ensures
        attempt_from(h, n1, tol, x, y, k) == attempt_from(h, n2, tol, x, y, k),
    decreases needle_len(n1) - k,
{
    if k < 0 || k >= needle_len(n1) || n1.width <= 0 {
    } else {
        lemma_needle_index(n1, k);
        let dx = k % (n1.width as int);
        let dy = k / (n1.width as int);
        assert(n1.pix(dx, dy) == n1.pixels[k]);
        assert(n2.pix(dx, dy) == n2.pixels[k]);
        lemma_attempt_alpha_only(h, n1, n2, tol, x, y, k + 1);
    }
}

/// Transparent needle pixels never affect the locator: two needles that
/// agree on alpha everywhere and on color wherever they are opaque produce
/// the same result, whatever colors their transparent pixels hold.
pub proof fn lemma_transparent_pixels_ignored(
    h: BitmapView,
    n1: BitmapView,
    n2: BitmapView,
    num: u32,
    den: u32,
    tol: u8,
    r1: Option<LocateResult>,
    r2: Option<LocateResult>,
)
    requires
        n1.wf(),
        n2.wf(),
        n1.width == n2.width,
        n1.height == n2.height,
        forall|j: int|
            0 <= j < needle_len(n1) ==> (#[trigger] n2.pixels[j]).a == n1.pixels[j].a && (opaque(
                n1.pixels[j],
            ) ==> n2.pixels[j] == n1.pixels[j]),
        locate_post(h, n1, num, den, tol, r1),
        locate_post(h, n2, num, den, tol, r2),
    ensures
        r1 == r2,
{
    assert forall|px: int, py: int| true implies #[trigger] attempt_counts(h, n1, tol, px, py)
        == attempt_counts(h, n2, tol, px, py) by {
        lemma_attempt_alpha_only(h, n1, n2, tol, px, py, 0);
    }
    match r1 {
        Some(lr) => {
            assert(accepts_at(h, n2, num, den, tol, lr.x as int, lr.y as int)) by {
                assert(attempt_counts(h, n1, tol, lr.x as int, lr.y as int) == attempt_counts(
                    h,
                    n2,
                    tol,
                    lr.x as int,
                    lr.y as int,
                ));
            }
            assert forall|px: int, py: int|
                in_range(h, n2, px, py) && earlier(px, py, lr.x as int, lr.y as int)
                implies !#[trigger] accepts_at(h, n2, num, den, tol, px, py) by {
                assert(attempt_counts(h, n1, tol, px, py) == attempt_counts(h, n2, tol, px, py));
                assert(!accepts_at(h, n1, num, den, tol, px, py));
            }
            assert(locate_post(h, n2, num, den, tol, r1));
        },
        None => {
            assert forall|px: int, py: int| in_range(h, n2, px, py)
                implies !#[trigger] accepts_at(h, n2, num, den, tol, px, py) by {
                assert(attempt_counts(h, n1, tol, px, py) == attempt_counts(h, n2, tol, px, py));
                assert(!accepts_at(h, n1, num, den, tol, px, py));
            }
            assert(locate_post(h, n2, num, den, tol, r1));
        },
    }
    lemma_locate_deterministic(h, n2, num, den, tol, r1, r2);
}

} // verus!
