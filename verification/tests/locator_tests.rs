use latency_reader::locator::locate;
use latency_reader::pixels::within_tolerance;
use latency_reader::pixels::Bitmap;
use latency_reader::pixels::Pixel;

fn px(r: u8, g: u8, b: u8, a: u8) -> Pixel {
    Pixel { r, g, b, a }
}

fn solid(width: u32, height: u32, p: Pixel) -> Bitmap {
    let pixels = vec![p; (width * height) as usize];
    Bitmap::from_pixels(width, height, pixels).unwrap()
}

/// An 8x8 dark haystack with a bright, distinct 3x3 pattern whose top-left
/// corner is at (2, 1), and the matching 3x3 needle.
fn embedded_pattern() -> (Bitmap, Bitmap) {
    let mut hay = solid(8, 8, px(10, 10, 10, 255));
    let mut needle_pixels = Vec::new();
    for dy in 0..3u32 {
        for dx in 0..3u32 {
            let p = px(100 + (dx * 40) as u8, 100 + (dy * 40) as u8, 200, 255);
            needle_pixels.push(p);
            let idx = ((1 + dy) * 8 + (2 + dx)) as usize;
            hay.pixels[idx] = p;
        }
    }
    let needle = Bitmap::from_pixels(3, 3, needle_pixels).unwrap();
    (hay, needle)
}

#[test]
fn locate_is_deterministic() {
    let (hay, needle) = embedded_pattern();
    let first = locate(&hay, &needle, 9, 10, 25);
    let second = locate(&hay, &needle, 9, 10, 25);
    assert_eq!(first, second);
    assert!(first.is_some());
}

#[test]
fn embedded_needle_found_with_full_confidence() {
    let (hay, needle) = embedded_pattern();
    // Tolerances below the contrast between glyph and background, so that
    // no earlier raster position reaches the threshold first.
    for tolerance in [0u8, 10, 25, 80] {
        let r = locate(&hay, &needle, 9, 10, tolerance).unwrap();
        assert_eq!((r.x, r.y), (2, 1));
        assert_eq!((r.width, r.height), (3, 3));
        assert_eq!(r.matched, r.total);
        assert_eq!(r.total, 9);
    }
}

#[test]
fn transparent_pixel_color_never_affects_result() {
    let (hay, mut needle) = embedded_pattern();
    needle.pixels[4] = px(0, 0, 0, 0);
    let baseline = locate(&hay, &needle, 9, 10, 0);
    assert!(baseline.is_some());
    for (r, g, b) in [(0, 0, 0), (255, 255, 255), (10, 10, 10), (137, 3, 250)] {
        needle.pixels[4] = px(r, g, b, 0);
        assert_eq!(locate(&hay, &needle, 9, 10, 0), baseline);
    }
    let found = baseline.unwrap();
    assert_eq!((found.x, found.y), (2, 1));
    assert_eq!(found.matched, 8);
    assert_eq!(found.total, 8);
}

#[test]
fn rejected_position_counts_only_the_scanned_prefix() {
    // Needle [A, C] against haystack [A, B]: the scan at the only position
    // matches A, then stops at the mismatch, so confidence is 1/2 exactly.
    let a = px(100, 100, 100, 255);
    let b = px(200, 200, 200, 255);
    let c = px(10, 10, 10, 255);
    let hay = Bitmap::from_pixels(2, 1, vec![a, b]).unwrap();
    let needle = Bitmap::from_pixels(2, 1, vec![a, c]).unwrap();
    let r = locate(&hay, &needle, 1, 2, 5).unwrap();
    assert_eq!((r.x, r.y), (0, 0));
    assert_eq!((r.matched, r.total), (1, 2));
    assert_eq!(locate(&hay, &needle, 6, 10, 5), None);
}

#[test]
fn first_position_in_raster_order_wins() {
    let on = px(250, 250, 250, 255);
    let mut hay = solid(6, 2, px(0, 0, 0, 255));
    // The needle appears at (4, 0) and at (1, 1); (4, 0) is earlier.
    hay.pixels[4] = on;
    hay.pixels[6 + 1] = on;
    let needle = Bitmap::from_pixels(1, 1, vec![on]).unwrap();
    let r = locate(&hay, &needle, 1, 1, 0).unwrap();
    assert_eq!((r.x, r.y), (4, 0));
}

#[test]
fn needle_larger_than_haystack_is_not_found() {
    let p = px(1, 2, 3, 255);
    let hay = solid(2, 2, p);
    let needle = solid(3, 1, p);
    assert_eq!(locate(&hay, &needle, 0, 1, 25), None);
}

#[test]
fn no_match_returns_none() {
    let (hay, _) = embedded_pattern();
    let needle = solid(3, 3, px(255, 0, 0, 255));
    assert_eq!(locate(&hay, &needle, 9, 10, 10), None);
}

#[test]
fn fully_transparent_needle_has_zero_confidence() {
    let hay = solid(4, 4, px(5, 5, 5, 255));
    let needle = solid(2, 2, px(9, 9, 9, 0));
    assert_eq!(locate(&hay, &needle, 1, 10, 25), None);
    let r = locate(&hay, &needle, 0, 1, 25).unwrap();
    assert_eq!((r.x, r.y), (0, 0));
    assert_eq!((r.matched, r.total), (0, 0));
}

#[test]
fn within_tolerance_clamps_at_both_ends() {
    assert!(within_tolerance(0, 10, 25));
    assert!(within_tolerance(35, 10, 25));
    assert!(!within_tolerance(36, 10, 25));
    assert!(within_tolerance(255, 240, 25));
    assert!(within_tolerance(215, 240, 25));
    assert!(!within_tolerance(214, 240, 25));
    assert!(within_tolerance(77, 77, 0));
    assert!(!within_tolerance(78, 77, 0));
}
