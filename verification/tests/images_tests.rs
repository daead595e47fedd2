use image::DynamicImage;
use image::Rgba;
use image::RgbaImage;
use latency_reader::images::find_timer_spect;
use latency_reader::images::locate_image;

/// An 8x8 dark screenshot with a bright 3x3 glyph at (2, 1), and the
/// matching 3x3 template, both as dynamic images.
fn screenshot_with_glyph() -> (DynamicImage, DynamicImage) {
    let mut hay = RgbaImage::new(8, 8);
    for y in 0..8 {
        for x in 0..8 {
            hay.put_pixel(x, y, Rgba([10, 10, 10, 255]));
        }
    }
    let mut needle = RgbaImage::new(3, 3);
    for dy in 0..3 {
        for dx in 0..3 {
            let p = Rgba([(100 + dx * 40) as u8, (100 + dy * 40) as u8, 200, 255]);
            needle.put_pixel(dx, dy, p);
            hay.put_pixel(2 + dx, 1 + dy, p);
        }
    }
    (DynamicImage::ImageRgba8(hay), DynamicImage::ImageRgba8(needle))
}

#[test]
fn locate_image_finds_the_glyph_pixels() {
    let (hay, needle) = screenshot_with_glyph();
    let r = locate_image(&hay, &needle, Some((9, 10)), Some(0)).unwrap();
    assert_eq!((r.x, r.y), (2, 1));
    assert_eq!((r.width, r.height), (3, 3));
    assert_eq!((r.matched, r.total), (9, 9));
}

#[test]
fn locate_image_defaults_apply() {
    let (hay, needle) = screenshot_with_glyph();
    let r = locate_image(&hay, &needle, None, None).unwrap();
    assert_eq!((r.x, r.y), (2, 1));
}

#[test]
fn locate_image_misses_an_absent_glyph() {
    let (hay, _) = screenshot_with_glyph();
    let mut absent = RgbaImage::new(2, 2);
    for y in 0..2 {
        for x in 0..2 {
            absent.put_pixel(x, y, Rgba([255, 0, 0, 255]));
        }
    }
    let absent = DynamicImage::ImageRgba8(absent);
    assert_eq!(locate_image(&hay, &absent, Some((9, 10)), Some(10)), None);
}

#[test]
fn find_timer_spect_uses_the_capture_thresholds() {
    let (hay, needle) = screenshot_with_glyph();
    let r = find_timer_spect(&hay, &needle).unwrap();
    assert_eq!((r.x, r.y), (2, 1));
    assert_eq!(r.matched, r.total);
}
