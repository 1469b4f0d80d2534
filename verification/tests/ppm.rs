use pixmap::image::Image;
use pixmap::image::Pixel;

#[test]
fn test_pixel_print() {
    let pixel = Pixel { r: 42, g: 0, b: 0 };
    assert_eq!(pixel.ppm_text(), " 42   0   0");
}

#[test]
fn test_image_init() {
    let img = Image::new_assign(2, 2, |i, j| Pixel {
        r: i as u8,
        g: j as u8,
        b: i as u8,
    });
    assert_eq!(
        img.ppm_text(),
        "P3\n2 2\n255\n  0   0   0\n  0   1   0\n  1   0   1\n  1   1   1\n"
    );
}

#[test]
fn default_pixel_is_black() {
    let p: Pixel = Default::default();
    assert_eq!(p, Pixel { r: 0, g: 0, b: 0 });
}

#[test]
fn new_image_is_black() {
    let img = Image::new(3, 2);
    assert_eq!(img.width, 3);
    assert_eq!(img.height, 2);
    assert_eq!(
        img.ppm_text(),
        "P3\n3 2\n255\n  0   0   0\n  0   0   0\n  0   0   0\n  0   0   0\n  0   0   0\n  0   0   0\n"
    );
}

#[test]
fn empty_image() {
    let img = Image::new(0, 0);
    assert_eq!(img.ppm_text(), "P3\n0 0\n255\n");
}

#[test]
fn field_widths() {
    assert_eq!(Pixel { r: 255, g: 100, b: 7 }.ppm_text(), "255 100   7");
    assert_eq!(Pixel { r: 9, g: 10, b: 99 }.ppm_text(), "  9  10  99");
    assert_eq!(Pixel { r: 0, g: 101, b: 250 }.ppm_text(), "  0 101 250");
}

#[test]
fn multi_digit_dimensions() {
    let img = Image::new(300, 2);
    let text = img.ppm_text();
    assert!(text.starts_with("P3\n300 2\n255\n"));
    // Every pixel line is exactly 11 characters plus its newline.
    assert_eq!(text.len(), "P3\n300 2\n255\n".len() + 12 * 300 * 2);
    assert!(text.ends_with("  0   0   0\n"));
}

#[test]
fn row_major_order() {
    let img = Image::new_assign(3, 2, |i, j| Pixel {
        r: (10 * i + j) as u8,
        g: 0,
        b: 255,
    });
    assert_eq!(
        img.ppm_text(),
        "P3\n3 2\n255\n  0   0 255\n  1   0 255\n  2   0 255\n 10   0 255\n 11   0 255\n 12   0 255\n"
    );
}
