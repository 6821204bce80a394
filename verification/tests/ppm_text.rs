use raytracer::colour::Colour;
use raytracer::image::Image;

#[test]
fn ppm_document_is_exact() {
    let mut img = Image::new(2, 2, Colour { r: 0, g: 0, b: 0 });
    img.set_pixel(0, 2, Colour { r: 255, g: 0, b: 63 });
    img.set_pixel(1, 1, Colour { r: 85, g: 205, b: 252 });
    let text = String::from_utf8(img.ppm_bytes()).unwrap();
    assert_eq!(
        text,
        "P3\n2 2\n255\n255 0 63\n0 0 0\n0 0 0\n85 205 252\n"
    );
}

#[test]
fn ppm_header_prints_multi_digit_dimensions() {
    let img = Image::new(500, 10, Colour { r: 7, g: 0, b: 0 });
    let bytes = img.ppm_bytes();
    let text = String::from_utf8(bytes).unwrap();
    assert!(text.starts_with("P3\n500 10\n255\n"));
    assert!(text.ends_with("7 0 0\n"));
    assert_eq!(text.lines().count(), 3 + 500 * 10);
}

#[test]
fn ppm_of_empty_image_is_header_only() {
    let img = Image::new(3, 0, Colour { r: 1, g: 2, b: 3 });
    let text = String::from_utf8(img.ppm_bytes()).unwrap();
    assert_eq!(text, "P3\n3 0\n255\n");
}
