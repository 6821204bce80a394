use raytracer::colour::Colour;
use raytracer::image::Image;

#[test]
fn new_image_reports_its_dimensions() {
    let img = Image::new(7, 5, Colour { r: 0, g: 0, b: 0 });
    assert_eq!(img.width(), 7);
    assert_eq!(img.height(), 5);
}

#[test]
fn new_image_is_filled_with_the_background() {
    let fill = Colour { r: 9, g: 8, b: 7 };
    let img = Image::new(3, 2, fill);
    for x in 0..3 {
        for y in 1..=2 {
            assert_eq!(img.pixel(x, y), fill);
        }
    }
}

#[test]
fn set_pixel_writes_one_slot_only() {
    let fill = Colour { r: 0, g: 0, b: 0 };
    let hit = Colour { r: 255, g: 0, b: 63 };
    let mut img = Image::new(4, 3, fill);
    img.set_pixel(2, 3, hit);
    for x in 0..4 {
        for y in 1..=3 {
            if (x, y) == (2, 3) {
                assert_eq!(img.pixel(x, y), hit);
            } else {
                assert_eq!(img.pixel(x, y), fill);
            }
        }
    }
}

#[test]
fn coordinates_come_in_buffer_order() {
    // Rows are numbered from `height` at the start of the buffer down to 1.
    let img = Image::new(2, 2, Colour { r: 0, g: 0, b: 0 });
    let coords = img.iter_mut();
    assert_eq!(coords, vec![(0, 2), (1, 2), (0, 1), (1, 1)]);
}

#[test]
fn every_coordinate_is_listed_exactly_once() {
    let img = Image::new(5, 4, Colour { r: 0, g: 0, b: 0 });
    let coords = img.iter_mut();
    assert_eq!(coords.len(), 20);
    for x in 0..5 {
        for y in 1..=4 {
            assert_eq!(coords.iter().filter(|&&c| c == (x, y)).count(), 1);
        }
    }
}
