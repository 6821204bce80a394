use raytracer::colour::Colour;
use raytracer::shading::{shade, sum_colours};

#[test]
fn white_is_multiplicative_identity() {
    let white = Colour { r: 255, g: 255, b: 255 };
    let red = Colour { r: 128, g: 0, b: 0 };
    assert_eq!(white.mul(red), red);
    assert_eq!(red.mul(white), red);
}

#[test]
fn addition_saturates() {
    let a = Colour { r: 200, g: 0, b: 0 };
    let b = Colour { r: 100, g: 0, b: 0 };
    assert_eq!(a.add(b), Colour { r: 255, g: 0, b: 0 });
}

#[test]
fn addition_below_saturation_is_exact() {
    let a = Colour { r: 10, g: 20, b: 30 };
    let b = Colour { r: 1, g: 2, b: 3 };
    assert_eq!(a.add(b), Colour { r: 11, g: 22, b: 33 });
}

#[test]
fn attenuation_truncates_per_channel() {
    let a = Colour { r: 200, g: 100, b: 50 };
    let half = Colour { r: 128, g: 128, b: 128 };
    // 200*128/255 = 100, 100*128/255 = 50, 50*128/255 = 25, each truncated.
    assert_eq!(a.mul(half), Colour { r: 100, g: 50, b: 25 });
}

#[test]
fn black_annihilates() {
    let black = Colour { r: 0, g: 0, b: 0 };
    let c = Colour { r: 85, g: 205, b: 252 };
    assert_eq!(c.mul(black), black);
    assert_eq!(black.mul(c), black);
}

#[test]
fn attenuation_commutes() {
    let a = Colour { r: 7, g: 99, b: 255 };
    let b = Colour { r: 130, g: 4, b: 211 };
    assert_eq!(a.mul(b), b.mul(a));
}

#[test]
fn sum_of_no_lights_is_black() {
    let contributions: Vec<Colour> = Vec::new();
    assert_eq!(sum_colours(&contributions), Colour { r: 0, g: 0, b: 0 });
}

#[test]
fn sum_accumulates_and_saturates() {
    let contributions = vec![
        Colour { r: 100, g: 10, b: 0 },
        Colour { r: 100, g: 10, b: 0 },
        Colour { r: 100, g: 10, b: 0 },
    ];
    assert_eq!(sum_colours(&contributions), Colour { r: 255, g: 30, b: 0 });
}

#[test]
fn shade_combines_diffuse_and_ambient() {
    let base = Colour { r: 255, g: 0, b: 63 };
    let diffuse = Colour { r: 200, g: 200, b: 200 };
    let ambient = Colour { r: 25, g: 25, b: 25 };
    // 200 + 25 = 225; 255*225/255 = 225, 0*225/255 = 0, 63*225/255 = 55.
    assert_eq!(shade(base, diffuse, ambient), Colour { r: 225, g: 0, b: 55 });
}

#[test]
fn occluded_surface_keeps_only_ambient() {
    // One light, fully occluded: the diffuse sum is black, so the pixel is
    // the base colour attenuated by the ambient term alone.
    let base = Colour { r: 200, g: 100, b: 50 };
    let no_diffuse = sum_colours(&Vec::new());
    let ambient = Colour { r: 25, g: 25, b: 25 };
    assert_eq!(shade(base, no_diffuse, ambient), base.mul(ambient));
    // 200*25/255 = 19, 100*25/255 = 9, 50*25/255 = 4.
    assert_eq!(shade(base, no_diffuse, ambient), Colour { r: 19, g: 9, b: 4 });
}
