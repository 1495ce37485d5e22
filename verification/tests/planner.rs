use img_encoder::options::ImageColor;
use img_encoder::planner::{img_dimensions, num_components};

const ALL_COLORS: [ImageColor; 4] = [
    ImageColor::Gray,
    ImageColor::GrayA,
    ImageColor::Rgb,
    ImageColor::RgbA,
];

#[test]
fn components_per_format() {
    assert_eq!(num_components(ImageColor::Gray), 1);
    assert_eq!(num_components(ImageColor::GrayA), 2);
    assert_eq!(num_components(ImageColor::Rgb), 3);
    assert_eq!(num_components(ImageColor::RgbA), 4);
}

#[test]
fn capacity_sufficiency_and_minimality() {
    for color in ALL_COLORS {
        let c = num_components(color) as usize;
        for len in 0usize..600 {
            let (w, h) = img_dimensions(len, color);
            assert_eq!(w, h);
            assert!(w >= 1);
            let side = w as usize;
            assert!(side * side * c >= len, "undershoot at len {len}");
            if side > 1 {
                assert!(
                    (side - 1) * (side - 1) * c < len,
                    "not minimal at len {len}"
                );
            }
        }
    }
}

#[test]
fn zero_length_payload_gets_unit_canvas() {
    for color in ALL_COLORS {
        assert_eq!(img_dimensions(0, color), (1, 1));
    }
}

#[test]
fn rgb_ten_bytes_needs_two_by_two() {
    // capacity per channel = ceil(10 / 3) = 4, side = ceil(sqrt(4)) = 2
    let (w, h) = img_dimensions(10, ImageColor::Rgb);
    assert_eq!((w, h), (2, 2));
    assert_eq!(w as usize * h as usize * 3, 12);
}

#[test]
fn rgba_sixteen_bytes_fits_two_by_two_exactly() {
    // capacity per channel = 16 / 4 = 4, side = ceil(sqrt(4)) = 2
    let (w, h) = img_dimensions(16, ImageColor::RgbA);
    assert_eq!((w, h), (2, 2));
    assert_eq!(w as usize * h as usize * 4, 16);
}

#[test]
fn perfect_squares_are_not_rounded_up() {
    // near-perfect-square capacities must not undershoot or overshoot
    for side in 1usize..64 {
        let len = side * side;
        let (w, h) = img_dimensions(len, ImageColor::Gray);
        assert_eq!((w, h), (side as u32, side as u32));
    }
}
