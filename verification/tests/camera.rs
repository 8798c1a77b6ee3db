use simple2d::camera::set_border_radius;
use simple2d::camera::CameraError;
use simple2d::camera::WorldRect;
use simple2d::camera::F32_ONE_BITS;
use simple2d::camera::F32_TWO_BITS;
use simple2d::camera::F32_ZERO_BITS;

fn world(x1: f32, x2: f32, y1: f32, y2: f32) -> WorldRect {
    WorldRect { x1: x1.to_bits(), x2: x2.to_bits(), y1: y1.to_bits(), y2: y2.to_bits() }
}

#[test]
fn bit_pattern_constants_are_the_f32_values() {
    assert_eq!(F32_ZERO_BITS, 0.0f32.to_bits());
    assert_eq!(F32_ONE_BITS, 1.0f32.to_bits());
    assert_eq!(F32_TWO_BITS, 2.0f32.to_bits());
}

#[test]
fn scale_factors_match_formula() {
    let (x1, x2, y1, y2) = (10.0f32, 50.0f32, 5.0f32, 25.0f32);
    let u = set_border_radius(7, world(x1, x2, y1, y2), 800, 2.0f32.to_bits(), false).unwrap();
    let w = x2 - x1;
    let h = y2 - y1;
    assert_eq!(u.matrix[0], (2.0f32 / w).to_bits());
    assert_eq!(u.matrix[4], (-(2.0f32 / h)).to_bits());
}

#[test]
fn translation_and_fixed_cells_match_formula() {
    let (x1, x2, y1, y2) = (-3.0f32, 5.0f32, 1.0f32, 9.0f32);
    let u = set_border_radius(1, world(x1, x2, y1, y2), 640, 1.0f32.to_bits(), true).unwrap();
    let w = x2 - x1;
    let h = y2 - y1;
    assert_eq!(u.matrix[2], (x1 - w / 2.0).to_bits());
    assert_eq!(u.matrix[5], (y1 - h / 2.0).to_bits());
    assert_eq!(u.matrix[1], 0.0f32.to_bits());
    assert_eq!(u.matrix[3], 0.0f32.to_bits());
    assert_eq!(u.matrix[6], 0.0f32.to_bits());
    assert_eq!(u.matrix[7], 0.0f32.to_bits());
    assert_eq!(u.matrix[8], 1.0f32.to_bits());
    assert!(u.square);
    assert_eq!(u.program, 1);
}

#[test]
fn point_size_matches_formula() {
    let (x1, x2, y1, y2) = (0.0f32, 40.0f32, 0.0f32, 20.0f32);
    let u = set_border_radius(2, world(x1, x2, y1, y2), 800, 2.0f32.to_bits(), false).unwrap();
    let w = x2 - x1;
    let expected = 2.0f32 * (800.0f32 / w);
    assert_eq!(u.point_size, expected.to_bits());
}

#[test]
fn point_size_scales_linearly_with_viewport_width() {
    let r = world(0.0, 4.0, 0.0, 4.0);
    let ps = 3.0f32.to_bits();
    let narrow = set_border_radius(2, r, 100, ps, false).unwrap();
    let wide = set_border_radius(2, r, 200, ps, false).unwrap();
    assert_eq!(f32::from_bits(narrow.point_size), 75.0);
    assert_eq!(f32::from_bits(wide.point_size), 150.0);
    assert_eq!(
        f32::from_bits(wide.point_size),
        2.0 * f32::from_bits(narrow.point_size)
    );
}

#[test]
fn zero_width_world_rect_is_rejected() {
    let r = set_border_radius(1, world(5.0, 5.0, 0.0, 10.0), 640, 1.0f32.to_bits(), false);
    assert_eq!(r, Err(CameraError::DegenerateWorldRect));
}

#[test]
fn zero_height_world_rect_is_rejected() {
    let r = set_border_radius(1, world(0.0, 10.0, 2.0, 2.0), 640, 1.0f32.to_bits(), false);
    assert_eq!(r, Err(CameraError::DegenerateWorldRect));
}

#[test]
fn negative_zero_width_is_rejected_too() {
    // -0.0 - 0.0 is -0.0: a zero of the other sign still has no usable scale.
    let r = set_border_radius(1, world(0.0, -0.0, 0.0, 10.0), 640, 1.0f32.to_bits(), false);
    assert_eq!(r, Err(CameraError::DegenerateWorldRect));
}

#[test]
fn flipped_world_rect_is_not_degenerate() {
    // A right-to-left rectangle has a negative width, which is not zero.
    let u = set_border_radius(1, world(10.0, 0.0, 0.0, 10.0), 640, 1.0f32.to_bits(), false)
        .unwrap();
    assert_eq!(u.matrix[0], (2.0f32 / -10.0f32).to_bits());
}
