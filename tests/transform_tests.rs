use korome::{FrameLoop, Transform};

const IDENTITY: [[f32; 4]; 4] = [
    [1., 0., 0., 0.],
    [0., 1., 0., 0.],
    [0., 0., 1., 0.],
    [0., 0., 0., 1.],
];

#[test]
fn texture_at_origin_unrotated_in_800_by_600_window() {
    let l: FrameLoop<()> = FrameLoop::new(800, 600);
    let (w, h) = l.window_size();
    let h_size = (w as f32 / 2.0, h as f32 / 2.0);
    assert_eq!(h_size, (400.0, 300.0));

    let m = Transform::<f32>::new().pos((0., 0.)).rotation(0.).matrix();
    assert_eq!(m, IDENTITY);
    assert_eq!(m[3], [0., 0., 0., 1.]);
}

#[test]
fn new_transform_is_identity() {
    let t = Transform::<f64>::new();
    assert_eq!(t.pos, (0., 0.));
    assert_eq!(t.sin_cos, (0., 1.));
    assert_eq!(Transform::<f32>::new().matrix(), IDENTITY);
}

#[test]
fn translation_goes_in_last_row() {
    let m = Transform::<f32>::new().pos((-154., 154.)).matrix();
    assert_eq!(m[0], [1., 0., 0., 0.]);
    assert_eq!(m[1], [0., 1., 0., 0.]);
    assert_eq!(m[2], [0., 0., 1., 0.]);
    assert_eq!(m[3], [-154., 154., 0., 1.]);
}

#[test]
fn rotation_by_quarter_turn() {
    let t = Transform::<f64>::new().pos((3., 4.)).rotation(std::f64::consts::FRAC_PI_2);
    assert_eq!(t.pos, (3., 4.));
    let (s, c) = t.sin_cos;
    assert!((s - 1.).abs() < 1e-12 && c.abs() < 1e-12);
    let m = t.matrix();
    assert_eq!(m[0], [c, s, 0., 0.]);
    assert_eq!(m[1], [-s, c, 0., 0.]);
    assert_eq!(m[2], [0., 0., 1., 0.]);
    assert_eq!(m[3], [3., 4., 0., 1.]);
}

#[test]
fn setters_change_one_field() {
    let t = Transform::<f32>::new().rotation(1.0);
    let moved = t.pos((10., -2.));
    assert_eq!(moved.sin_cos, t.sin_cos);
    assert_eq!(moved.pos, (10., -2.));
    let turned = moved.rotation(0.5);
    assert_eq!(turned.pos, (10., -2.));
    assert_eq!(turned.sin_cos, 0.5f32.sin_cos());
}

#[test]
fn rectangle_corners_in_strip_order() {
    let c = korome::rect_corners(16f32, 8.);
    assert_eq!(c, [[-16., -8.], [16., -8.], [16., 8.], [-16., 8.]]);
    let strip: Vec<[f32; 2]> = korome::QUAD_STRIP.iter().map(|&i| c[i as usize]).collect();
    assert_eq!(strip, vec![[-16., -8.], [16., -8.], [-16., 8.], [16., 8.]]);
}

#[test]
fn texture_quad_is_its_pixel_size() {
    let (width, height) = (32u32, 20u32);
    let c = korome::rect_corners(width as f64 / 2., height as f64 / 2.);
    assert_eq!(c[2][0] - c[0][0], 32.);
    assert_eq!(c[2][1] - c[0][1], 20.);
    assert_eq!(c[0], [-16., -10.]);
}
