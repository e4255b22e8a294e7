use stereogram::camera::{fit_scale, project_point, solid_scale, Camera, Point2, MIN_DEPTH};
use stereogram::fixed::ONE;
use stereogram::geometry::Vertex3;

fn perspective(distance: i64) -> Camera {
    Camera {
        center_x: 98_250_000,
        center_y: 426_000_000,
        scale: solid_scale(distance, false),
        distance,
        orthographic: false,
    }
}

#[test]
fn left_eye_projection_of_cube_corner() {
    // eye separation 0.06, distance 10, no rotation: the corner (1, 1, 1)
    // seen by the left eye lands at center + (1 - (-0.06)) * scale / (1 + 10).
    let cam = perspective(10_000_000);
    assert_eq!(cam.scale, 540_000_000);
    let p = project_point(Vertex3 { x: ONE, y: ONE, z: ONE }, -60_000, cam);
    let expected_x = 98_250_000 + (1_060_000i128 * 540_000_000) / 11_000_000;
    assert_eq!(p.x, expected_x);
    assert_eq!(p.x, 98_250_000 + 52_036_363);
    assert_eq!(p.y, 426_000_000 - 49_090_909);
    let screen_x = p.x as f64 / 1_000_000.0;
    let formula = 98.25 + (1.0 - (-0.06)) * 540.0 / (1.0 * 1.0 + 10.0);
    assert!((screen_x - formula).abs() < 1e-5);
}

#[test]
fn right_eye_projection_of_cube_corner() {
    let cam = perspective(10_000_000);
    let p = project_point(Vertex3 { x: ONE, y: ONE, z: ONE }, 60_000, cam);
    assert_eq!(p.x, 98_250_000 + 46_145_454);
}

#[test]
fn scales() {
    assert_eq!(solid_scale(4_000_000, false), 180_000_000);
    assert_eq!(solid_scale(5_000_000, false), 240_000_000);
    assert_eq!(solid_scale(5_000_000, true), 72_000_000);
    assert_eq!(solid_scale(10_000_000, true), 72_000_000);
}

#[test]
fn doubling_distance_keeps_the_nearest_face() {
    for d in [2_000_000i64, 3_000_000, 5_000_000, 7_500_000, 10_000_000] {
        let corner = Vertex3 { x: ONE, y: -ONE, z: -ONE };
        let a = project_point(corner, -60_000, perspective(d));
        let b = project_point(corner, -60_000, perspective(2 * d));
        assert_eq!(a, b);
        assert_eq!(a, Point2 { x: 98_250_000 + 63_600_000, y: 426_000_000 + 60_000_000 });
    }
}

#[test]
fn orthographic_ignores_depth() {
    let cam = Camera {
        center_x: 0,
        center_y: 0,
        scale: 45_000_000,
        distance: 5_000_000,
        orthographic: true,
    };
    let a = project_point(Vertex3 { x: ONE, y: -ONE, z: ONE }, 0, cam);
    let b = project_point(Vertex3 { x: ONE, y: -ONE, z: -ONE }, 0, cam);
    assert_eq!(a, b);
    assert_eq!(a, Point2 { x: 45_000_000, y: 45_000_000 });
}

#[test]
fn points_at_or_behind_the_eye_use_the_least_depth() {
    let cam = perspective(2_000_000);
    let p = project_point(Vertex3 { x: 1, y: 0, z: -3_000_000 }, 0, cam);
    assert_eq!(p.x, 98_250_000 + (60_000_000i128 / MIN_DEPTH as i128));
}

#[test]
fn fitted_scale_fills_the_target() {
    let pts = vec![
        Vertex3 { x: ONE, y: ONE, z: 0 },
        Vertex3 { x: -ONE, y: -ONE, z: 0 },
        Vertex3 { x: 0, y: ONE / 2, z: ONE },
    ];
    assert_eq!(fit_scale(&pts, 5_000_000, true, 100_000_000), 50_000_000);
    // perspective: x / (5 + z) spans 1/5 - (-1/5) = 0.4 units
    assert_eq!(fit_scale(&pts, 5_000_000, false, 100_000_000), 250_000_000);
    let same = vec![Vertex3 { x: 3, y: 3, z: 3 }, Vertex3 { x: 3, y: 3, z: 3 }];
    assert_eq!(fit_scale(&same, 5_000_000, true, 100_000_000), ONE as i128);
    assert_eq!(fit_scale(&Vec::new(), 5_000_000, true, 100_000_000), ONE as i128);
}
