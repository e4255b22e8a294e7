use stereogram::catalog::{Hypersolid, PlatonicSolid};
use stereogram::fixed::ONE;
use stereogram::geometry::{
    fold_to_3d, rotate_point3, rotate_point4, turn_plane, Rotation3, Rotation4, Trig, Vertex3,
    Vertex4,
};
use stereogram::view::{step_angle, TURN};

fn trig_of(micro_degrees: i64) -> Trig {
    let radians = (micro_degrees as f64) / 1_000_000.0 * std::f64::consts::PI / 180.0;
    let c = (radians.cos() * ONE as f64).round() as i64;
    let s = (radians.sin() * ONE as f64).round() as i64;
    Trig::from_parts(c, s)
}

#[test]
fn rotation_by_zero_is_identity() {
    let id3 = Rotation3::identity();
    for s in [
        PlatonicSolid::Tetrahedron,
        PlatonicSolid::Cube,
        PlatonicSolid::Octahedron,
        PlatonicSolid::Dodecahedron,
        PlatonicSolid::Icosahedron,
    ] {
        for v in s.vertices() {
            assert_eq!(rotate_point3(v, id3), v);
        }
    }
    let id4 = Rotation4::identity();
    for h in [Hypersolid::Tesseract, Hypersolid::FourSimplex, Hypersolid::FourOrthoplex] {
        for v in h.vertices() {
            assert_eq!(rotate_point4(v, id4), v);
        }
    }
}

#[test]
fn quarter_turns() {
    let quarter = Trig { cos: 0, sin: ONE };
    assert_eq!(turn_plane(ONE, 0, quarter), (0, ONE));
    assert_eq!(turn_plane(0, ONE, quarter), (-ONE, 0));
    let id = Trig::identity();
    let about_z = Rotation3 { x: id, y: id, z: quarter };
    assert_eq!(
        rotate_point3(Vertex3 { x: ONE, y: 0, z: 0 }, about_z),
        Vertex3 { x: 0, y: ONE, z: 0 }
    );
    let about_x = Rotation3 { x: quarter, y: id, z: id };
    assert_eq!(
        rotate_point3(Vertex3 { x: 0, y: ONE, z: 0 }, about_x),
        Vertex3 { x: 0, y: 0, z: ONE }
    );
    let about_y = Rotation3 { x: id, y: quarter, z: id };
    assert_eq!(
        rotate_point3(Vertex3 { x: 0, y: 0, z: ONE }, about_y),
        Vertex3 { x: ONE, y: 0, z: 0 }
    );
    let xw = Rotation4 { xy: id, xz: id, yz: id, xw: quarter, yw: id, zw: id };
    assert_eq!(
        rotate_point4(Vertex4 { x: ONE, y: 0, z: 0, w: 0 }, xw),
        Vertex4 { x: 0, y: 0, z: 0, w: ONE }
    );
}

#[test]
fn rotations_compose_in_order() {
    // About X first, then Z: (0, 1, 0) goes to (0, 0, 1) and stays there.
    let quarter = Trig { cos: 0, sin: ONE };
    let id = Trig::identity();
    let r = Rotation3 { x: quarter, y: id, z: quarter };
    assert_eq!(rotate_point3(Vertex3 { x: 0, y: ONE, z: 0 }, r), Vertex3 { x: 0, y: 0, z: ONE });
    // XY first, then XW: (1, 0, 0, 0) goes to (0, 1, 0, 0) and stays there.
    let r4 = Rotation4 { xy: quarter, xz: id, yz: id, xw: quarter, yw: id, zw: id };
    assert_eq!(
        rotate_point4(Vertex4 { x: ONE, y: 0, z: 0, w: 0 }, r4),
        Vertex4 { x: 0, y: ONE, z: 0, w: 0 }
    );
}

#[test]
fn a_whole_turn_returns_every_vertex() {
    // 320 frames at 1.125 degrees a frame make one whole turn.
    let mut a: i64 = 12_345_678;
    let start = a;
    for _ in 0..320 {
        a = step_angle(a, 1_125_000);
    }
    assert_eq!(a, start);
    let before = trig_of(start);
    let after = trig_of(a);
    let r0 = Rotation3 { x: before, y: before, z: before };
    let r1 = Rotation3 { x: after, y: after, z: after };
    for v in PlatonicSolid::Dodecahedron.vertices() {
        assert_eq!(rotate_point3(v, r0), rotate_point3(v, r1));
    }
    assert_eq!(step_angle(TURN - 1, 1), 0);
}

#[test]
fn rotation_keeps_length() {
    let t = trig_of(37_000_000);
    let r = Rotation3 { x: t, y: trig_of(100_000_000), z: trig_of(250_000_000) };
    for v in PlatonicSolid::Icosahedron.vertices() {
        let p = rotate_point3(v, r);
        let n0 = (v.x as i128).pow(2) + (v.y as i128).pow(2) + (v.z as i128).pow(2);
        let n1 = (p.x as i128).pow(2) + (p.y as i128).pow(2) + (p.z as i128).pow(2);
        assert!(n1 <= n0);
        assert!(n0 - n1 < 100 * ONE as i128);
    }
}

#[test]
fn fold_spreads_w() {
    assert_eq!(
        fold_to_3d(Vertex4 { x: 0, y: 0, z: 0, w: ONE }),
        Vertex3 { x: 200_000, y: 200_000, z: 500_000 }
    );
    assert_eq!(
        fold_to_3d(Vertex4 { x: ONE, y: -ONE, z: 0, w: -ONE }),
        Vertex3 { x: 800_000, y: -1_200_000, z: -500_000 }
    );
    assert_eq!(
        fold_to_3d(Vertex4 { x: 0, y: 0, z: 0, w: -7 }),
        Vertex3 { x: -1, y: -1, z: -3 }
    );
}

#[test]
fn trig_pairs_kept_inside_the_circle() {
    assert_eq!(Trig::from_parts(ONE, 0), Trig { cos: ONE, sin: 0 });
    assert_eq!(Trig::from_parts(707_106, 707_106), Trig { cos: 707_106, sin: 707_106 });
    assert_eq!(Trig::from_parts(707_107, 707_107), Trig { cos: 707_106, sin: 707_106 });
    assert_eq!(Trig::from_parts(ONE, 1), Trig { cos: 999_999, sin: 0 });
    assert_eq!(Trig::from_parts(ONE, ONE), Trig { cos: 707_106, sin: 707_106 });
    assert_eq!(Trig::from_parts(-ONE, -1), Trig { cos: -999_999, sin: 0 });
    assert_eq!(Trig::from_parts(707_107, -707_108), Trig { cos: 707_106, sin: -707_107 });
}
