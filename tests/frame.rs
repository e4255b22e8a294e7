use stereogram::camera::Point2;
use stereogram::catalog::{Hypersolid, PlatonicSolid};
use stereogram::depth::DrawEdge;
use stereogram::fixed::ONE;
use stereogram::frame::{eye_center, hypersolid_view, solid_view, stereo_pair};
use stereogram::geometry::{Rotation3, Rotation4, Trig};
use stereogram::view::ViewState;

const SW: i128 = 393_000_000;
const SH: i128 = 852_000_000;

fn far_to_near(v: &[DrawEdge]) -> bool {
    v.windows(2).all(|p| p[0].depth >= p[1].depth)
}

#[test]
fn eye_centres() {
    assert_eq!(eye_center(SW, SH, false), (98_250_000, 426_000_000));
    assert_eq!(eye_center(SW, SH, true), (98_250_000 + 196_500_000, 426_000_000));
}

#[test]
fn cube_corner_in_the_left_eye() {
    let mut v = ViewState::new();
    v.eye_separation = 60_000;
    v.perspective_distance = 10_000_000;
    let edges = solid_view(&v, Rotation3::identity(), SW, SH, false);
    assert_eq!(edges.len(), 12);
    let corner = Point2 { x: 98_250_000 + 52_036_363, y: 426_000_000 - 49_090_909 };
    let touching = edges.iter().filter(|e| e.start == corner || e.end == corner).count();
    assert_eq!(touching, 3);
    assert!(far_to_near(&edges));
}

#[test]
fn cube_far_face_drawn_first() {
    let v = ViewState::new();
    let edges = solid_view(&v, Rotation3::identity(), SW, SH, true);
    // the four edges of the face at z = 1 come first, those at z = -1 last
    for e in &edges[0..4] {
        assert_eq!(e.depth, ONE);
    }
    for e in &edges[8..12] {
        assert_eq!(e.depth, -ONE);
    }
    // light background: nearest darkest, farthest lightest
    assert_eq!(edges[0].shade, 850);
    assert_eq!(edges[11].shade, 100);
    assert_eq!(edges[5].shade, 550);
}

#[test]
fn flat_shading_without_depth_coloring() {
    let mut v = ViewState::new();
    v.toggle_depth_coloring();
    v.toggle_background();
    let edges = solid_view(&v, Rotation3::identity(), SW, SH, false);
    assert!(edges.iter().all(|e| e.shade == 1000));
}

#[test]
fn the_two_eyes_differ_only_across() {
    let v = ViewState::new();
    let (left, right) = stereo_pair(&v, Rotation3::identity(), Rotation4::identity(), SW, SH);
    assert_eq!(left.len(), 12);
    assert_eq!(right.len(), 12);
    assert!(far_to_near(&left) && far_to_near(&right));
    let ly: i128 = left.iter().map(|e| e.start.y + e.end.y).sum();
    let ry: i128 = right.iter().map(|e| e.start.y + e.end.y).sum();
    assert_eq!(ly, ry);
    let lx: i128 = left.iter().map(|e| e.start.x + e.end.x).sum();
    let rx: i128 = right.iter().map(|e| e.start.x + e.end.x).sum();
    // the right eye sits further right, so its picture shifts left within
    // its half of the screen
    assert!(rx - lx < 24 * 196_500_000);
    assert!(rx - lx > 24 * 190_000_000);
}

#[test]
fn tesseract_view() {
    let mut v = ViewState::new();
    v.toggle_dimension();
    let (left, right) = stereo_pair(&v, Rotation3::identity(), Rotation4::identity(), SW, SH);
    assert_eq!(left.len(), 32);
    assert_eq!(right.len(), 32);
    assert!(far_to_near(&left));
    v.toggle_w_depth_coloring();
    let edges = hypersolid_view(&v, Rotation4::identity(), Rotation3::identity(), SW, SH, false);
    // the edges of the cube at w = 1 are the darkest on a light background
    let darkest = edges.iter().filter(|e| e.shade == 0).count();
    assert_eq!(darkest, 12);
    assert!(edges.iter().all(|e| e.w == ONE || e.w == -ONE || e.w == 0));
}

#[test]
fn hypersolid_fills_a_quarter_of_the_width() {
    let mut v = ViewState::new();
    v.toggle_dimension();
    v.toggle_projection();
    v.hypersolid = Hypersolid::FourOrthoplex;
    let edges = hypersolid_view(&v, Rotation4::identity(), Rotation3::identity(), SW, SH, false);
    assert_eq!(edges.len(), 24);
    let xs: Vec<i128> = edges.iter().flat_map(|e| [e.start.x, e.end.x]).collect();
    let ys: Vec<i128> = edges.iter().flat_map(|e| [e.start.y, e.end.y]).collect();
    let w = xs.iter().max().unwrap() - xs.iter().min().unwrap();
    let h = ys.iter().max().unwrap() - ys.iter().min().unwrap();
    let target = SW / 4;
    assert!(w.max(h) <= target + 2 && w.max(h) >= target - 2);
}

#[test]
fn rotated_solid_keeps_its_edges() {
    let mut v = ViewState::new();
    v.solid = PlatonicSolid::Dodecahedron;
    let t = Trig::from_parts(866_025, 500_000);
    let r = Rotation3 { x: t, y: t, z: Trig::identity() };
    let edges = solid_view(&v, r, SW, SH, false);
    assert_eq!(edges.len(), 30);
    assert!(far_to_near(&edges));
}

#[test]
fn each_eye_stays_in_its_half() {
    let sw: i128 = 200_000_000;
    let sh: i128 = 400_000_000;
    let mut v = ViewState::new();
    for _ in 0..6 {
        v.move_closer();
    }
    assert_eq!(v.perspective_distance, 2_000_000);
    for solid in [PlatonicSolid::Cube, PlatonicSolid::Dodecahedron, PlatonicSolid::Icosahedron] {
        v.solid = solid;
        let t = Trig::from_parts(707_106, 707_106);
        let id = Trig::identity();
        for rot in [Rotation3::identity(), Rotation3 { x: id, y: t, z: id }] {
            let (left, right) = stereo_pair(&v, rot, Rotation4::identity(), sw, sh);
            assert!(!left.is_empty() && !right.is_empty());
            for e in &left {
                assert!(0 <= e.start.x && e.start.x < sw / 2);
                assert!(0 <= e.end.x && e.end.x < sw / 2);
            }
            for e in &right {
                assert!(sw / 2 <= e.start.x && e.start.x < sw);
                assert!(sw / 2 <= e.end.x && e.end.x < sw);
            }
        }
    }
}

#[test]
fn clipped_edges_end_on_the_middle() {
    // the cube at distance 2 on a 200 pixel screen reaches past the middle
    let mut v = ViewState::new();
    for _ in 0..6 {
        v.move_closer();
    }
    let sw: i128 = 200_000_000;
    let left = solid_view(&v, Rotation3::identity(), sw, 400_000_000, false);
    assert!(left.iter().any(|e| e.start.x == sw / 2 - 1 || e.end.x == sw / 2 - 1));
}

#[test]
fn nearest_face_keeps_its_width() {
    let mut widths = Vec::new();
    for d in [2_000_000i64, 4_000_000, 8_000_000] {
        let mut v = ViewState::new();
        v.perspective_distance = d;
        let edges = solid_view(&v, Rotation3::identity(), SW, SH, false);
        let near: Vec<&DrawEdge> = edges.iter().filter(|e| e.depth == -ONE).collect();
        assert_eq!(near.len(), 4);
        let xs: Vec<i128> = near.iter().flat_map(|e| [e.start.x, e.end.x]).collect();
        widths.push(xs.iter().max().unwrap() - xs.iter().min().unwrap());
    }
    assert_eq!(widths, vec![120_000_000, 120_000_000, 120_000_000]);
}

#[test]
fn both_eyes_draw_in_the_same_order() {
    let v = ViewState::new();
    let t = Trig::from_parts(866_025, 500_000);
    let r = Rotation3 { x: t, y: Trig::identity(), z: t };
    let (left, right) = stereo_pair(&v, r, Rotation4::identity(), SW, SH);
    let l: Vec<usize> = left.iter().map(|e| e.index).collect();
    let rr: Vec<usize> = right.iter().map(|e| e.index).collect();
    assert_eq!(l, rr);
}
