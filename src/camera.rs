//! The camera of one eye: the shift by the eye's offset, perspective or
//! orthographic projection onto the screen, and the scale rules that keep
//! the object's apparent size steady.

use vstd::prelude::*;
use crate::fixed::{ONE, COORD_LIMIT, tdiv, abs, div_toward_zero, div_toward_zero_wide, seq_min, seq_max, min_max};
use crate::geometry::{Vertex3, in_bounds3};

verus! {

/// The least depth in front of the eye that the perspective divide uses; a
/// point nearer than this, or behind the eye, is drawn as if at this depth.
pub const MIN_DEPTH: i64 = 10_000;

/// Largest magnitude of a screen coordinate given to the camera, in
/// micro-pixels (a hundred thousand pixels).
pub const SCREEN_LIMIT: i128 = 100_000_000_000;

/// Largest scale, in micro-pixels per unit.
pub const SCALE_LIMIT: i128 = 100_000_000_000_000;

/// Largest magnitude of a projected coordinate, in micro-pixels.
pub const POINT_LIMIT: i128 = 4_000_000_000_000_000_000;

/// Spans no wider than this many micro-units count as empty when the
/// four-dimensional view is sized.
pub const FLAT_SPAN: i128 = 1000;

/// Apparent size of a unit on the regular solid's nearest face in
/// perspective, in pixels: the face one unit in front of the centre, at
/// depth `d - 1`.
pub const FACE_SCALE: i64 = 60;

/// A point on the screen, in micro-pixels; Y grows downward.
#[derive(Clone, Copy, Debug, PartialEq, Eq, Structural)]
pub struct Point2 {
    pub x: i128,
    pub y: i128,
}

/// One eye's projection: the centre of its half of the screen, the scale,
/// the camera's distance from the object's centre, and the projection kind.
#[derive(Clone, Copy, Debug, PartialEq, Eq, Structural)]
pub struct Camera {
    pub center_x: i128,
    pub center_y: i128,
    pub scale: i128,
    pub distance: i64,
    pub orthographic: bool,
}

impl Camera {
    pub open spec fn wf(self) -> bool {
        &&& -SCREEN_LIMIT <= self.center_x <= SCREEN_LIMIT
        &&& -SCREEN_LIMIT <= self.center_y <= SCREEN_LIMIT
        &&& 0 <= self.scale <= SCALE_LIMIT
        &&& 0 < self.distance <= COORD_LIMIT
    }
}

/// The scale of the perspective view of a regular solid at distance `d`:
/// proportional to the depth `d - 1` of the nearest face, so that this face
/// keeps its apparent size of `FACE_SCALE` pixels per unit at every
/// distance (180 pixels per unit at a distance of four units).
pub open spec fn perspective_scale(d: int) -> int {
    FACE_SCALE * (d - ONE)
}

/// The scale of the orthographic view: the apparent scale of the nearest
/// face in perspective at the same distance, enlarged by a fifth.
pub open spec fn orthographic_scale(d: int) -> int {
    6 * (perspective_scale(d) * ONE / (d - ONE)) / 5
}

/// The depth of a point in front of the eye, never below `MIN_DEPTH`.
pub open spec fn eye_depth(z: int, d: int) -> int {
    if z + d < MIN_DEPTH {
        MIN_DEPTH as int
    } else {
        z + d
    }
}

/// Where `p` lands on the screen for an eye shifted by `offset` along X.
pub open spec fn project(p: Vertex3, offset: int, cam: Camera) -> Point2 {
    let xa = p.x - offset;
    if cam.orthographic {
        Point2 {
            x: (cam.center_x + tdiv(xa * cam.scale, ONE as int)) as i128,
            y: (cam.center_y - tdiv(p.y * cam.scale, ONE as int)) as i128,
        }
    } else {
        let z = eye_depth(p.z as int, cam.distance as int);
        Point2 {
            x: (cam.center_x + tdiv(xa * cam.scale, z)) as i128,
            y: (cam.center_y - tdiv(p.y * cam.scale, z)) as i128,
        }
    }
}

/// The scale for a regular solid at distance `d`.
pub fn solid_scale(d: i64, orthographic: bool) -> (r: i128)
    requires
        ONE < d <= COORD_LIMIT,
    ensures
        r == if orthographic {
            orthographic_scale(d as int)
        } else {
            perspective_scale(d as int)
        },
        0 <= r <= SCALE_LIMIT,
{
    let dw = d as i128;
    let u = ONE as i128;
    let face = FACE_SCALE as i128;
    let ps = face * (dw - u);
    if orthographic {
        proof {
            let m = d - ONE;
            assert(FACE_SCALE * m * ONE / m == FACE_SCALE * ONE) by (nonlinear_arith)
                requires
                    m > 0,
            ;
        }
        6 * (ps * u / (dw - u)) / 5
    } else {
        ps
    }
}

/// Projects a point for an eye shifted by `offset` along X.
pub fn project_point(p: Vertex3, offset: i64, cam: Camera) -> (r: Point2)
    requires
        cam.wf(),
        in_bounds3(p),
        -COORD_LIMIT <= offset <= COORD_LIMIT,
    ensures
        r == project(p, offset as int, cam),
        -POINT_LIMIT <= r.x <= POINT_LIMIT,
        -POINT_LIMIT <= r.y <= POINT_LIMIT,
{
    let xa = (p.x as i128) - (offset as i128);
    let y = p.y as i128;
    proof {
        let l = 2 * COORD_LIMIT;
        assert(-l * SCALE_LIMIT <= xa * cam.scale <= l * SCALE_LIMIT) by (nonlinear_arith)
            requires
                -l <= xa <= l,
                0 <= cam.scale <= SCALE_LIMIT,
        ;
        assert(-l * SCALE_LIMIT <= y * cam.scale <= l * SCALE_LIMIT) by (nonlinear_arith)
            requires
                -l <= y <= l,
                0 <= cam.scale <= SCALE_LIMIT,
        ;
    }
    let depth: i128 = if cam.orthographic {
        ONE as i128
    } else if (p.z as i128) + (cam.distance as i128) < MIN_DEPTH as i128 {
        MIN_DEPTH as i128
    } else {
        (p.z as i128) + (cam.distance as i128)
    };
    let qx = div_toward_zero_wide(xa * cam.scale, depth);
    let qy = div_toward_zero_wide(y * cam.scale, depth);
    proof {
        let l = 2 * COORD_LIMIT * SCALE_LIMIT;
        crate::fixed::lemma_tdiv_shrinks(xa * cam.scale, depth as int);
        crate::fixed::lemma_tdiv_shrinks(y * cam.scale, depth as int);
        let ax = abs(tdiv(xa * cam.scale, depth as int));
        let ay = abs(tdiv(y * cam.scale, depth as int));
        assert(ax <= l / (MIN_DEPTH as int)) by (nonlinear_arith)
            requires
                ax * depth <= abs(xa * cam.scale),
                abs(xa * cam.scale) <= l,
                depth >= MIN_DEPTH,
                ax >= 0,
        ;
        assert(ay <= l / (MIN_DEPTH as int)) by (nonlinear_arith)
            requires
                ay * depth <= abs(y * cam.scale),
                abs(y * cam.scale) <= l,
                depth >= MIN_DEPTH,
                ay >= 0,
        ;
    }
    Point2 { x: cam.center_x + qx, y: cam.center_y - qy }
}

/// The coordinates by which the four-dimensional view is sized: the point
/// itself in orthographic projection, its perspective divide otherwise.
pub open spec fn plane_x(p: Vertex3, d: int, orthographic: bool) -> int {
    if orthographic {
        p.x as int
    } else {
        tdiv(p.x * ONE, eye_depth(p.z as int, d))
    }
}

pub open spec fn plane_y(p: Vertex3, d: int, orthographic: bool) -> int {
    if orthographic {
        p.y as int
    } else {
        tdiv(p.y * ONE, eye_depth(p.z as int, d))
    }
}

/// The wider of the two spans, along X and along Y, of the points' sizing
/// coordinates.
pub open spec fn span(pts: Seq<Vertex3>, d: int, orthographic: bool) -> int {
    let xs = pts.map_values(|p: Vertex3| plane_x(p, d, orthographic) as i64);
    let ys = pts.map_values(|p: Vertex3| plane_y(p, d, orthographic) as i64);
    let w = seq_max(xs) - seq_min(xs);
    let h = seq_max(ys) - seq_min(ys);
    if w > h {
        w
    } else {
        h
    }
}

/// The scale at which the points' span fills `target` micro-pixels; one
/// pixel per unit where the span is no wider than `FLAT_SPAN`.
pub open spec fn fitted_scale(pts: Seq<Vertex3>, d: int, orthographic: bool, target: int) -> int {
    let s = span(pts, d, orthographic);
    if s > FLAT_SPAN {
        target * ONE / s
    } else {
        ONE as int
    }
}

/// The sizing coordinate of one point, along X or along Y.
fn plane_coord(c: i64, z: i64, d: i64, orthographic: bool) -> (r: i64)
    requires
        -COORD_LIMIT <= c <= COORD_LIMIT,
        -COORD_LIMIT <= z <= COORD_LIMIT,
        0 < d <= COORD_LIMIT,
    ensures
        r == (if orthographic {
            c as int
        } else {
            tdiv(c * ONE, eye_depth(z as int, d as int))
        }),
{
    if orthographic {
        c
    } else {
        let depth: i64 = if z + d < MIN_DEPTH {
            MIN_DEPTH
        } else {
            z + d
        };
        proof {
            assert(-COORD_LIMIT * ONE <= c * ONE <= COORD_LIMIT * ONE) by (nonlinear_arith)
                requires
                    -COORD_LIMIT <= c <= COORD_LIMIT,
            ;
            crate::fixed::lemma_tdiv_shrinks(c * ONE, depth as int);
        }
        div_toward_zero(c * ONE, depth)
    }
}

/// The scale of the four-dimensional view, fitted to the rotated and folded
/// points: their span fills `target` micro-pixels.
pub fn fit_scale(pts: &Vec<Vertex3>, d: i64, orthographic: bool, target: i128) -> (r: i128)
    requires
        forall|i: int| 0 <= i < pts.len() ==> in_bounds3(#[trigger] pts@[i]),
        0 < d <= COORD_LIMIT,
        0 <= target <= SCREEN_LIMIT,
    ensures
        r == fitted_scale(pts@, d as int, orthographic, target as int),
        0 <= r <= SCALE_LIMIT,
{
    let mut xs: Vec<i64> = Vec::new();
    let mut ys: Vec<i64> = Vec::new();
    let mut i: usize = 0;
    while i < pts.len()
        invariant
            i <= pts.len(),
            forall|k: int| 0 <= k < pts.len() ==> in_bounds3(#[trigger] pts@[k]),
            0 < d <= COORD_LIMIT,
            xs@ =~= pts@.take(i as int).map_values(
                |p: Vertex3| plane_x(p, d as int, orthographic) as i64,
            ),
            ys@ =~= pts@.take(i as int).map_values(
                |p: Vertex3| plane_y(p, d as int, orthographic) as i64,
            ),
        decreases pts.len() - i,
    {
        let p = pts[i];
        xs.push(plane_coord(p.x, p.z, d, orthographic));
        ys.push(plane_coord(p.y, p.z, d, orthographic));
        assert(pts@.take(i as int + 1) =~= pts@.take(i as int).push(p));
        i = i + 1;
    }
    assert(pts@.take(i as int) =~= pts@);
    let (x_lo, x_hi) = min_max(&xs);
    let (y_lo, y_hi) = min_max(&ys);
    let w = (x_hi as i128) - (x_lo as i128);
    let h = (y_hi as i128) - (y_lo as i128);
    let s = if w > h {
        w
    } else {
        h
    };
    if s > FLAT_SPAN {
        proof {
            assert(target * ONE / (s as int) <= target * ONE / (FLAT_SPAN as int)) by (nonlinear_arith)
                requires
                    s > FLAT_SPAN,
                    target >= 0,
            ;
            assert(target * ONE / (s as int) >= 0) by (nonlinear_arith)
                requires
                    s > 0,
                    target >= 0,
            ;
        }
        target * (ONE as i128) / s
    } else {
        ONE as i128
    }
}

/// The nearest face of a regular solid keeps its size at every distance.
/// In perspective at any allowed distance `d`, a point one unit in front of
/// the centre (at depth `d - 1`) lands `FACE_SCALE` pixels per unit of its
/// shifted X and Y away from the eye's centre; so doubling the distance, or
/// any other change of it, leaves that face exactly as large as it was.
pub proof fn lemma_nearest_face_keeps_size(p: Vertex3, offset: int, cam: Camera)
    requires
        cam.wf(),
        -COORD_LIMIT <= offset <= COORD_LIMIT,
        p.z == -ONE,
        !cam.orthographic,
        2 * ONE <= cam.distance,
        cam.scale == perspective_scale(cam.distance as int),
    ensures
        project(p, offset, cam).x == cam.center_x + FACE_SCALE * (p.x - offset),
        project(p, offset, cam).y == cam.center_y - FACE_SCALE * p.y,
{
    let m = cam.distance - ONE;
    let xa = p.x - offset;
    let y = p.y as int;
    assert(eye_depth(p.z as int, cam.distance as int) == m);
    assert(xa * (FACE_SCALE * m) == (FACE_SCALE * xa) * m) by (nonlinear_arith);
    assert(y * (FACE_SCALE * m) == (FACE_SCALE * y) * m) by (nonlinear_arith);
    lemma_tdiv_exact(FACE_SCALE * xa, m);
    lemma_tdiv_exact(FACE_SCALE * y, m);
    assert(tdiv(xa * cam.scale, m) == FACE_SCALE * xa);
    assert(tdiv(y * cam.scale, m) == FACE_SCALE * y);
}

/// A multiple of `m` divided by `m` gives the factor back.
pub proof fn lemma_tdiv_exact(k: int, m: int)
    requires
        m > 0,
    ensures
        tdiv(k * m, m) == k,
{
    assert((k * m) / m == k) by (nonlinear_arith)
        requires
            m > 0,
    ;
    assert((-(k * m)) / m == -k) by (nonlinear_arith)
        requires
            m > 0,
    ;
    assert(k >= 0 <==> k * m >= 0) by (nonlinear_arith)
        requires
            m > 0,
    ;
}

} // verus!
