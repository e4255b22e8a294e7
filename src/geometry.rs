//! Points in three and four dimensions, plane rotations, and the fold of a
//! four-dimensional point into three dimensions.

use vstd::prelude::*;
use crate::fixed::{ONE, COORD_LIMIT, tdiv, abs, div_toward_zero, lemma_tdiv_shrinks, lemma_square_bound};

verus! {

/// A point in three dimensions, in micro-units.
#[derive(Clone, Copy, Debug, PartialEq, Eq, Structural)]
pub struct Vertex3 {
    pub x: i64,
    pub y: i64,
    pub z: i64,
}

/// A point in four dimensions, in micro-units.
#[derive(Clone, Copy, Debug, PartialEq, Eq, Structural)]
pub struct Vertex4 {
    pub x: i64,
    pub y: i64,
    pub z: i64,
    pub w: i64,
}

/// The cosine and sine of an angle, in micro-units.
#[derive(Clone, Copy, Debug, PartialEq, Eq, Structural)]
pub struct Trig {
    pub cos: i64,
    pub sin: i64,
}

pub open spec fn norm3(v: Vertex3) -> int {
    v.x * v.x + v.y * v.y + v.z * v.z
}

pub open spec fn norm4(v: Vertex4) -> int {
    v.x * v.x + v.y * v.y + v.z * v.z + v.w * v.w
}

/// The largest squared length a point may have.
pub open spec fn norm_limit() -> int {
    COORD_LIMIT * COORD_LIMIT
}

impl Trig {
    /// A pair that lies on or just inside the unit circle: its squared
    /// length is at most one, and short of it by at most four millionths.
    pub open spec fn wf(self) -> bool {
        ONE * ONE - 4 * ONE <= self.cos * self.cos + self.sin * self.sin <= ONE * ONE
    }

    /// The pair of the angle zero.
    pub fn identity() -> (r: Trig)
        ensures
            r == (Trig { cos: ONE, sin: 0 }),
            r.wf(),
    {
        Trig { cos: ONE, sin: 0 }
    }

    /// Takes a rounded cosine and sine. Where rounding has put the pair just
    /// outside the unit circle, both parts are moved toward zero one
    /// micro-unit at a time until it lies inside.
    pub fn from_parts(cos: i64, sin: i64) -> (r: Trig)
        requires
            -ONE <= cos <= ONE,
            -ONE <= sin <= ONE,
            ONE * ONE - 4 * ONE <= cos * cos + sin * sin,
        ensures
            r.wf(),
            (r.cos as int, r.sin as int) == pulled_inside(cos as int, sin as int),
    {
        let mut c: i64 = cos;
        let mut s: i64 = sin;
        while !inside_circle(c, s)
            invariant
                -ONE <= c <= ONE,
                -ONE <= s <= ONE,
                pulled_inside(c as int, s as int) == pulled_inside(cos as int, sin as int),
                ONE * ONE - 4 * ONE <= c * c + s * s,
            decreases abs(c as int) + abs(s as int),
        {
            let ghost c0 = c as int;
            let ghost s0 = s as int;
            if c == 0 && s == 0 {
                assert(c * c + s * s == 0) by (nonlinear_arith)
                    requires
                        c == 0,
                        s == 0,
                ;
            }
            if c > 0 {
                c = c - 1;
            } else if c < 0 {
                c = c + 1;
            }
            if s > 0 {
                s = s - 1;
            } else if s < 0 {
                s = s + 1;
            }
            proof {
                let (c1, s1) = (c as int, s as int);
                assert(c1 * c1 >= c0 * c0 - 2 * abs(c0)) by (nonlinear_arith)
                    requires
                        c1 == toward_zero(c0),
                ;
                assert(s1 * s1 >= s0 * s0 - 2 * abs(s0)) by (nonlinear_arith)
                    requires
                        s1 == toward_zero(s0),
                ;
            }
        }
        Trig { cos: c, sin: s }
    }
}

/// One micro-unit nearer zero; zero stays.
pub open spec fn toward_zero(a: int) -> int {
    if a > 0 {
        a - 1
    } else if a < 0 {
        a + 1
    } else {
        a
    }
}

/// The pair `(c, s)` with both parts moved toward zero, one micro-unit at a
/// time, until it lies on or inside the unit circle.
pub open spec fn pulled_inside(c: int, s: int) -> (int, int)
    decreases abs(c) + abs(s),
{
    if c == 0 && s == 0 {
        (c, s)
    } else if c * c + s * s <= ONE * ONE {
        (c, s)
    } else {
        pulled_inside(toward_zero(c), toward_zero(s))
    }
}

/// Whether `(c, s)` lies on or inside the unit circle.
fn inside_circle(c: i64, s: i64) -> (r: bool)
    requires
        -ONE <= c <= ONE,
        -ONE <= s <= ONE,
    ensures
        r == (c * c + s * s <= ONE * ONE),
{
    assert(c * c <= ONE * ONE && s * s <= ONE * ONE) by (nonlinear_arith)
        requires
            -ONE <= c <= ONE,
            -ONE <= s <= ONE,
    ;
    assert(c * c >= 0 && s * s >= 0) by (nonlinear_arith);
    c * c + s * s <= ONE * ONE
}

/// First coordinate of the pair `(a, b)` turned by `t` in its plane.
pub open spec fn turn_a(a: int, b: int, t: Trig) -> int {
    tdiv(a * t.cos - b * t.sin, ONE as int)
}

/// Second coordinate of the pair `(a, b)` turned by `t` in its plane.
pub open spec fn turn_b(a: int, b: int, t: Trig) -> int {
    tdiv(a * t.sin + b * t.cos, ONE as int)
}

/// The squared length of a pair turned by `(c, s)`, before rounding, is
/// its own times `c * c + s * s`.
pub proof fn lemma_rotated_squares(a: int, b: int, c: int, s: int)
    ensures
        (a * c - b * s) * (a * c - b * s) + (a * s + b * c) * (a * s + b * c) == (a * a + b * b)
            * (c * c + s * s),
{
    let p = a * c - b * s;
    let q = a * s + b * c;
    let ac = a * c;
    let bs = b * s;
    let as_ = a * s;
    let bc = b * c;
    assert(p * p == ac * ac - 2 * (ac * bs) + bs * bs) by (nonlinear_arith)
        requires
            p == ac - bs,
    ;
    assert(q * q == as_ * as_ + 2 * (as_ * bc) + bc * bc) by (nonlinear_arith)
        requires
            q == as_ + bc,
    ;
    assert(ac * bs == as_ * bc) by (nonlinear_arith)
        requires
            ac == a * c,
            bs == b * s,
            as_ == a * s,
            bc == b * c,
    ;
    assert(ac * ac == (a * a) * (c * c)) by (nonlinear_arith)
        requires
            ac == a * c,
    ;
    assert(bs * bs == (b * b) * (s * s)) by (nonlinear_arith)
        requires
            bs == b * s,
    ;
    assert(as_ * as_ == (a * a) * (s * s)) by (nonlinear_arith)
        requires
            as_ == a * s,
    ;
    assert(bc * bc == (b * b) * (c * c)) by (nonlinear_arith)
        requires
            bc == b * c,
    ;
    let aa = a * a;
    let bb = b * b;
    let cc = c * c;
    let ss = s * s;
    assert(aa * cc + bb * ss + aa * ss + bb * cc == (aa + bb) * (cc + ss)) by (nonlinear_arith);
    assert(p * p + q * q == (a * a + b * b) * (c * c + s * s));
}

/// Turning a pair never lengthens it.
pub proof fn lemma_turn_keeps_length(a: int, b: int, t: Trig)
    requires
        t.wf(),
    ensures
        turn_a(a, b, t) * turn_a(a, b, t) + turn_b(a, b, t) * turn_b(a, b, t) <= a * a + b * b,
{
    let c = t.cos as int;
    let s = t.sin as int;
    let p = a * c - b * s;
    let q = a * s + b * c;
    let u = ONE as int;
    lemma_rotated_squares(a, b, c, s);
    assert((a * a + b * b) * (c * c + s * s) <= (a * a + b * b) * (u * u)) by (nonlinear_arith)
        requires
            c * c + s * s <= u * u,
    ;
    lemma_tdiv_shrinks(p, u);
    lemma_tdiv_shrinks(q, u);
    let pa = turn_a(a, b, t);
    let pb = turn_b(a, b, t);
    assert((pa * pa + pb * pb) * (u * u) <= (a * a + b * b) * (u * u)) by (nonlinear_arith)
        requires
            pa * pa * (u * u) <= p * p,
            pb * pb * (u * u) <= q * q,
            p * p + q * q <= (a * a + b * b) * (u * u),
    ;
    assert(pa * pa + pb * pb <= a * a + b * b) by (nonlinear_arith)
        requires
            (pa * pa + pb * pb) * (u * u) <= (a * a + b * b) * (u * u),
            u > 0,
    ;
}

/// Turning a pair shortens it by no more than rounding: a few millionths of
/// its squared length, and two micro-units for each of its coordinates.
pub proof fn lemma_turn_nearly_keeps_length(a: int, b: int, t: Trig)
    requires
        t.wf(),
        -COORD_LIMIT <= turn_a(a, b, t) <= COORD_LIMIT,
        -COORD_LIMIT <= turn_b(a, b, t) <= COORD_LIMIT,
    ensures
        (turn_a(a, b, t) * turn_a(a, b, t) + turn_b(a, b, t) * turn_b(a, b, t)) * ONE >= (a * a
            + b * b) * (ONE - 4) - ONE * (4 * COORD_LIMIT + 2),
{
    let c = t.cos as int;
    let s = t.sin as int;
    let u = ONE as int;
    let p = a * c - b * s;
    let q = a * s + b * c;
    lemma_turn_keeps_length(a, b, t);
    let n = a * a + b * b;
    lemma_rotated_squares(a, b, c, s);
    assert(n >= 0) by (nonlinear_arith)
        requires
            n == a * a + b * b,
    ;
    assert(n * (c * c + s * s) >= n * (u * u - 4 * u)) by (nonlinear_arith)
        requires
            c * c + s * s >= u * u - 4 * u,
            n >= 0,
    ;
    crate::fixed::lemma_tdiv_close(p, u);
    crate::fixed::lemma_tdiv_close(q, u);
    let x = abs(turn_a(a, b, t));
    let y = abs(turn_b(a, b, t));
    assert(p * p <= ((x + 1) * u) * ((x + 1) * u)) by (nonlinear_arith)
        requires
            abs(p) < (x + 1) * u,
            x >= 0,
    ;
    assert(q * q <= ((y + 1) * u) * ((y + 1) * u)) by (nonlinear_arith)
        requires
            abs(q) < (y + 1) * u,
            y >= 0,
    ;
    let ta = turn_a(a, b, t);
    let tb = turn_b(a, b, t);
    assert(ta * ta == x * x && tb * tb == y * y) by (nonlinear_arith)
        requires
            x == ta || x == -ta,
            y == tb || y == -tb,
    ;
    assert(((x + 1) * (x + 1) + (y + 1) * (y + 1)) * u >= n * (u - 4)) by (nonlinear_arith)
        requires
            ((x + 1) * u) * ((x + 1) * u) + ((y + 1) * u) * ((y + 1) * u) >= n * (u * u - 4 * u),
            u > 0,
    ;
    assert((x * x + y * y) * u >= n * (u - 4) - u * (2 * x + 2 * y + 2)) by (nonlinear_arith)
        requires
            ((x + 1) * (x + 1) + (y + 1) * (y + 1)) * u >= n * (u - 4),
    ;
}

/// Turning by the angle zero leaves a pair where it is.
pub proof fn lemma_turn_identity(a: int, b: int)
    ensures
        turn_a(a, b, Trig { cos: ONE, sin: 0 }) == a,
        turn_b(a, b, Trig { cos: ONE, sin: 0 }) == b,
{
    let u = ONE as int;
    assert(a * u - b * 0 == a * u) by (nonlinear_arith);
    assert(a * 0 + b * u == b * u) by (nonlinear_arith);
    assert((a * u) / u == a) by (nonlinear_arith)
        requires
            u > 0,
    ;
    assert((-(a * u)) / u == -a) by (nonlinear_arith)
        requires
            u > 0,
    ;
    assert(a >= 0 <==> a * u >= 0) by (nonlinear_arith)
        requires
            u > 0,
    ;
    assert((b * u) / u == b) by (nonlinear_arith)
        requires
            u > 0,
    ;
    assert((-(b * u)) / u == -b) by (nonlinear_arith)
        requires
            u > 0,
    ;
    assert(b >= 0 <==> b * u >= 0) by (nonlinear_arith)
        requires
            u > 0,
    ;
}

/// Turns the pair `(a, b)` by `t` in its plane.
pub fn turn_plane(a: i64, b: i64, t: Trig) -> (r: (i64, i64))
    requires
        t.wf(),
        a * a + b * b <= norm_limit(),
    ensures
        r.0 == turn_a(a as int, b as int, t),
        r.1 == turn_b(a as int, b as int, t),
        r.0 * r.0 + r.1 * r.1 <= a * a + b * b,
        (r.0 * r.0 + r.1 * r.1) * ONE >= (a * a + b * b) * (ONE - 4) - ONE * (4 * COORD_LIMIT
            + 2),
{
    proof {
        let l = COORD_LIMIT as int;
        assert(a * a <= l * l && b * b <= l * l) by (nonlinear_arith)
            requires
                a * a + b * b <= l * l,
        ;
        lemma_square_bound(a as int, l);
        lemma_square_bound(b as int, l);
        assert(t.cos * t.cos <= ONE * ONE && t.sin * t.sin <= ONE * ONE) by (nonlinear_arith)
            requires
                t.wf(),
        ;
        lemma_square_bound(t.cos as int, ONE as int);
        lemma_square_bound(t.sin as int, ONE as int);
        assert(-l * ONE <= a * t.cos <= l * ONE) by (nonlinear_arith)
            requires
                -l <= a <= l,
                -ONE <= t.cos <= ONE,
        ;
        assert(-l * ONE <= a * t.sin <= l * ONE) by (nonlinear_arith)
            requires
                -l <= a <= l,
                -ONE <= t.sin <= ONE,
        ;
        assert(-l * ONE <= b * t.cos <= l * ONE) by (nonlinear_arith)
            requires
                -l <= b <= l,
                -ONE <= t.cos <= ONE,
        ;
        assert(-l * ONE <= b * t.sin <= l * ONE) by (nonlinear_arith)
            requires
                -l <= b <= l,
                -ONE <= t.sin <= ONE,
        ;
        lemma_turn_keeps_length(a as int, b as int, t);
        let ta = turn_a(a as int, b as int, t);
        let tb = turn_b(a as int, b as int, t);
        assert(ta * ta <= l * l && tb * tb <= l * l) by (nonlinear_arith)
            requires
                ta * ta + tb * tb <= a * a + b * b,
                a * a + b * b <= l * l,
        ;
        lemma_square_bound(ta, l);
        lemma_square_bound(tb, l);
        lemma_turn_nearly_keeps_length(a as int, b as int, t);
    }
    let first = div_toward_zero(a * t.cos - b * t.sin, ONE);
    let second = div_toward_zero(a * t.sin + b * t.cos, ONE);
    (first, second)
}

/// Angles about the three axes, each as its cosine and sine.
#[derive(Clone, Copy, Debug, PartialEq, Eq, Structural)]
pub struct Rotation3 {
    pub x: Trig,
    pub y: Trig,
    pub z: Trig,
}

/// Angles in the six planes of four dimensions, each as its cosine and sine.
#[derive(Clone, Copy, Debug, PartialEq, Eq, Structural)]
pub struct Rotation4 {
    pub xy: Trig,
    pub xz: Trig,
    pub yz: Trig,
    pub xw: Trig,
    pub yw: Trig,
    pub zw: Trig,
}

impl Rotation3 {
    pub open spec fn wf(self) -> bool {
        self.x.wf() && self.y.wf() && self.z.wf()
    }

    /// No rotation about any axis.
    pub fn identity() -> (r: Rotation3)
        ensures
            r.wf(),
            r.x == (Trig { cos: ONE, sin: 0 }),
            r.y == (Trig { cos: ONE, sin: 0 }),
            r.z == (Trig { cos: ONE, sin: 0 }),
    {
        Rotation3 { x: Trig::identity(), y: Trig::identity(), z: Trig::identity() }
    }
}

impl Rotation4 {
    pub open spec fn wf(self) -> bool {
        self.xy.wf() && self.xz.wf() && self.yz.wf() && self.xw.wf() && self.yw.wf()
            && self.zw.wf()
    }

    /// No rotation in any plane.
    pub fn identity() -> (r: Rotation4)
        ensures
            r.wf(),
            r.xy == (Trig { cos: ONE, sin: 0 }),
            r.xz == (Trig { cos: ONE, sin: 0 }),
            r.yz == (Trig { cos: ONE, sin: 0 }),
            r.xw == (Trig { cos: ONE, sin: 0 }),
            r.yw == (Trig { cos: ONE, sin: 0 }),
            r.zw == (Trig { cos: ONE, sin: 0 }),
    {
        let t = Trig::identity();
        Rotation4 { xy: t, xz: t, yz: t, xw: t, yw: t, zw: t }
    }
}

/// The rotation `Rz * Ry * Rx` applied to `v`: first about X, then about Y,
/// then about Z.
pub open spec fn rotate3(v: Vertex3, r: Rotation3) -> Vertex3 {
    let y1 = turn_a(v.y as int, v.z as int, r.x);
    let z1 = turn_b(v.y as int, v.z as int, r.x);
    let z2 = turn_a(z1, v.x as int, r.y);
    let x2 = turn_b(z1, v.x as int, r.y);
    let x3 = turn_a(x2, y1, r.z);
    let y3 = turn_b(x2, y1, r.z);
    Vertex3 { x: x3 as i64, y: y3 as i64, z: z2 as i64 }
}

/// The six plane rotations applied to `v` in the order XY, XZ, YZ, XW, YW,
/// ZW, each to the output of the one before.
pub open spec fn rotate4(v: Vertex4, r: Rotation4) -> Vertex4 {
    let x1 = turn_a(v.x as int, v.y as int, r.xy);
    let y1 = turn_b(v.x as int, v.y as int, r.xy);
    let x2 = turn_a(x1, v.z as int, r.xz);
    let z1 = turn_b(x1, v.z as int, r.xz);
    let y2 = turn_a(y1, z1, r.yz);
    let z2 = turn_b(y1, z1, r.yz);
    let x3 = turn_a(x2, v.w as int, r.xw);
    let w1 = turn_b(x2, v.w as int, r.xw);
    let y3 = turn_a(y2, w1, r.yw);
    let w2 = turn_b(y2, w1, r.yw);
    let z3 = turn_a(z2, w2, r.zw);
    let w3 = turn_b(z2, w2, r.zw);
    Vertex4 { x: x3 as i64, y: y3 as i64, z: z3 as i64, w: w3 as i64 }
}

/// Folds W into the other coordinates: a fifth of it into X and Y, a half
/// into Z.
pub open spec fn fold(v: Vertex4) -> Vertex3 {
    Vertex3 {
        x: (v.x + tdiv(v.w as int, 5)) as i64,
        y: (v.y + tdiv(v.w as int, 5)) as i64,
        z: (v.z + tdiv(v.w as int, 2)) as i64,
    }
}

/// Rotates a point about the three axes.
pub fn rotate_point3(v: Vertex3, r: Rotation3) -> (out: Vertex3)
    requires
        r.wf(),
        norm3(v) <= norm_limit(),
    ensures
        out == rotate3(v, r),
        norm3(out) <= norm3(v),
        norm3(out) * ONE >= norm3(v) * (ONE - 12) - 3 * ONE * (4 * COORD_LIMIT + 2),
{
    assert(v.x * v.x >= 0 && v.y * v.y >= 0 && v.z * v.z >= 0) by (nonlinear_arith);
    let (y1, z1) = turn_plane(v.y, v.z, r.x);
    assert(z1 * z1 >= 0 && y1 * y1 >= 0) by (nonlinear_arith);
    let (z2, x2) = turn_plane(z1, v.x, r.y);
    assert(x2 * x2 >= 0 && z2 * z2 >= 0) by (nonlinear_arith);
    let (x3, y3) = turn_plane(x2, y1, r.z);
    Vertex3 { x: x3, y: y3, z: z2 }
}

/// Rotates a point in the six planes.
pub fn rotate_point4(v: Vertex4, r: Rotation4) -> (out: Vertex4)
    requires
        r.wf(),
        norm4(v) <= norm_limit(),
    ensures
        out == rotate4(v, r),
        norm4(out) <= norm4(v),
        norm4(out) * ONE >= norm4(v) * (ONE - 24) - 6 * ONE * (4 * COORD_LIMIT + 2),
{
    assert(v.x * v.x >= 0 && v.y * v.y >= 0 && v.z * v.z >= 0 && v.w * v.w >= 0)
        by (nonlinear_arith);
    let (x1, y1) = turn_plane(v.x, v.y, r.xy);
    assert(x1 * x1 >= 0 && y1 * y1 >= 0) by (nonlinear_arith);
    let (x2, z1) = turn_plane(x1, v.z, r.xz);
    assert(x2 * x2 >= 0 && z1 * z1 >= 0) by (nonlinear_arith);
    let (y2, z2) = turn_plane(y1, z1, r.yz);
    assert(y2 * y2 >= 0 && z2 * z2 >= 0) by (nonlinear_arith);
    let (x3, w1) = turn_plane(x2, v.w, r.xw);
    assert(x3 * x3 >= 0 && w1 * w1 >= 0) by (nonlinear_arith);
    let (y3, w2) = turn_plane(y2, w1, r.yw);
    assert(y3 * y3 >= 0 && w2 * w2 >= 0) by (nonlinear_arith);
    let (z3, w3) = turn_plane(z2, w2, r.zw);
    Vertex4 { x: x3, y: y3, z: z3, w: w3 }
}

/// Folds a four-dimensional point into three dimensions.
pub fn fold_to_3d(v: Vertex4) -> (out: Vertex3)
    requires
        norm4(v) <= norm_limit(),
    ensures
        out == fold(v),
        norm3(out) <= 2 * norm4(v),
{
    let l = COORD_LIMIT;
    proof {
        let li = l as int;
        assert(v.x * v.x >= 0 && v.y * v.y >= 0 && v.z * v.z >= 0 && v.w * v.w >= 0)
            by (nonlinear_arith);
        lemma_square_bound(v.x as int, li);
        lemma_square_bound(v.y as int, li);
        lemma_square_bound(v.z as int, li);
        lemma_square_bound(v.w as int, li);
        lemma_tdiv_shrinks(v.w as int, 5);
        lemma_tdiv_shrinks(v.w as int, 2);
        let p = tdiv(v.w as int, 5);
        let q = tdiv(v.w as int, 2);
        let (x, y, z, w) = (v.x as int, v.y as int, v.z as int, v.w as int);
        assert((x + p) * (x + p) <= 2 * (x * x) + 2 * (p * p)) by (nonlinear_arith);
        assert((y + p) * (y + p) <= 2 * (y * y) + 2 * (p * p)) by (nonlinear_arith);
        assert((z + q) * (z + q) <= 2 * (z * z) + 2 * (q * q)) by (nonlinear_arith);
        assert(4 * (p * p) + 2 * (q * q) <= w * w) by (nonlinear_arith)
            requires
                p * p * (5 * 5) <= w * w,
                q * q * (2 * 2) <= w * w,
        ;
    }
    let p = div_toward_zero(v.w, 5);
    let q = div_toward_zero(v.w, 2);
    Vertex3 { x: v.x + p, y: v.y + p, z: v.z + q }
}

/// Rotation by the angle zero about every axis is the identity.
pub proof fn lemma_rotate3_identity(v: Vertex3)
    ensures
        rotate3(
            v,
            Rotation3 {
                x: Trig { cos: ONE, sin: 0 },
                y: Trig { cos: ONE, sin: 0 },
                z: Trig { cos: ONE, sin: 0 },
            },
        ) == v,
{
    lemma_turn_identity(v.y as int, v.z as int);
    lemma_turn_identity(v.z as int, v.x as int);
    lemma_turn_identity(v.x as int, v.y as int);
}

/// Rotation by the angle zero in every plane is the identity.
pub proof fn lemma_rotate4_identity(v: Vertex4)
    ensures
        rotate4(
            v,
            Rotation4 {
                xy: Trig { cos: ONE, sin: 0 },
                xz: Trig { cos: ONE, sin: 0 },
                yz: Trig { cos: ONE, sin: 0 },
                xw: Trig { cos: ONE, sin: 0 },
                yw: Trig { cos: ONE, sin: 0 },
                zw: Trig { cos: ONE, sin: 0 },
            },
        ) == v,
{
    lemma_turn_identity(v.x as int, v.y as int);
    lemma_turn_identity(v.x as int, v.z as int);
    lemma_turn_identity(v.y as int, v.z as int);
    lemma_turn_identity(v.x as int, v.w as int);
    lemma_turn_identity(v.y as int, v.w as int);
    lemma_turn_identity(v.z as int, v.w as int);
}

/// Every coordinate within `COORD_LIMIT`.
pub open spec fn in_bounds3(p: Vertex3) -> bool {
    -COORD_LIMIT <= p.x <= COORD_LIMIT && -COORD_LIMIT <= p.y <= COORD_LIMIT && -COORD_LIMIT
        <= p.z <= COORD_LIMIT
}

/// A point of bounded length has bounded coordinates.
pub proof fn lemma_norm3_in_bounds(v: Vertex3)
    requires
        norm3(v) <= norm_limit(),
    ensures
        in_bounds3(v),
{
    let l = COORD_LIMIT as int;
    assert(v.x * v.x <= l * l && v.y * v.y <= l * l && v.z * v.z <= l * l) by (nonlinear_arith)
        requires
            v.x * v.x + v.y * v.y + v.z * v.z <= l * l,
    ;
    lemma_square_bound(v.x as int, l);
    lemma_square_bound(v.y as int, l);
    lemma_square_bound(v.z as int, l);
}

/// A four-dimensional point of bounded length has a bounded W.
pub proof fn lemma_norm4_w_bound(v: Vertex4, b: int)
    requires
        b >= 0,
        norm4(v) <= b * b,
    ensures
        -b <= v.w <= b,
{
    assert(v.w * v.w <= b * b) by (nonlinear_arith)
        requires
            v.x * v.x + v.y * v.y + v.z * v.z + v.w * v.w <= b * b,
    ;
    lemma_square_bound(v.w as int, b);
}

} // verus!
