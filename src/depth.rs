//! Depth ordering and shading of edges: each edge's representative depth and
//! W, the frame's ranges of both, banded gray levels, and the far-to-near
//! order in which edges are drawn.

use vstd::prelude::*;
use vstd::seq_lib::to_multiset_update;
use vstd::multiset::Multiset;
use crate::camera::Point2;

verus! {

/// An edge ready to draw: its two screen ends, the mean depth and mean W of
/// its ends (in micro-units), its gray level in thousandths (0 black, 1000
/// white), and its position in the shape's edge table.
#[derive(Clone, Copy, Debug, PartialEq, Eq, Structural)]
pub struct DrawEdge {
    pub start: Point2,
    pub end: Point2,
    pub depth: i64,
    pub w: i64,
    pub shade: u32,
    pub index: usize,
}

/// How edges are shaded.
#[derive(Clone, Copy, Debug, PartialEq, Eq, Structural)]
pub enum Shading {
    /// One gray for every edge.
    Flat,
    /// Nearer edges stand out more from the background.
    Depth,
    /// Edges with larger W stand out more from the background.
    WDepth,
}

/// Ranges narrower than this many micro-units are treated as empty.
pub const FLAT_RANGE: i64 = 1000;

/// The band, from 0 to 5, of the fraction `num / den`: its thresholds are
/// 0.17, 0.33, 0.50, 0.67 and 0.83, each exceeded strictly. A range no wider
/// than `FLAT_RANGE` puts every value at one half, in band 2.
pub open spec fn band(num: int, den: int) -> int {
    if den <= FLAT_RANGE {
        2
    } else if num * 100 > 83 * den {
        5
    } else if num * 100 > 67 * den {
        4
    } else if num * 100 > 50 * den {
        3
    } else if num * 100 > 33 * den {
        2
    } else if num * 100 > 17 * den {
        1
    } else {
        0
    }
}

/// The band of a depth within the frame's range `[lo, hi]`: the nearest
/// (smallest depth) edges are in the highest band.
pub open spec fn depth_band(depth: int, lo: int, hi: int) -> int {
    band(hi - depth, hi - lo)
}

/// The band of a W within the frame's range `[lo, hi]`: the largest W is in
/// the highest band.
pub open spec fn w_band(w: int, lo: int, hi: int) -> int {
    band(w - lo, hi - lo)
}

/// Gray of a depth band: brighter toward the viewer on a dark background,
/// darker toward the viewer on a light one.
pub open spec fn depth_gray(b: int, dark: bool) -> int {
    if dark {
        750 + 50 * b
    } else {
        850 - 150 * b
    }
}

/// Gray of a W band.
pub open spec fn w_gray(b: int, dark: bool) -> int {
    if dark {
        500 + 100 * b
    } else {
        if b == 0 {
            900
        } else if b == 1 {
            800
        } else if b == 2 {
            600
        } else if b == 3 {
            400
        } else if b == 4 {
            200
        } else {
            0
        }
    }
}

/// Gray of every edge when shading is flat: white on black and black on
/// white for the solids, lighter and darker grays for the four-dimensional
/// polytopes.
pub open spec fn flat_gray(dark: bool, four_d: bool) -> int {
    if four_d {
        if dark {
            800
        } else {
            200
        }
    } else {
        if dark {
            1000
        } else {
            0
        }
    }
}

/// How far a gray stands out from the background.
pub open spec fn contrast(gray: int, dark: bool) -> int {
    if dark {
        gray
    } else {
        1000 - gray
    }
}

/// The gray of an edge with the given depth and W, given the frame's ranges.
pub open spec fn edge_gray(
    style: Shading,
    dark: bool,
    four_d: bool,
    depth: int,
    w: int,
    depth_lo: int,
    depth_hi: int,
    w_lo: int,
    w_hi: int,
) -> int {
    match style {
        Shading::Flat => flat_gray(dark, four_d),
        Shading::Depth => depth_gray(depth_band(depth, depth_lo, depth_hi), dark),
        Shading::WDepth => w_gray(w_band(w, w_lo, w_hi), dark),
    }
}

/// The band of a fraction.
fn band_of(num: i64, den: i64) -> (r: i64)
    requires
        -2_000_000_000_000 <= num <= 2_000_000_000_000,
        -2_000_000_000_000 <= den <= 2_000_000_000_000,
    ensures
        r == band(num as int, den as int),
        0 <= r <= 5,
{
    if den <= FLAT_RANGE {
        2
    } else if num * 100 > 83 * den {
        5
    } else if num * 100 > 67 * den {
        4
    } else if num * 100 > 50 * den {
        3
    } else if num * 100 > 33 * den {
        2
    } else if num * 100 > 17 * den {
        1
    } else {
        0
    }
}

/// The gray of one edge.
pub fn shade_of(
    style: Shading,
    dark: bool,
    four_d: bool,
    depth: i64,
    w: i64,
    depth_lo: i64,
    depth_hi: i64,
    w_lo: i64,
    w_hi: i64,
) -> (r: u32)
    requires
        -1_000_000_000_000 <= depth <= 1_000_000_000_000,
        -1_000_000_000_000 <= w <= 1_000_000_000_000,
        -1_000_000_000_000 <= depth_lo <= depth_hi <= 1_000_000_000_000,
        -1_000_000_000_000 <= w_lo <= w_hi <= 1_000_000_000_000,
    ensures
        r == edge_gray(style, dark, four_d, depth as int, w as int, depth_lo as int,
            depth_hi as int, w_lo as int, w_hi as int),
        r <= 1000,
{
    match style {
        Shading::Flat => {
            if four_d {
                if dark {
                    800
                } else {
                    200
                }
            } else {
                if dark {
                    1000
                } else {
                    0
                }
            }
        },
        Shading::Depth => {
            let b = band_of(depth_hi - depth, depth_hi - depth_lo);
            if dark {
                (750 + 50 * b) as u32
            } else {
                (850 - 150 * b) as u32
            }
        },
        Shading::WDepth => {
            let b = band_of(w - w_lo, w_hi - w_lo);
            if dark {
                (500 + 100 * b) as u32
            } else if b == 0 {
                900
            } else if b == 1 {
                800
            } else if b == 2 {
                600
            } else if b == 3 {
                400
            } else if b == 4 {
                200
            } else {
                0
            }
        },
    }
}

/// A band lies between 0 and 5, so its gray between 0 and 1000.
pub proof fn lemma_band_range(depth: int, lo: int, hi: int)
    ensures
        0 <= depth_band(depth, lo, hi) <= 5,
        0 <= depth_gray(depth_band(depth, lo, hi), false) <= 1000,
        0 <= depth_gray(depth_band(depth, lo, hi), true) <= 1000,
{
}

/// A band never goes down as its fraction grows.
pub proof fn lemma_band_monotonic(a: int, b: int, den: int)
    requires
        a <= b,
    ensures
        band(a, den) <= band(b, den),
{
}

/// An edge that is nearer (smaller depth) than another stands out from the
/// background at least as much, for either background and any frame range.
pub proof fn lemma_depth_contrast_monotonic(near: int, far: int, lo: int, hi: int, dark: bool)
    requires
        near <= far,
    ensures
        contrast(depth_gray(depth_band(near, lo, hi), dark), dark) >= contrast(
            depth_gray(depth_band(far, lo, hi), dark),
            dark,
        ),
{
    lemma_band_monotonic(hi - far, hi - near, hi - lo);
}

/// An edge with larger W stands out from the background at least as much as
/// one with smaller W, for either background and any frame range.
pub proof fn lemma_w_contrast_monotonic(low: int, high: int, lo: int, hi: int, dark: bool)
    requires
        low <= high,
    ensures
        contrast(w_gray(w_band(low, lo, hi), dark), dark) <= contrast(
            w_gray(w_band(high, lo, hi), dark),
            dark,
        ),
{
    lemma_band_monotonic(low - lo, high - lo, hi - lo);
}

/// Whether `x` may be drawn before `y`: it is deeper, or as deep and no
/// later in the edge table.
pub open spec fn goes_before(x: DrawEdge, y: DrawEdge) -> bool {
    x.depth > y.depth || (x.depth == y.depth && x.index <= y.index)
}

/// Deeper edges come first; edges of equal depth keep the order of the edge
/// table.
pub open spec fn far_to_near(s: Seq<DrawEdge>) -> bool {
    forall|a: int, b: int| 0 <= a < b < s.len() ==> goes_before(s[a], s[b])
}

/// Whether `x` may be drawn before `y`.
fn precedes(x: &DrawEdge, y: &DrawEdge) -> (r: bool)
    ensures
        r == goes_before(*x, *y),
{
    x.depth > y.depth || (x.depth == y.depth && x.index <= y.index)
}

proof fn lemma_swap_keeps_multiset(s: Seq<DrawEdge>, i: int, j: int)
    requires
        0 <= i < s.len(),
        0 <= j < s.len(),
    ensures
        s.update(i, s[j]).update(j, s[i]).to_multiset() =~= s.to_multiset(),
{
    broadcast use vstd::multiset::group_multiset_axioms;

    let t = s.update(i, s[j]);
    let u = t.update(j, s[i]);
    if i == j {
        assert(u =~= s);
    } else {
        to_multiset_update(s, i, s[j]);
        to_multiset_update(t, j, s[i]);
        vstd::seq_lib::to_multiset_contains(s, s[i]);
        vstd::seq_lib::to_multiset_contains(s, s[j]);
        assert(s.contains(s[i]));
        assert(s.contains(s[j]));
        assert(t[j] == s[j]);
        let m = s.to_multiset();
        assert forall|x: DrawEdge| u.to_multiset().count(x) == m.count(x) by {}
    }
}

/// Orders edges from the deepest to the nearest, keeping the same edges;
/// edges of equal depth keep the order of their positions in the table.
pub fn sort_far_to_near(v: &mut Vec<DrawEdge>)
    ensures
        final(v)@.to_multiset() == old(v)@.to_multiset(),
        final(v)@.len() == old(v)@.len(),
        far_to_near(final(v)@),
{
    let n = v.len();
    if n == 0 {
        return;
    }
    let mut i: usize = 1;
    while i < n
        invariant
            1 <= i <= n,
            v@.len() == n,
            v@.to_multiset() == old(v)@.to_multiset(),
            far_to_near(v@.take(i as int)),
        decreases n - i,
    {
        let mut j: usize = i;
        assert forall|a: int, b: int| 0 <= a < b < j implies goes_before(v@[a], v@[b]) by {
            assert(v@.take(i as int)[a] == v@[a]);
            assert(v@.take(i as int)[b] == v@[b]);
        }
        while j > 0 && !precedes(&v[j - 1], &v[j])
            invariant
                0 <= j <= i < n,
                v@.len() == n,
                v@.to_multiset() == old(v)@.to_multiset(),
                forall|a: int, b: int| 0 <= a < b < j ==> goes_before(v@[a], v@[b]),
                forall|a: int, b: int| j < a < b <= i ==> goes_before(v@[a], v@[b]),
                forall|a: int, b: int| 0 <= a < j && j < b <= i ==> goes_before(v@[a], v@[b]),
                forall|b: int| j < b <= i ==> goes_before(v@[j as int], v@[b]),
            decreases j,
        {
            let x = v[j - 1];
            let y = v[j];
            proof {
                lemma_swap_keeps_multiset(v@, j as int - 1, j as int);
            }
            v.set(j - 1, y);
            v.set(j, x);
            j = j - 1;
        }
        assert forall|a: int, b: int| 0 <= a < b < i + 1 implies #[trigger] goes_before(
            v@.take(i as int + 1)[a],
            v@.take(i as int + 1)[b],
        ) by {
            assert(v@.take(i as int + 1)[a] == v@[a]);
            assert(v@.take(i as int + 1)[b] == v@[b]);
            if b == j && a < j - 1 {
                assert(goes_before(v@[a], v@[j - 1]));
                assert(goes_before(v@[j - 1], v@[b]));
            }
        }
        assert(far_to_near(v@.take(i as int + 1)));
        i = i + 1;
    }
    assert(v@.take(n as int) =~= v@);
}

/// No two different edges of `m` share a position in the table.
pub open spec fn index_determines(m: Multiset<DrawEdge>) -> bool {
    forall|e1: DrawEdge, e2: DrawEdge|
        #![trigger m.count(e1), m.count(e2)]
        m.count(e1) > 0 && m.count(e2) > 0 && e1.index == e2.index ==> e1 == e2
}

/// Indices grow along the list.
pub open spec fn increasing_indices(s: Seq<DrawEdge>) -> bool {
    forall|i: int, j: int| 0 <= i < j < s.len() ==> s[i].index < s[j].index
}

/// Where indices grow along a list, no two different edges of it share one.
pub proof fn lemma_increasing_index_determines(s: Seq<DrawEdge>)
    requires
        increasing_indices(s),
    ensures
        index_determines(s.to_multiset()),
{
    broadcast use vstd::seq_lib::group_to_multiset_ensures;

    assert forall|e1: DrawEdge, e2: DrawEdge|
        s.to_multiset().count(e1) > 0 && s.to_multiset().count(e2) > 0 && e1.index
            == e2.index implies e1 == e2 by {
        assert(s.contains(e1));
        assert(s.contains(e2));
        let i = choose|i: int| 0 <= i < s.len() && s[i] == e1;
        let j = choose|j: int| 0 <= j < s.len() && s[j] == e2;
        if i < j {
            assert(s[i].index < s[j].index);
        } else if j < i {
            assert(s[j].index < s[i].index);
        }
    }
}

/// The far-to-near order is fixed by the edges alone: two ordered lists of
/// the same edges, no two at the same table position, are equal. So each
/// eye's list is exactly determined, and both eyes order edges of the same
/// depth and position alike.
pub proof fn lemma_order_unique(a: Seq<DrawEdge>, b: Seq<DrawEdge>)
    requires
        a.to_multiset() == b.to_multiset(),
        far_to_near(a),
        far_to_near(b),
        index_determines(a.to_multiset()),
    ensures
        a == b,
    decreases a.len(),
{
    broadcast use vstd::seq_lib::group_to_multiset_ensures;

    vstd::seq_lib::to_multiset_len(a);
    vstd::seq_lib::to_multiset_len(b);
    assert(a.len() == b.len());
    if a.len() == 0 {
        assert(a =~= b);
    } else {
        let n = a.len() - 1;
        let x = a[n];
        let y = b[n];
        assert(b.contains(y));
        assert(a.to_multiset().count(y) > 0);
        assert(a.contains(y));
        let k = choose|k: int| 0 <= k < a.len() && a[k] == y;
        assert(a.contains(x));
        assert(b.to_multiset().count(x) > 0);
        assert(b.contains(x));
        let m = choose|m: int| 0 <= m < b.len() && b[m] == x;
        if k != n {
            assert(goes_before(a[k], a[n]));
        }
        if m != n {
            assert(goes_before(b[m], b[n]));
        }
        assert(x == y);
        let a1 = a.drop_last();
        let b1 = b.drop_last();
        assert(a =~= a1.push(x));
        assert(b =~= b1.push(x));
        vstd::seq_lib::to_multiset_build(a1, x);
        vstd::seq_lib::to_multiset_build(b1, x);
        assert(index_determines(a1.to_multiset())) by {
            broadcast use vstd::multiset::group_multiset_axioms;

            assert forall|e: DrawEdge| a1.to_multiset().count(e) <= a.to_multiset().count(e) by {}
        }
        assert(a1.to_multiset() =~= b1.to_multiset()) by {
            broadcast use vstd::multiset::group_multiset_axioms;

            assert forall|e: DrawEdge| a1.to_multiset().count(e) == b1.to_multiset().count(e) by {
                assert(a1.to_multiset().insert(x).count(e) == b1.to_multiset().insert(x).count(e));
            }
        }
        lemma_order_unique(a1, b1);
    }
}

} // verus!
