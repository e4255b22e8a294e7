//! Clipping of edges to an eye's half of the screen, so that the two eyes'
//! pictures never overlap.

use vstd::prelude::*;
use crate::fixed::{tdiv, abs};
use crate::camera::{Point2, POINT_LIMIT, SCREEN_LIMIT};
use crate::depth::{DrawEdge, increasing_indices};

verus! {

/// Where the segment from `a` to `b` crosses the vertical line at `x`, with
/// Y rounded toward `a`'s.
pub open spec fn cross_at(a: Point2, b: Point2, x: int) -> Point2 {
    Point2 {
        x: x as i128,
        y: (a.y + tdiv((b.y - a.y) * abs(x - a.x), abs(b.x - a.x))) as i128,
    }
}

/// The end `a` of the segment from `a` to `b`, moved along the segment into
/// the band `lo <= x <= hi` where it lies outside.
pub open spec fn clip_end(a: Point2, b: Point2, lo: int, hi: int) -> Point2 {
    if a.x < lo {
        cross_at(a, b, lo)
    } else if a.x > hi {
        cross_at(a, b, hi)
    } else {
        a
    }
}

/// The part of an edge inside the band `lo <= x <= hi`, or nothing where no
/// part of it lies there.
pub open spec fn clip_edge(e: DrawEdge, lo: int, hi: int) -> Option<DrawEdge> {
    if lo > hi || (e.start.x < lo && e.end.x < lo) || (e.start.x > hi && e.end.x > hi) {
        None
    } else {
        Some(
            DrawEdge {
                start: clip_end(e.start, e.end, lo, hi),
                end: clip_end(e.end, e.start, lo, hi),
                ..e
            },
        )
    }
}

/// Every edge clipped to the band, in the same order, the ones outside it
/// left out.
pub open spec fn clip_all(s: Seq<DrawEdge>, lo: int, hi: int) -> Seq<DrawEdge>
    decreases s.len(),
{
    if s.len() == 0 {
        Seq::empty()
    } else {
        let r = clip_all(s.drop_last(), lo, hi);
        match clip_edge(s.last(), lo, hi) {
            Some(e) => r.push(e),
            None => r,
        }
    }
}

/// Both ends of the edge lie in the band.
pub open spec fn in_band(e: DrawEdge, lo: int, hi: int) -> bool {
    lo <= e.start.x <= hi && lo <= e.end.x <= hi
}

pub open spec fn point_ok(p: Point2) -> bool {
    -POINT_LIMIT <= p.x <= POINT_LIMIT && -POINT_LIMIT <= p.y <= POINT_LIMIT
}

fn cross(a: Point2, b: Point2, x: i128) -> (r: Point2)
    requires
        point_ok(a),
        point_ok(b),
        a.x != b.x,
        (a.x <= x <= b.x) || (b.x <= x <= a.x),
    ensures
        r == cross_at(a, b, x as int),
{
    let dy = b.y - a.y;
    let (dx, part) = if b.x > a.x {
        (b.x - a.x, x - a.x)
    } else {
        (a.x - b.x, a.x - x)
    };
    proof {
        let l = 2 * POINT_LIMIT;
        assert(-l * l <= dy * part <= l * l) by (nonlinear_arith)
            requires
                -l <= dy <= l,
                0 <= part <= l,
        ;
        crate::fixed::lemma_tdiv_shrinks(dy * part, dx as int);
        let ady = abs(dy as int);
        assert(abs(dy * part) == ady * part) by (nonlinear_arith)
            requires
                ady == dy || ady == -dy,
                ady >= 0,
                part >= 0,
        ;
        let aq = abs(tdiv(dy * part, dx as int));
        assert(ady * part <= ady * dx) by (nonlinear_arith)
            requires
                0 <= part <= dx,
                ady >= 0,
        ;
        assert(aq <= ady) by (nonlinear_arith)
            requires
                aq * dx <= ady * dx,
                dx > 0,
        ;
    }
    let q = crate::fixed::div_toward_zero_wide(dy * part, dx);
    Point2 { x, y: a.y + q }
}

/// Clips one edge to the band `lo <= x <= hi`.
pub fn clip_one(e: DrawEdge, lo: i128, hi: i128) -> (r: Option<DrawEdge>)
    requires
        point_ok(e.start),
        point_ok(e.end),
        0 <= lo <= SCREEN_LIMIT,
        -1 <= hi <= SCREEN_LIMIT,
    ensures
        r == clip_edge(e, lo as int, hi as int),
        r is Some ==> in_band(r->0, lo as int, hi as int),
{
    if lo > hi || (e.start.x < lo && e.end.x < lo) || (e.start.x > hi && e.end.x > hi) {
        return None;
    }
    let s = e.start;
    let t = e.end;
    let s2 = if s.x < lo {
        cross(s, t, lo)
    } else if s.x > hi {
        cross(s, t, hi)
    } else {
        s
    };
    let t2 = if t.x < lo {
        cross(t, s, lo)
    } else if t.x > hi {
        cross(t, s, hi)
    } else {
        t
    };
    Some(DrawEdge { start: s2, end: t2, ..e })
}

/// Clips every edge to the band `lo <= x <= hi`, leaving out those outside.
pub fn clip_edges(v: &Vec<DrawEdge>, lo: i128, hi: i128) -> (r: Vec<DrawEdge>)
    requires
        forall|i: int|
            0 <= i < v.len() ==> point_ok((#[trigger] v@[i]).start) && point_ok(v@[i].end),
        0 <= lo <= SCREEN_LIMIT,
        -1 <= hi <= SCREEN_LIMIT,
    ensures
        r@ == clip_all(v@, lo as int, hi as int),
        forall|i: int| 0 <= i < r.len() ==> in_band(#[trigger] r@[i], lo as int, hi as int),
{
    let mut r: Vec<DrawEdge> = Vec::new();
    let mut i: usize = 0;
    while i < v.len()
        invariant
            i <= v.len(),
            forall|k: int|
                0 <= k < v.len() ==> point_ok((#[trigger] v@[k]).start) && point_ok(v@[k].end),
            0 <= lo <= SCREEN_LIMIT,
            -1 <= hi <= SCREEN_LIMIT,
            r@ == clip_all(v@.take(i as int), lo as int, hi as int),
            forall|k: int| 0 <= k < r.len() ==> in_band(#[trigger] r@[k], lo as int, hi as int),
        decreases v.len() - i,
    {
        assert(v@.take(i as int + 1).drop_last() =~= v@.take(i as int));
        assert(v@.take(i as int + 1).last() == v@[i as int]);
        match clip_one(v[i], lo, hi) {
            Some(e) => r.push(e),
            None => {},
        }
        i = i + 1;
    }
    assert(v@.take(i as int) =~= v@);
    r
}

/// Two lists of the same edges: where every edge of the first lies in the
/// band, so does every edge of the second.
pub proof fn lemma_in_band_by_multiset(a: Seq<DrawEdge>, b: Seq<DrawEdge>, lo: int, hi: int)
    requires
        a.to_multiset() == b.to_multiset(),
        forall|i: int| 0 <= i < a.len() ==> in_band(#[trigger] a[i], lo, hi),
    ensures
        forall|j: int| 0 <= j < b.len() ==> in_band(#[trigger] b[j], lo, hi),
{
    assert forall|j: int| 0 <= j < b.len() implies in_band(#[trigger] b[j], lo, hi) by {
        vstd::seq_lib::to_multiset_contains(b, b[j]);
        assert(b.contains(b[j]));
        vstd::seq_lib::to_multiset_contains(a, b[j]);
        let i = choose|i: int| 0 <= i < a.len() && a[i] == b[j];
        assert(in_band(a[i], lo, hi));
    }
}

/// Clipping keeps the order of the edges and their positions in the table:
/// where positions grow along the list, they grow along the clipped one.
pub proof fn lemma_clip_keeps_order(s: Seq<DrawEdge>, lo: int, hi: int)
    requires
        increasing_indices(s),
    ensures
        increasing_indices(clip_all(s, lo, hi)),
        forall|k: int|
            0 <= k < clip_all(s, lo, hi).len() ==> exists|i: int|
                0 <= i < s.len() && (#[trigger] clip_all(s, lo, hi)[k]).index == s[i].index,
    decreases s.len(),
{
    if s.len() > 0 {
        let d = s.drop_last();
        assert(increasing_indices(d));
        lemma_clip_keeps_order(d, lo, hi);
        let r = clip_all(d, lo, hi);
        assert forall|k: int| 0 <= k < r.len() implies (#[trigger] r[k]).index < s.last().index by {
            let i = choose|i: int| 0 <= i < d.len() && r[k].index == d[i].index;
            assert(d[i] == s[i]);
        }
        assert forall|k: int|
            0 <= k < clip_all(s, lo, hi).len() implies exists|i: int|
                0 <= i < s.len() && (#[trigger] clip_all(s, lo, hi)[k]).index == s[i].index by {
            if k < r.len() {
                assert(clip_all(s, lo, hi)[k] == r[k]);
                let i = choose|i: int| 0 <= i < d.len() && r[k].index == d[i].index;
                assert(d[i] == s[i]);
            } else {
                assert(clip_all(s, lo, hi)[k].index == s[s.len() - 1].index);
            }
        }
    }
}

/// Clipping moves only the ends of an edge: each clipped edge has the
/// depth, W, gray and table position of an edge of the list.
pub proof fn lemma_clip_keeps_fields(s: Seq<DrawEdge>, lo: int, hi: int)
    ensures
        forall|k: int|
            0 <= k < clip_all(s, lo, hi).len() ==> exists|i: int|
                0 <= i < s.len() && same_fields(#[trigger] clip_all(s, lo, hi)[k], s[i]),
    decreases s.len(),
{
    if s.len() > 0 {
        let d = s.drop_last();
        lemma_clip_keeps_fields(d, lo, hi);
        let r = clip_all(d, lo, hi);
        assert forall|k: int| 0 <= k < clip_all(s, lo, hi).len() implies exists|i: int|
            0 <= i < s.len() && same_fields(#[trigger] clip_all(s, lo, hi)[k], s[i]) by {
            if k < r.len() {
                assert(clip_all(s, lo, hi)[k] == r[k]);
                let i = choose|i: int| 0 <= i < d.len() && same_fields(r[k], d[i]);
                assert(d[i] == s[i]);
            } else {
                assert(same_fields(clip_all(s, lo, hi)[k], s[s.len() - 1]));
            }
        }
    }
}

/// Two edges agree in all but their ends.
pub open spec fn same_fields(x: DrawEdge, y: DrawEdge) -> bool {
    x.depth == y.depth && x.w == y.w && x.shade == y.shade && x.index == y.index
}

} // verus!
