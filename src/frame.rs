//! One frame of the stereo pair: the selected shape rotated (and, in four
//! dimensions, folded), projected for each eye into its half of the screen,
//! shaded by depth or W, and ordered from far to near.

use vstd::prelude::*;
use crate::fixed::{ONE, COORD_LIMIT, tdiv, div_toward_zero, seq_min, seq_max, min_max, lemma_min_max_bound};
use crate::geometry::{
    Vertex3, Vertex4, Rotation3, Rotation4, norm3, norm4, in_bounds3, rotate3, rotate4,
    fold, rotate_point3, rotate_point4, fold_to_3d, lemma_norm3_in_bounds, lemma_norm4_w_bound,
    Trig, lemma_rotate3_identity, lemma_rotate4_identity,
};
use crate::catalog::{edges_in_range, lemma_solid_vertices_near, lemma_hypersolid_vertices_near};
use crate::camera::{Camera, project, project_point, solid_scale, fit_scale, fitted_scale, orthographic_scale, perspective_scale, SCREEN_LIMIT};
use crate::depth::{DrawEdge, Shading, edge_gray, contrast, depth_gray, depth_band, lemma_depth_contrast_monotonic, lemma_band_range, shade_of, sort_far_to_near, far_to_near, increasing_indices, lemma_increasing_index_determines, lemma_order_unique};
use crate::view::ViewState;
use crate::clip::{clip_all, clip_edges, in_band, point_ok, same_fields, lemma_in_band_by_multiset, lemma_clip_keeps_order, lemma_clip_keeps_fields};

verus! {

/// The shift of an eye along X: the left eye sits at minus the eye
/// separation, the right eye at plus it.
pub open spec fn eye_offset(view: ViewState, right: bool) -> int {
    if right {
        view.eye_separation as int
    } else {
        -view.eye_separation
    }
}

/// The centre along X of an eye's half of a screen `sw` wide: a quarter of
/// the width in, on the left or on the right half.
pub open spec fn center_x(sw: int, right: bool) -> int {
    sw / 4 + if right {
        sw / 2
    } else {
        0
    }
}

/// The edge at position `i` of the table, between two projected points:
/// its depth and W are the means of its ends', its gray not yet set.
pub open spec fn raw_edge(
    pts: Seq<Vertex3>,
    ws: Seq<i64>,
    e: (usize, usize),
    i: int,
    offset: int,
    cam: Camera,
) -> DrawEdge {
    DrawEdge {
        start: project(pts[e.0 as int], offset, cam),
        end: project(pts[e.1 as int], offset, cam),
        depth: tdiv(pts[e.0 as int].z + pts[e.1 as int].z, 2) as i64,
        w: tdiv(ws[e.0 as int] + ws[e.1 as int], 2) as i64,
        shade: 0,
        index: i as usize,
    }
}

/// Every edge of the table between projected points, in table order.
pub open spec fn raw_edges(
    pts: Seq<Vertex3>,
    ws: Seq<i64>,
    edges: Seq<(usize, usize)>,
    offset: int,
    cam: Camera,
) -> Seq<DrawEdge> {
    Seq::new(edges.len(), |i: int| raw_edge(pts, ws, edges[i], i, offset, cam))
}

/// The first X of an eye's half of a screen `sw` wide.
pub open spec fn band_lo(sw: int, right: bool) -> int {
    if right {
        sw / 2
    } else {
        0
    }
}

/// The last X of an eye's half of a screen `sw` wide.
pub open spec fn band_hi(sw: int, right: bool) -> int {
    if right {
        sw - 1
    } else {
        sw / 2 - 1
    }
}

/// The edges with their grays, each gray taken against the frame's own
/// range of depths and of W.
pub open spec fn shade_all(raw: Seq<DrawEdge>, style: Shading, dark: bool, four_d: bool) -> Seq<
    DrawEdge,
> {
    let ds = raw.map_values(|e: DrawEdge| e.depth);
    let ws = raw.map_values(|e: DrawEdge| e.w);
    raw.map_values(
        |e: DrawEdge|
            DrawEdge {
                shade: edge_gray(
                    style,
                    dark,
                    four_d,
                    e.depth as int,
                    e.w as int,
                    seq_min(ds),
                    seq_max(ds),
                    seq_min(ws),
                    seq_max(ws),
                ) as u32,
                ..e
            },
    )
}

/// Shading of a regular solid: by depth when depth coloring is on.
pub open spec fn solid_shading(view: ViewState) -> Shading {
    if view.depth_coloring {
        Shading::Depth
    } else {
        Shading::Flat
    }
}

/// Shading of a four-dimensional polytope: by W when W coloring is on, else
/// by depth when depth coloring is on.
pub open spec fn hypersolid_shading(view: ViewState) -> Shading {
    if view.w_depth_coloring {
        Shading::WDepth
    } else if view.depth_coloring {
        Shading::Depth
    } else {
        Shading::Flat
    }
}

/// The regular solid's vertices, rotated.
pub open spec fn solid_points(view: ViewState, rot: Rotation3) -> Seq<Vertex3> {
    view.solid.vertex_table().map_values(|v: Vertex3| rotate3(v, rot))
}

/// The camera of one eye for a regular solid.
pub open spec fn solid_camera(view: ViewState, sw: int, sh: int, right: bool) -> Camera {
    let d = view.perspective_distance as int;
    Camera {
        center_x: center_x(sw, right) as i128,
        center_y: (sh / 2) as i128,
        scale: (if view.orthographic {
            orthographic_scale(d)
        } else {
            perspective_scale(d)
        }) as i128,
        distance: view.perspective_distance,
        orthographic: view.orthographic,
    }
}

/// What one eye sees of the regular solid, before ordering: each edge
/// clipped to the eye's half of the screen.
pub open spec fn solid_picture(
    view: ViewState,
    rot: Rotation3,
    sw: int,
    sh: int,
    right: bool,
) -> Seq<DrawEdge> {
    let pts = solid_points(view, rot);
    let zeros = Seq::new(pts.len(), |i: int| 0i64);
    let cam = solid_camera(view, sw, sh, right);
    let off = eye_offset(view, right);
    clip_all(
        shade_all(
            raw_edges(pts, zeros, view.solid.edge_table(), off, cam),
            solid_shading(view),
            view.dark_background,
            false,
        ),
        band_lo(sw, right),
        band_hi(sw, right),
    )
}

/// The polytope's vertices turned in four dimensions.
pub open spec fn turned4(view: ViewState, rot4: Rotation4) -> Seq<Vertex4> {
    view.hypersolid.vertex_table().map_values(|v: Vertex4| rotate4(v, rot4))
}

/// The polytope's vertices turned in four dimensions, folded into three and
/// turned about the three axes.
pub open spec fn hypersolid_points(view: ViewState, rot4: Rotation4, rot3: Rotation3) -> Seq<
    Vertex3,
> {
    turned4(view, rot4).map_values(|v: Vertex4| rotate3(fold(v), rot3))
}

/// The W of each vertex after the turn in four dimensions.
pub open spec fn hypersolid_ws(view: ViewState, rot4: Rotation4) -> Seq<i64> {
    turned4(view, rot4).map_values(|v: Vertex4| v.w)
}

/// The camera of one eye for a four-dimensional polytope: its scale makes
/// the points span a quarter of the screen's width.
pub open spec fn hypersolid_camera(
    view: ViewState,
    pts: Seq<Vertex3>,
    sw: int,
    sh: int,
    right: bool,
) -> Camera {
    Camera {
        center_x: center_x(sw, right) as i128,
        center_y: (sh / 2) as i128,
        scale: fitted_scale(pts, view.perspective_distance as int, view.orthographic, sw / 4) as i128,
        distance: view.perspective_distance,
        orthographic: view.orthographic,
    }
}

/// What one eye sees of the four-dimensional polytope, before ordering:
/// each edge clipped to the eye's half of the screen.
pub open spec fn hypersolid_picture(
    view: ViewState,
    rot4: Rotation4,
    rot3: Rotation3,
    sw: int,
    sh: int,
    right: bool,
) -> Seq<DrawEdge> {
    let pts = hypersolid_points(view, rot4, rot3);
    let ws = hypersolid_ws(view, rot4);
    let cam = hypersolid_camera(view, pts, sw, sh, right);
    let off = eye_offset(view, right);
    clip_all(
        shade_all(
            raw_edges(pts, ws, view.hypersolid.edge_table(), off, cam),
            hypersolid_shading(view),
            view.dark_background,
            true,
        ),
        band_lo(sw, right),
        band_hi(sw, right),
    )
}

/// Rotates every vertex of a table.
fn rotate_all3(vs: &Vec<Vertex3>, rot: Rotation3) -> (r: Vec<Vertex3>)
    requires
        rot.wf(),
        forall|i: int| 0 <= i < vs.len() ==> norm3(#[trigger] vs@[i]) <= 4 * ONE * ONE,
    ensures
        r@ == vs@.map_values(|v: Vertex3| rotate3(v, rot)),
        forall|i: int| 0 <= i < r.len() ==> norm3(#[trigger] r@[i]) <= 4 * ONE * ONE,
{
    let mut r: Vec<Vertex3> = Vec::new();
    let mut i: usize = 0;
    while i < vs.len()
        invariant
            i <= vs.len(),
            rot.wf(),
            forall|k: int| 0 <= k < vs.len() ==> norm3(#[trigger] vs@[k]) <= 4 * ONE * ONE,
            r@ =~= vs@.take(i as int).map_values(|v: Vertex3| rotate3(v, rot)),
            forall|k: int| 0 <= k < r.len() ==> norm3(#[trigger] r@[k]) <= 4 * ONE * ONE,
        decreases vs.len() - i,
    {
        let p = rotate_point3(vs[i], rot);
        r.push(p);
        assert(vs@.take(i as int + 1) =~= vs@.take(i as int).push(vs@[i as int]));
        i = i + 1;
    }
    assert(vs@.take(i as int) =~= vs@);
    r
}

/// Turns every vertex of a four-dimensional table, folds it and turns it
/// about the three axes; also gives each vertex's W after the first turn.
fn turn_fold_all(vs: &Vec<Vertex4>, rot4: Rotation4, rot3: Rotation3) -> (r: (
    Vec<Vertex3>,
    Vec<i64>,
))
    requires
        rot4.wf(),
        rot3.wf(),
        forall|i: int| 0 <= i < vs.len() ==> norm4(#[trigger] vs@[i]) <= 4 * ONE * ONE,
    ensures
        r.0@ == vs@.map_values(|v: Vertex4| rotate4(v, rot4)).map_values(
            |v: Vertex4| rotate3(fold(v), rot3),
        ),
        r.1@ == vs@.map_values(|v: Vertex4| rotate4(v, rot4)).map_values(|v: Vertex4| v.w),
        forall|i: int| 0 <= i < r.0.len() ==> norm3(#[trigger] r.0@[i]) <= 8 * ONE * ONE,
        forall|i: int| 0 <= i < r.1.len() ==> -2 * ONE <= #[trigger] r.1@[i] <= 2 * ONE,
{
    let mut pts: Vec<Vertex3> = Vec::new();
    let mut ws: Vec<i64> = Vec::new();
    let mut i: usize = 0;
    while i < vs.len()
        invariant
            i <= vs.len(),
            rot4.wf(),
            rot3.wf(),
            forall|k: int| 0 <= k < vs.len() ==> norm4(#[trigger] vs@[k]) <= 4 * ONE * ONE,
            pts@ =~= vs@.take(i as int).map_values(|v: Vertex4| rotate4(v, rot4)).map_values(
                |v: Vertex4| rotate3(fold(v), rot3),
            ),
            ws@ =~= vs@.take(i as int).map_values(|v: Vertex4| rotate4(v, rot4)).map_values(
                |v: Vertex4| v.w,
            ),
            forall|k: int| 0 <= k < pts.len() ==> norm3(#[trigger] pts@[k]) <= 8 * ONE * ONE,
            forall|k: int| 0 <= k < ws.len() ==> -2 * ONE <= #[trigger] ws@[k] <= 2 * ONE,
        decreases vs.len() - i,
    {
        let t = rotate_point4(vs[i], rot4);
        let f = fold_to_3d(t);
        let p = rotate_point3(f, rot3);
        proof {
            lemma_norm4_w_bound(t, 2 * ONE as int);
        }
        pts.push(p);
        ws.push(t.w);
        assert(vs@.take(i as int + 1) =~= vs@.take(i as int).push(vs@[i as int]));
        i = i + 1;
    }
    assert(vs@.take(i as int) =~= vs@);
    (pts, ws)
}

/// A list of `n` zeros.
fn zeros(n: usize) -> (r: Vec<i64>)
    ensures
        r@ == Seq::new(n as nat, |i: int| 0i64),
{
    let mut r: Vec<i64> = Vec::new();
    let mut i: usize = 0;
    while i < n
        invariant
            i <= n,
            r@ =~= Seq::new(i as nat, |k: int| 0i64),
        decreases n - i,
    {
        r.push(0);
        i = i + 1;
    }
    r
}

/// Projects the ends of every edge and takes its mean depth and W.
fn build_edges(
    pts: &Vec<Vertex3>,
    ws: &Vec<i64>,
    edges: &Vec<(usize, usize)>,
    offset: i64,
    cam: Camera,
) -> (r: Vec<DrawEdge>)
    requires
        cam.wf(),
        pts.len() == ws.len(),
        edges_in_range(edges@, pts.len() as nat),
        forall|i: int| 0 <= i < pts.len() ==> in_bounds3(#[trigger] pts@[i]),
        forall|i: int| 0 <= i < ws.len() ==> -COORD_LIMIT <= #[trigger] ws@[i] <= COORD_LIMIT,
        -COORD_LIMIT <= offset <= COORD_LIMIT,
    ensures
        r@ == raw_edges(pts@, ws@, edges@, offset as int, cam),
        forall|i: int|
            0 <= i < r.len() ==> -COORD_LIMIT <= (#[trigger] r@[i]).depth <= COORD_LIMIT
                && -COORD_LIMIT <= r@[i].w <= COORD_LIMIT,
        forall|i: int|
            0 <= i < r.len() ==> point_ok((#[trigger] r@[i]).start) && point_ok(r@[i].end),
{
    let mut r: Vec<DrawEdge> = Vec::new();
    let mut i: usize = 0;
    while i < edges.len()
        invariant
            i <= edges.len(),
            cam.wf(),
            pts.len() == ws.len(),
            edges_in_range(edges@, pts.len() as nat),
            forall|k: int| 0 <= k < pts.len() ==> in_bounds3(#[trigger] pts@[k]),
            forall|k: int| 0 <= k < ws.len() ==> -COORD_LIMIT <= #[trigger] ws@[k] <= COORD_LIMIT,
            -COORD_LIMIT <= offset <= COORD_LIMIT,
            r@ =~= Seq::new(
                i as nat,
                |k: int| raw_edge(pts@, ws@, edges@[k], k, offset as int, cam),
            ),
            forall|k: int|
                0 <= k < r.len() ==> -COORD_LIMIT <= (#[trigger] r@[k]).depth <= COORD_LIMIT
                    && -COORD_LIMIT <= r@[k].w <= COORD_LIMIT,
            forall|k: int|
                0 <= k < r.len() ==> point_ok((#[trigger] r@[k]).start) && point_ok(r@[k].end),
        decreases edges.len() - i,
    {
        let (a, b) = edges[i];
        assert(edges@[i as int].0 < pts.len() && edges@[i as int].1 < pts.len());
        let pa = pts[a];
        let pb = pts[b];
        let start = project_point(pa, offset, cam);
        let end = project_point(pb, offset, cam);
        let depth = div_toward_zero(pa.z + pb.z, 2);
        let w = div_toward_zero(ws[a] + ws[b], 2);
        proof {
            crate::fixed::lemma_tdiv_shrinks(pa.z + pb.z, 2);
            crate::fixed::lemma_tdiv_shrinks(ws@[a as int] + ws@[b as int], 2);
        }
        r.push(DrawEdge { start, end, depth, w, shade: 0, index: i });
        i = i + 1;
    }
    r
}

/// Gives every edge its gray, against the frame's ranges of depth and W.
fn shade_edges(raw: &Vec<DrawEdge>, style: Shading, dark: bool, four_d: bool) -> (r: Vec<DrawEdge>)
    requires
        forall|i: int|
            0 <= i < raw.len() ==> -COORD_LIMIT <= (#[trigger] raw@[i]).depth <= COORD_LIMIT
                && -COORD_LIMIT <= raw@[i].w <= COORD_LIMIT,
    ensures
        r@ == shade_all(raw@, style, dark, four_d),
{
    let mut ds: Vec<i64> = Vec::new();
    let mut ws: Vec<i64> = Vec::new();
    let mut i: usize = 0;
    while i < raw.len()
        invariant
            i <= raw.len(),
            ds@ =~= raw@.take(i as int).map_values(|e: DrawEdge| e.depth),
            ws@ =~= raw@.take(i as int).map_values(|e: DrawEdge| e.w),
        decreases raw.len() - i,
    {
        ds.push(raw[i].depth);
        ws.push(raw[i].w);
        assert(raw@.take(i as int + 1) =~= raw@.take(i as int).push(raw@[i as int]));
        i = i + 1;
    }
    assert(raw@.take(i as int) =~= raw@);
    let (d_lo, d_hi) = min_max(&ds);
    let (w_lo, w_hi) = min_max(&ws);
    if raw.len() > 0 {
        proof {
            lemma_min_max_bound(ds@);
            lemma_min_max_bound(ws@);
            assert(ds@[0] == raw@[0].depth);
            assert(ws@[0] == raw@[0].w);
            let j = choose|j: int| 0 <= j < ds@.len() && ds@[j] == seq_min(ds@);
            assert(ds@[j] == raw@[j].depth);
            let j = choose|j: int| 0 <= j < ds@.len() && ds@[j] == seq_max(ds@);
            assert(ds@[j] == raw@[j].depth);
            let j = choose|j: int| 0 <= j < ws@.len() && ws@[j] == seq_min(ws@);
            assert(ws@[j] == raw@[j].w);
            let j = choose|j: int| 0 <= j < ws@.len() && ws@[j] == seq_max(ws@);
            assert(ws@[j] == raw@[j].w);
        }
    }
    let mut r: Vec<DrawEdge> = Vec::new();
    let mut k: usize = 0;
    while k < raw.len()
        invariant
            k <= raw.len(),
            forall|i: int|
                0 <= i < raw.len() ==> -COORD_LIMIT <= (#[trigger] raw@[i]).depth <= COORD_LIMIT
                    && -COORD_LIMIT <= raw@[i].w <= COORD_LIMIT,
            ds@ == raw@.map_values(|e: DrawEdge| e.depth),
            ws@ == raw@.map_values(|e: DrawEdge| e.w),
            d_lo == seq_min(ds@),
            d_hi == seq_max(ds@),
            w_lo == seq_min(ws@),
            w_hi == seq_max(ws@),
            raw.len() > 0 ==> -COORD_LIMIT <= d_lo <= d_hi <= COORD_LIMIT,
            raw.len() > 0 ==> -COORD_LIMIT <= w_lo <= w_hi <= COORD_LIMIT,
            r@ =~= raw@.take(k as int).map_values(
                |e: DrawEdge|
                    DrawEdge {
                        shade: edge_gray(
                            style,
                            dark,
                            four_d,
                            e.depth as int,
                            e.w as int,
                            seq_min(ds@),
                            seq_max(ds@),
                            seq_min(ws@),
                            seq_max(ws@),
                        ) as u32,
                        ..e
                    },
            ),
        decreases raw.len() - k,
    {
        let e = raw[k];
        let shade = shade_of(style, dark, four_d, e.depth, e.w, d_lo, d_hi, w_lo, w_hi);
        r.push(DrawEdge { shade, ..e });
        assert(raw@.take(k as int + 1) =~= raw@.take(k as int).push(raw@[k as int]));
        k = k + 1;
    }
    assert(raw@.take(k as int) =~= raw@);
    r
}

/// Shades the edges, clips them to the eye's half of the screen, and orders
/// them far to near.
fn finish_view(
    raw: &Vec<DrawEdge>,
    style: Shading,
    dark: bool,
    four_d: bool,
    sw: i128,
    right: bool,
) -> (r: Vec<DrawEdge>)
    requires
        0 <= sw <= SCREEN_LIMIT,
        forall|i: int|
            0 <= i < raw.len() ==> -COORD_LIMIT <= (#[trigger] raw@[i]).depth <= COORD_LIMIT
                && -COORD_LIMIT <= raw@[i].w <= COORD_LIMIT,
        forall|i: int|
            0 <= i < raw.len() ==> point_ok((#[trigger] raw@[i]).start) && point_ok(raw@[i].end),
    ensures
        r@.to_multiset() == clip_all(
            shade_all(raw@, style, dark, four_d),
            band_lo(sw as int, right),
            band_hi(sw as int, right),
        ).to_multiset(),
        far_to_near(r@),
        forall|i: int|
            0 <= i < r.len() ==> in_band(
                #[trigger] r@[i],
                band_lo(sw as int, right),
                band_hi(sw as int, right),
            ),
{
    let shaded = shade_edges(raw, style, dark, four_d);
    assert forall|i: int| 0 <= i < shaded.len() implies point_ok((#[trigger] shaded@[i]).start)
        && point_ok(shaded@[i].end) by {
        assert(shaded@[i].start == raw@[i].start && shaded@[i].end == raw@[i].end);
    }
    let (lo, hi) = if right {
        (sw / 2, sw - 1)
    } else {
        (0, sw / 2 - 1)
    };
    let mut out = clip_edges(&shaded, lo, hi);
    let ghost clipped = out@;
    sort_far_to_near(&mut out);
    proof {
        lemma_in_band_by_multiset(clipped, out@, lo as int, hi as int);
    }
    out
}

/// What one eye sees of the current shape, before ordering.
pub open spec fn eye_picture(
    view: ViewState,
    rot3: Rotation3,
    rot4: Rotation4,
    sw: int,
    sh: int,
    right: bool,
) -> Seq<DrawEdge> {
    if view.four_d {
        hypersolid_picture(view, rot4, rot3, sw, sh, right)
    } else {
        solid_picture(view, rot3, sw, sh, right)
    }
}

/// The centre of an eye's half of a screen `sw` by `sh` micro-pixels.
pub fn eye_center(sw: i128, sh: i128, right: bool) -> (r: (i128, i128))
    requires
        0 <= sw <= SCREEN_LIMIT,
        0 <= sh <= SCREEN_LIMIT,
    ensures
        r.0 == center_x(sw as int, right),
        r.1 == sh / 2,
{
    let cx = sw / 4 + if right {
        sw / 2
    } else {
        0
    };
    (cx, sh / 2)
}

/// One eye's edges of the selected regular solid, far to near: the solid
/// rotated by `rot`, shifted by the eye's offset, projected into the eye's
/// half of a screen `sw` by `sh` micro-pixels, shaded, and clipped to that
/// half. Edges of equal depth keep the order of the edge table.
pub fn solid_view(view: &ViewState, rot: Rotation3, sw: i128, sh: i128, right: bool) -> (r: Vec<
    DrawEdge,
>)
    requires
        view.wf(),
        rot.wf(),
        0 <= sw <= SCREEN_LIMIT,
        0 <= sh <= SCREEN_LIMIT,
    ensures
        r@.to_multiset() == solid_picture(*view, rot, sw as int, sh as int, right).to_multiset(),
        far_to_near(r@),
        forall|i: int|
            0 <= i < r.len() ==> in_band(
                #[trigger] r@[i],
                band_lo(sw as int, right),
                band_hi(sw as int, right),
            ),
{
    let vs = view.solid.vertices();
    let es = view.solid.edges();
    proof {
        lemma_solid_vertices_near(view.solid);
    }
    let pts = rotate_all3(&vs, rot);
    proof {
        assert forall|i: int| 0 <= i < pts.len() implies in_bounds3(#[trigger] pts@[i]) by {
            lemma_norm3_in_bounds(pts@[i]);
        }
    }
    let ws = zeros(pts.len());
    let d = view.perspective_distance;
    let (cx, cy) = eye_center(sw, sh, right);
    let cam = Camera {
        center_x: cx,
        center_y: cy,
        scale: solid_scale(d, view.orthographic),
        distance: d,
        orthographic: view.orthographic,
    };
    let off = if right {
        view.eye_separation
    } else {
        -view.eye_separation
    };
    let raw = build_edges(&pts, &ws, &es, off, cam);
    let shading = if view.depth_coloring {
        Shading::Depth
    } else {
        Shading::Flat
    };
    finish_view(&raw, shading, view.dark_background, false, sw, right)
}

/// One eye's edges of the selected four-dimensional polytope, far to near:
/// the polytope turned by `rot4`, folded into three dimensions, turned by
/// `rot3`, shifted by the eye's offset, projected at a scale that makes it
/// span a quarter of the screen's width, shaded, and clipped to the eye's
/// half. Edges of equal depth keep the order of the edge table.
pub fn hypersolid_view(
    view: &ViewState,
    rot4: Rotation4,
    rot3: Rotation3,
    sw: i128,
    sh: i128,
    right: bool,
) -> (r: Vec<DrawEdge>)
    requires
        view.wf(),
        rot4.wf(),
        rot3.wf(),
        0 <= sw <= SCREEN_LIMIT,
        0 <= sh <= SCREEN_LIMIT,
    ensures
        r@.to_multiset() == hypersolid_picture(
            *view,
            rot4,
            rot3,
            sw as int,
            sh as int,
            right,
        ).to_multiset(),
        far_to_near(r@),
        forall|i: int|
            0 <= i < r.len() ==> in_band(
                #[trigger] r@[i],
                band_lo(sw as int, right),
                band_hi(sw as int, right),
            ),
{
    let vs = view.hypersolid.vertices();
    let es = view.hypersolid.edges();
    proof {
        lemma_hypersolid_vertices_near(view.hypersolid);
    }
    let (pts, ws) = turn_fold_all(&vs, rot4, rot3);
    proof {
        assert forall|i: int| 0 <= i < pts.len() implies in_bounds3(#[trigger] pts@[i]) by {
            lemma_norm3_in_bounds(pts@[i]);
        }
    }
    let d = view.perspective_distance;
    let scale = fit_scale(&pts, d, view.orthographic, sw / 4);
    let (cx, cy) = eye_center(sw, sh, right);
    let cam = Camera {
        center_x: cx,
        center_y: cy,
        scale,
        distance: d,
        orthographic: view.orthographic,
    };
    let off = if right {
        view.eye_separation
    } else {
        -view.eye_separation
    };
    let raw = build_edges(&pts, &ws, &es, off, cam);
    let shading = if view.w_depth_coloring {
        Shading::WDepth
    } else if view.depth_coloring {
        Shading::Depth
    } else {
        Shading::Flat
    };
    finish_view(&raw, shading, view.dark_background, true, sw, right)
}

/// Both eyes' edges of the current shape, left then right, each ordered far
/// to near: the regular solid in the three-dimensional mode, the
/// four-dimensional polytope otherwise.
pub fn stereo_pair(view: &ViewState, rot3: Rotation3, rot4: Rotation4, sw: i128, sh: i128) -> (r: (
    Vec<DrawEdge>,
    Vec<DrawEdge>,
))
    requires
        view.wf(),
        rot3.wf(),
        rot4.wf(),
        0 <= sw <= SCREEN_LIMIT,
        0 <= sh <= SCREEN_LIMIT,
    ensures
        r.0@.to_multiset() == eye_picture(*view, rot3, rot4, sw as int, sh as int, false).to_multiset(),
        r.1@.to_multiset() == eye_picture(*view, rot3, rot4, sw as int, sh as int, true).to_multiset(),
        far_to_near(r.0@),
        far_to_near(r.1@),
        forall|i: int| 0 <= i < r.0.len() ==> in_band(#[trigger] r.0@[i], 0, sw / 2 - 1),
        forall|i: int| 0 <= i < r.1.len() ==> in_band(#[trigger] r.1@[i], sw / 2, sw - 1),
{
    if view.four_d {
        (
            hypersolid_view(view, rot4, rot3, sw, sh, false),
            hypersolid_view(view, rot4, rot3, sw, sh, true),
        )
    } else {
        (solid_view(view, rot3, sw, sh, false), solid_view(view, rot3, sw, sh, true))
    }
}

/// With every angle at zero the rotated vertices are the table's own, for
/// every regular solid and every four-dimensional polytope.
pub proof fn lemma_zero_rotation_keeps_vertices(view: ViewState)
    ensures
        solid_points(
            view,
            Rotation3 {
                x: Trig { cos: ONE, sin: 0 },
                y: Trig { cos: ONE, sin: 0 },
                z: Trig { cos: ONE, sin: 0 },
            },
        ) == view.solid.vertex_table(),
        turned4(
            view,
            Rotation4 {
                xy: Trig { cos: ONE, sin: 0 },
                xz: Trig { cos: ONE, sin: 0 },
                yz: Trig { cos: ONE, sin: 0 },
                xw: Trig { cos: ONE, sin: 0 },
                yw: Trig { cos: ONE, sin: 0 },
                zw: Trig { cos: ONE, sin: 0 },
            },
        ) == view.hypersolid.vertex_table(),
{
    let t = Trig { cos: ONE, sin: 0 };
    let r3 = Rotation3 { x: t, y: t, z: t };
    let r4 = Rotation4 { xy: t, xz: t, yz: t, xw: t, yw: t, zw: t };
    let a = view.solid.vertex_table();
    assert forall|i: int| 0 <= i < a.len() implies #[trigger] rotate3(a[i], r3) == a[i] by {
        lemma_rotate3_identity(a[i]);
    }
    assert(solid_points(view, r3) =~= a);
    let b = view.hypersolid.vertex_table();
    assert forall|i: int| 0 <= i < b.len() implies #[trigger] rotate4(b[i], r4) == b[i] by {
        lemma_rotate4_identity(b[i]);
    }
    assert(turned4(view, r4) =~= b);
}

/// Positions grow along a table's raw edges, and shading keeps them.
pub proof fn lemma_shaded_edges_increasing(
    pts: Seq<Vertex3>,
    ws: Seq<i64>,
    edges: Seq<(usize, usize)>,
    offset: int,
    cam: Camera,
    style: Shading,
    dark: bool,
    four_d: bool,
)
    requires
        edges.len() <= usize::MAX,
    ensures
        increasing_indices(shade_all(raw_edges(pts, ws, edges, offset, cam), style, dark, four_d)),
{
}

/// Each eye's list of the regular solid is fixed exactly: any two lists
/// that hold the eye's picture in far-to-near order are equal. The ties of
/// equal depth are broken by the position in the edge table, for both eyes
/// alike.
pub proof fn lemma_solid_view_determined(
    view: ViewState,
    rot: Rotation3,
    sw: int,
    sh: int,
    right: bool,
    a: Seq<DrawEdge>,
    b: Seq<DrawEdge>,
)
    requires
        a.to_multiset() == solid_picture(view, rot, sw, sh, right).to_multiset(),
        b.to_multiset() == solid_picture(view, rot, sw, sh, right).to_multiset(),
        far_to_near(a),
        far_to_near(b),
    ensures
        a == b,
{
    let pts = solid_points(view, rot);
    let zeros = Seq::new(pts.len(), |i: int| 0i64);
    let cam = solid_camera(view, sw, sh, right);
    let off = eye_offset(view, right);
    let edges = view.solid.edge_table();
    assert(edges.len() <= usize::MAX);
    lemma_shaded_edges_increasing(pts, zeros, edges, off, cam, solid_shading(view), view.dark_background, false);
    let shaded = shade_all(raw_edges(pts, zeros, edges, off, cam), solid_shading(view), view.dark_background, false);
    lemma_clip_keeps_order(shaded, band_lo(sw, right), band_hi(sw, right));
    lemma_increasing_index_determines(solid_picture(view, rot, sw, sh, right));
    lemma_order_unique(a, b);
}

/// Each eye's list of the four-dimensional polytope is fixed exactly: any
/// two lists that hold the eye's picture in far-to-near order are equal.
pub proof fn lemma_hypersolid_view_determined(
    view: ViewState,
    rot4: Rotation4,
    rot3: Rotation3,
    sw: int,
    sh: int,
    right: bool,
    a: Seq<DrawEdge>,
    b: Seq<DrawEdge>,
)
    requires
        a.to_multiset() == hypersolid_picture(view, rot4, rot3, sw, sh, right).to_multiset(),
        b.to_multiset() == hypersolid_picture(view, rot4, rot3, sw, sh, right).to_multiset(),
        far_to_near(a),
        far_to_near(b),
    ensures
        a == b,
{
    let pts = hypersolid_points(view, rot4, rot3);
    let ws = hypersolid_ws(view, rot4);
    let cam = hypersolid_camera(view, pts, sw, sh, right);
    let off = eye_offset(view, right);
    let edges = view.hypersolid.edge_table();
    assert(edges.len() <= usize::MAX);
    lemma_shaded_edges_increasing(pts, ws, edges, off, cam, hypersolid_shading(view), view.dark_background, true);
    let shaded = shade_all(raw_edges(pts, ws, edges, off, cam), hypersolid_shading(view), view.dark_background, true);
    lemma_clip_keeps_order(shaded, band_lo(sw, right), band_hi(sw, right));
    lemma_increasing_index_determines(hypersolid_picture(view, rot4, rot3, sw, sh, right));
    lemma_order_unique(a, b);
}

/// With depth coloring on, an edge of an eye's picture that is nearer than
/// another (smaller mean depth) stands out from the background at least as
/// much, on either background: its gray comes from a band no lower.
pub proof fn lemma_solid_view_shading_monotonic(
    view: ViewState,
    rot: Rotation3,
    sw: int,
    sh: int,
    right: bool,
    i: int,
    j: int,
)
    requires
        view.depth_coloring,
        0 <= i < solid_picture(view, rot, sw, sh, right).len(),
        0 <= j < solid_picture(view, rot, sw, sh, right).len(),
        solid_picture(view, rot, sw, sh, right)[i].depth <= solid_picture(
            view,
            rot,
            sw,
            sh,
            right,
        )[j].depth,
    ensures
        contrast(solid_picture(view, rot, sw, sh, right)[i].shade as int, view.dark_background)
            >= contrast(
            solid_picture(view, rot, sw, sh, right)[j].shade as int,
            view.dark_background,
        ),
{
    let pts = solid_points(view, rot);
    let zeros = Seq::new(pts.len(), |k: int| 0i64);
    let cam = solid_camera(view, sw, sh, right);
    let off = eye_offset(view, right);
    let raw = raw_edges(pts, zeros, view.solid.edge_table(), off, cam);
    let shaded = shade_all(raw, Shading::Depth, view.dark_background, false);
    let pic = solid_picture(view, rot, sw, sh, right);
    lemma_clip_keeps_fields(shaded, band_lo(sw, right), band_hi(sw, right));
    let a = choose|a: int| 0 <= a < shaded.len() && same_fields(pic[i], shaded[a]);
    let b = choose|b: int| 0 <= b < shaded.len() && same_fields(pic[j], shaded[b]);
    let ds = raw.map_values(|e: DrawEdge| e.depth);
    lemma_depth_contrast_monotonic(
        raw[a].depth as int,
        raw[b].depth as int,
        seq_min(ds),
        seq_max(ds),
        view.dark_background,
    );
    let g1 = depth_gray(depth_band(raw[a].depth as int, seq_min(ds), seq_max(ds)), view.dark_background);
    let g2 = depth_gray(depth_band(raw[b].depth as int, seq_min(ds), seq_max(ds)), view.dark_background);
    lemma_band_range(raw[a].depth as int, seq_min(ds), seq_max(ds));
    lemma_band_range(raw[b].depth as int, seq_min(ds), seq_max(ds));
    assert(shaded[a].shade == g1 as u32);
    assert(shaded[b].shade == g2 as u32);
}

/// With every angle at zero, an eye's picture of the regular solid is the
/// projection of the table's own vertices.
pub proof fn lemma_unrotated_solid_picture(view: ViewState, sw: int, sh: int, right: bool)
    ensures
        ({
            let t = Trig { cos: ONE, sin: 0 };
            let pts = view.solid.vertex_table();
            solid_picture(view, Rotation3 { x: t, y: t, z: t }, sw, sh, right) == clip_all(
                shade_all(
                    raw_edges(
                        pts,
                        Seq::new(pts.len(), |i: int| 0i64),
                        view.solid.edge_table(),
                        eye_offset(view, right),
                        solid_camera(view, sw, sh, right),
                    ),
                    solid_shading(view),
                    view.dark_background,
                    false,
                ),
                band_lo(sw, right),
                band_hi(sw, right),
            )
        }),
{
    lemma_zero_rotation_keeps_vertices(view);
}

} // verus!
