use stereogram::camera::Point2;
use stereogram::depth::{shade_of, sort_far_to_near, DrawEdge, Shading};

fn contrast(gray: u32, dark: bool) -> i64 {
    if dark {
        gray as i64
    } else {
        1000 - gray as i64
    }
}

#[test]
fn depth_grays_at_the_ends_of_the_range() {
    let lo = -1_000_000;
    let hi = 1_000_000;
    // nearest
    assert_eq!(shade_of(Shading::Depth, false, false, lo, 0, lo, hi, 0, 0), 100);
    assert_eq!(shade_of(Shading::Depth, true, false, lo, 0, lo, hi, 0, 0), 1000);
    // farthest
    assert_eq!(shade_of(Shading::Depth, false, false, hi, 0, lo, hi, 0, 0), 850);
    assert_eq!(shade_of(Shading::Depth, true, false, hi, 0, lo, hi, 0, 0), 750);
    // the middle: nearness exactly one half is in the band above 0.33
    assert_eq!(shade_of(Shading::Depth, false, false, 0, 0, lo, hi, 0, 0), 550);
}

#[test]
fn depth_band_thresholds() {
    let lo = 0;
    let hi = 1_000_000;
    // nearness = (hi - depth) / (hi - lo)
    let grays: Vec<u32> = [160_000, 170_000, 180_000, 500_000, 510_000, 820_000, 840_000]
        .iter()
        .map(|&d| shade_of(Shading::Depth, false, true, d, 0, lo, hi, 0, 0))
        .collect();
    assert_eq!(grays, vec![100, 250, 250, 550, 550, 700, 850]);
}

#[test]
fn narrow_range_uses_the_middle_band() {
    assert_eq!(shade_of(Shading::Depth, false, true, 5, 0, 0, 1000, 0, 0), 550);
    assert_eq!(shade_of(Shading::Depth, true, true, 5, 0, 0, 1000, 0, 0), 850);
    assert_eq!(shade_of(Shading::WDepth, false, true, 0, 7, 0, 0, 7, 7), 600);
    assert_eq!(shade_of(Shading::WDepth, true, true, 0, 7, 0, 0, 7, 7), 700);
}

#[test]
fn w_grays() {
    let lo = -2_000_000;
    let hi = 2_000_000;
    assert_eq!(shade_of(Shading::WDepth, false, true, 0, hi, 0, 0, lo, hi), 0);
    assert_eq!(shade_of(Shading::WDepth, true, true, 0, hi, 0, 0, lo, hi), 1000);
    assert_eq!(shade_of(Shading::WDepth, false, true, 0, lo, 0, 0, lo, hi), 900);
    assert_eq!(shade_of(Shading::WDepth, true, true, 0, lo, 0, 0, lo, hi), 500);
}

#[test]
fn flat_grays() {
    assert_eq!(shade_of(Shading::Flat, false, false, 3, 4, 0, 9, 0, 9), 0);
    assert_eq!(shade_of(Shading::Flat, true, false, 3, 4, 0, 9, 0, 9), 1000);
    assert_eq!(shade_of(Shading::Flat, false, true, 3, 4, 0, 9, 0, 9), 200);
    assert_eq!(shade_of(Shading::Flat, true, true, 3, 4, 0, 9, 0, 9), 800);
}

#[test]
fn nearer_never_stands_out_less() {
    let lo = -1_700_000;
    let hi = 1_900_000;
    for dark in [false, true] {
        let mut last = i64::MAX;
        let mut depth = lo;
        while depth <= hi {
            let c = contrast(shade_of(Shading::Depth, dark, false, depth, 0, lo, hi, 0, 0), dark);
            assert!(c <= last);
            last = c;
            depth += 10_000;
        }
    }
}

fn edge(depth: i64, tag: i128) -> DrawEdge {
    DrawEdge {
        start: Point2 { x: tag, y: 0 },
        end: Point2 { x: 0, y: tag },
        depth,
        w: 0,
        shade: 0,
        index: tag as usize,
    }
}

#[test]
fn edges_sorted_far_to_near() {
    let mut v = vec![edge(1, 0), edge(5, 1), edge(3, 2), edge(5, 3), edge(-2, 4)];
    let mut before = v.clone();
    sort_far_to_near(&mut v);
    let depths: Vec<i64> = v.iter().map(|e| e.depth).collect();
    assert_eq!(depths, vec![5, 5, 3, 1, -2]);
    let order: Vec<usize> = v.iter().map(|e| e.index).collect();
    assert_eq!(order, vec![1, 3, 2, 0, 4]);
    let mut after = v.clone();
    before.sort_by_key(|e| e.start.x);
    after.sort_by_key(|e| e.start.x);
    assert_eq!(before, after);
    let mut empty: Vec<DrawEdge> = Vec::new();
    sort_far_to_near(&mut empty);
    assert!(empty.is_empty());
}

#[test]
fn equal_depths_keep_table_order() {
    let mut v = vec![edge(2, 4), edge(2, 0), edge(7, 3), edge(2, 2), edge(2, 1)];
    sort_far_to_near(&mut v);
    let order: Vec<usize> = v.iter().map(|e| e.index).collect();
    assert_eq!(order, vec![3, 0, 1, 2, 4]);
}
