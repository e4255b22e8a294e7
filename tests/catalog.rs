use stereogram::catalog::{Hypersolid, PlatonicSolid};
use stereogram::geometry::{Vertex3, Vertex4};

const SOLIDS: [PlatonicSolid; 5] = [
    PlatonicSolid::Tetrahedron,
    PlatonicSolid::Cube,
    PlatonicSolid::Octahedron,
    PlatonicSolid::Dodecahedron,
    PlatonicSolid::Icosahedron,
];

const HYPERSOLIDS: [Hypersolid; 3] =
    [Hypersolid::Tesseract, Hypersolid::FourSimplex, Hypersolid::FourOrthoplex];

#[test]
fn table_sizes() {
    let expected = [(4, 6), (8, 12), (6, 12), (20, 30), (12, 30)];
    for (s, (nv, ne)) in SOLIDS.iter().zip(expected.iter()) {
        assert_eq!(s.vertices().len(), *nv);
        assert_eq!(s.edges().len(), *ne);
    }
    let expected4 = [(16, 32), (5, 10), (8, 24)];
    for (h, (nv, ne)) in HYPERSOLIDS.iter().zip(expected4.iter()) {
        assert_eq!(h.vertices().len(), *nv);
        assert_eq!(h.edges().len(), *ne);
    }
}

#[test]
fn every_edge_references_its_own_vertices() {
    for s in SOLIDS.iter() {
        let n = s.vertices().len();
        for (a, b) in s.edges() {
            assert!(a < n && b < n);
            assert_ne!(a, b);
        }
    }
    for h in HYPERSOLIDS.iter() {
        let n = h.vertices().len();
        for (a, b) in h.edges() {
            assert!(a < n && b < n);
            assert_ne!(a, b);
        }
    }
}

#[test]
fn shape_selector_cycles_in_five() {
    let start = PlatonicSolid::Tetrahedron;
    let order = [
        PlatonicSolid::Cube,
        PlatonicSolid::Octahedron,
        PlatonicSolid::Dodecahedron,
        PlatonicSolid::Icosahedron,
        PlatonicSolid::Tetrahedron,
    ];
    let mut s = start;
    for expected in order.iter() {
        s = s.next();
        assert_eq!(s, *expected);
    }
    assert_eq!(s, start);
    for s0 in SOLIDS.iter() {
        assert_eq!(s0.next().next().next().next().next(), *s0);
    }
}

#[test]
fn hypersolid_selector_cycles_in_three() {
    assert_eq!(Hypersolid::Tesseract.next(), Hypersolid::FourSimplex);
    assert_eq!(Hypersolid::FourSimplex.next(), Hypersolid::FourOrthoplex);
    assert_eq!(Hypersolid::FourOrthoplex.next(), Hypersolid::Tesseract);
}

#[test]
fn names() {
    assert_eq!(PlatonicSolid::Cube.name(), "Cube");
    assert_eq!(PlatonicSolid::Icosahedron.name(), "Icosahedron");
    assert_eq!(Hypersolid::FourSimplex.name(), "4-Simplex");
    assert_eq!(Hypersolid::FourOrthoplex.name(), "4-Orthoplex");
}

#[test]
fn table_entries() {
    let cube = PlatonicSolid::Cube.vertices();
    assert_eq!(cube[6], Vertex3 { x: 1_000_000, y: 1_000_000, z: 1_000_000 });
    assert_eq!(cube[0], Vertex3 { x: -1_000_000, y: -1_000_000, z: -1_000_000 });
    let dodeca = PlatonicSolid::Dodecahedron.vertices();
    assert_eq!(dodeca[8], Vertex3 { x: 0, y: 1_618_034, z: 618_034 });
    let octa = PlatonicSolid::Octahedron.vertices();
    assert_eq!(octa[5], Vertex3 { x: 0, y: 0, z: -1_400_000 });
    let tess = Hypersolid::Tesseract.vertices();
    assert_eq!(tess[0], Vertex4 { x: -1_000_000, y: -1_000_000, z: -1_000_000, w: -1_000_000 });
    assert_eq!(tess[15], Vertex4 { x: 1_000_000, y: 1_000_000, z: 1_000_000, w: 1_000_000 });
    assert_eq!(PlatonicSolid::Cube.edges()[3], (3, 0));
    assert_eq!(Hypersolid::Tesseract.edges()[24], (0, 8));
}

#[test]
fn four_simplex_joins_every_pair() {
    let edges = Hypersolid::FourSimplex.edges();
    for a in 0..5usize {
        for b in (a + 1)..5usize {
            assert!(edges.contains(&(a, b)));
        }
    }
}

#[test]
fn four_orthoplex_skips_only_opposites() {
    let edges = Hypersolid::FourOrthoplex.edges();
    for a in 0..8usize {
        for b in (a + 1)..8usize {
            let opposite = a / 2 == b / 2;
            assert_eq!(edges.contains(&(a, b)), !opposite);
        }
    }
}

#[test]
fn four_simplex_is_regular() {
    let v = Hypersolid::FourSimplex.vertices();
    for a in 0..5 {
        for b in (a + 1)..5 {
            let d2: i128 = [
                (v[a].x - v[b].x) as i128,
                (v[a].y - v[b].y) as i128,
                (v[a].z - v[b].z) as i128,
                (v[a].w - v[b].w) as i128,
            ]
            .iter()
            .map(|c| c * c)
            .sum();
            assert!(d2 >= 8_000_000_000_000 && d2 <= 8_000_010_000_000);
        }
    }
}
