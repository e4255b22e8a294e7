//! The fixed tables of vertices and edges of the five regular solids and
//! the three regular four-dimensional polytopes.

use vstd::prelude::*;
use crate::fixed::ONE;
use crate::geometry::{Vertex3, Vertex4, norm3, norm4};

verus! {

/// The regular solids of three dimensions.
#[derive(Clone, Copy, Debug, PartialEq, Eq, Structural)]
pub enum PlatonicSolid {
    Tetrahedron,
    Cube,
    Octahedron,
    Dodecahedron,
    Icosahedron,
}

/// The regular polytopes of four dimensions that the viewer shows.
#[derive(Clone, Copy, Debug, PartialEq, Eq, Structural)]
pub enum Hypersolid {
    Tesseract,
    FourSimplex,
    FourOrthoplex,
}

// Coordinates are in micro-units. The dodecahedron and the icosahedron use
// the golden ratio 1.618034 and its inverse 0.618034; the octahedron's
// vertices lie 1.4 from the centre so that it looks as large as the cube.
// The 4-simplex puts four vertices at (+-1, +-1, +-1) with an even number of
// minus signs and W = -a, the fifth at W = 4a, with a = 1/sqrt(5) = 0.447214,
// which makes all five equidistant.

/// Every edge joins two positions of a table of `n` vertices.
pub open spec fn edges_in_range(edges: Seq<(usize, usize)>, n: nat) -> bool {
    forall|i: int| 0 <= i < edges.len() ==> (#[trigger] edges[i]).0 < n && edges[i].1 < n
}

pub open spec fn tetrahedron_vertices() -> Seq<Vertex3> {
    seq![
        Vertex3 { x: 1_000_000, y: 1_000_000, z: 1_000_000 },
        Vertex3 { x: -1_000_000i64, y: -1_000_000i64, z: 1_000_000 },
        Vertex3 { x: -1_000_000i64, y: 1_000_000, z: -1_000_000i64 },
        Vertex3 { x: 1_000_000, y: -1_000_000i64, z: -1_000_000i64 },
    ]
}

pub open spec fn tetrahedron_edges() -> Seq<(usize, usize)> {
    seq![
        (0, 1),
        (0, 2),
        (0, 3),
        (1, 2),
        (1, 3),
        (2, 3),
    ]
}

pub open spec fn cube_vertices() -> Seq<Vertex3> {
    seq![
        Vertex3 { x: -1_000_000i64, y: -1_000_000i64, z: -1_000_000i64 },
        Vertex3 { x: 1_000_000, y: -1_000_000i64, z: -1_000_000i64 },
        Vertex3 { x: 1_000_000, y: 1_000_000, z: -1_000_000i64 },
        Vertex3 { x: -1_000_000i64, y: 1_000_000, z: -1_000_000i64 },
        Vertex3 { x: -1_000_000i64, y: -1_000_000i64, z: 1_000_000 },
        Vertex3 { x: 1_000_000, y: -1_000_000i64, z: 1_000_000 },
        Vertex3 { x: 1_000_000, y: 1_000_000, z: 1_000_000 },
        Vertex3 { x: -1_000_000i64, y: 1_000_000, z: 1_000_000 },
    ]
}

pub open spec fn cube_edges() -> Seq<(usize, usize)> {
    seq![
        (0, 1),
        (1, 2),
        (2, 3),
        (3, 0),
        (4, 5),
        (5, 6),
        (6, 7),
        (7, 4),
        (0, 4),
        (1, 5),
        (2, 6),
        (3, 7),
    ]
}

pub open spec fn octahedron_vertices() -> Seq<Vertex3> {
    seq![
        Vertex3 { x: 1_400_000, y: 0, z: 0 },
        Vertex3 { x: -1_400_000i64, y: 0, z: 0 },
        Vertex3 { x: 0, y: 1_400_000, z: 0 },
        Vertex3 { x: 0, y: -1_400_000i64, z: 0 },
        Vertex3 { x: 0, y: 0, z: 1_400_000 },
        Vertex3 { x: 0, y: 0, z: -1_400_000i64 },
    ]
}

pub open spec fn octahedron_edges() -> Seq<(usize, usize)> {
    seq![
        (0, 2),
        (0, 3),
        (0, 4),
        (0, 5),
        (1, 2),
        (1, 3),
        (1, 4),
        (1, 5),
        (2, 4),
        (2, 5),
        (3, 4),
        (3, 5),
    ]
}

pub open spec fn dodecahedron_vertices() -> Seq<Vertex3> {
    seq![
        Vertex3 { x: 1_000_000, y: 1_000_000, z: 1_000_000 },
        Vertex3 { x: 1_000_000, y: 1_000_000, z: -1_000_000i64 },
        Vertex3 { x: 1_000_000, y: -1_000_000i64, z: 1_000_000 },
        Vertex3 { x: 1_000_000, y: -1_000_000i64, z: -1_000_000i64 },
        Vertex3 { x: -1_000_000i64, y: 1_000_000, z: 1_000_000 },
        Vertex3 { x: -1_000_000i64, y: 1_000_000, z: -1_000_000i64 },
        Vertex3 { x: -1_000_000i64, y: -1_000_000i64, z: 1_000_000 },
        Vertex3 { x: -1_000_000i64, y: -1_000_000i64, z: -1_000_000i64 },
        Vertex3 { x: 0, y: 1_618_034, z: 618_034 },
        Vertex3 { x: 0, y: 1_618_034, z: -618_034i64 },
        Vertex3 { x: 0, y: -1_618_034i64, z: 618_034 },
        Vertex3 { x: 0, y: -1_618_034i64, z: -618_034i64 },
        Vertex3 { x: 618_034, y: 0, z: 1_618_034 },
        Vertex3 { x: -618_034i64, y: 0, z: 1_618_034 },
        Vertex3 { x: 618_034, y: 0, z: -1_618_034i64 },
        Vertex3 { x: -618_034i64, y: 0, z: -1_618_034i64 },
        Vertex3 { x: 1_618_034, y: 618_034, z: 0 },
        Vertex3 { x: 1_618_034, y: -618_034i64, z: 0 },
        Vertex3 { x: -1_618_034i64, y: 618_034, z: 0 },
        Vertex3 { x: -1_618_034i64, y: -618_034i64, z: 0 },
    ]
}

pub open spec fn dodecahedron_edges() -> Seq<(usize, usize)> {
    seq![
        (0, 8),
        (0, 12),
        (0, 16),
        (1, 9),
        (1, 14),
        (1, 16),
        (2, 10),
        (2, 12),
        (2, 17),
        (3, 11),
        (3, 14),
        (3, 17),
        (4, 8),
        (4, 13),
        (4, 18),
        (5, 9),
        (5, 15),
        (5, 18),
        (6, 10),
        (6, 13),
        (6, 19),
        (7, 11),
        (7, 15),
        (7, 19),
        (8, 9),
        (10, 11),
        (12, 13),
        (14, 15),
        (16, 17),
        (18, 19),
    ]
}

pub open spec fn icosahedron_vertices() -> Seq<Vertex3> {
    seq![
        Vertex3 { x: 0, y: 618_034, z: 1_618_034 },
        Vertex3 { x: 0, y: 618_034, z: -1_618_034i64 },
        Vertex3 { x: 0, y: -618_034i64, z: 1_618_034 },
        Vertex3 { x: 0, y: -618_034i64, z: -1_618_034i64 },
        Vertex3 { x: 618_034, y: 1_618_034, z: 0 },
        Vertex3 { x: 618_034, y: -1_618_034i64, z: 0 },
        Vertex3 { x: -618_034i64, y: 1_618_034, z: 0 },
        Vertex3 { x: -618_034i64, y: -1_618_034i64, z: 0 },
        Vertex3 { x: 1_618_034, y: 0, z: 618_034 },
        Vertex3 { x: -1_618_034i64, y: 0, z: 618_034 },
        Vertex3 { x: 1_618_034, y: 0, z: -618_034i64 },
        Vertex3 { x: -1_618_034i64, y: 0, z: -618_034i64 },
    ]
}

pub open spec fn icosahedron_edges() -> Seq<(usize, usize)> {
    seq![
        (0, 2),
        (0, 4),
        (0, 6),
        (0, 8),
        (0, 9),
        (1, 3),
        (1, 4),
        (1, 6),
        (1, 10),
        (1, 11),
        (2, 5),
        (2, 7),
        (2, 8),
        (2, 9),
        (3, 5),
        (3, 7),
        (3, 10),
        (3, 11),
        (4, 6),
        (4, 8),
        (4, 10),
        (5, 7),
        (5, 8),
        (5, 10),
        (6, 9),
        (6, 11),
        (7, 9),
        (7, 11),
        (8, 10),
        (9, 11),
    ]
}

pub open spec fn tesseract_vertices() -> Seq<Vertex4> {
    seq![
        Vertex4 { x: -1_000_000i64, y: -1_000_000i64, z: -1_000_000i64, w: -1_000_000i64 },
        Vertex4 { x: 1_000_000, y: -1_000_000i64, z: -1_000_000i64, w: -1_000_000i64 },
        Vertex4 { x: -1_000_000i64, y: 1_000_000, z: -1_000_000i64, w: -1_000_000i64 },
        Vertex4 { x: 1_000_000, y: 1_000_000, z: -1_000_000i64, w: -1_000_000i64 },
        Vertex4 { x: -1_000_000i64, y: -1_000_000i64, z: 1_000_000, w: -1_000_000i64 },
        Vertex4 { x: 1_000_000, y: -1_000_000i64, z: 1_000_000, w: -1_000_000i64 },
        Vertex4 { x: -1_000_000i64, y: 1_000_000, z: 1_000_000, w: -1_000_000i64 },
        Vertex4 { x: 1_000_000, y: 1_000_000, z: 1_000_000, w: -1_000_000i64 },
        Vertex4 { x: -1_000_000i64, y: -1_000_000i64, z: -1_000_000i64, w: 1_000_000 },
        Vertex4 { x: 1_000_000, y: -1_000_000i64, z: -1_000_000i64, w: 1_000_000 },
        Vertex4 { x: -1_000_000i64, y: 1_000_000, z: -1_000_000i64, w: 1_000_000 },
        Vertex4 { x: 1_000_000, y: 1_000_000, z: -1_000_000i64, w: 1_000_000 },
        Vertex4 { x: -1_000_000i64, y: -1_000_000i64, z: 1_000_000, w: 1_000_000 },
        Vertex4 { x: 1_000_000, y: -1_000_000i64, z: 1_000_000, w: 1_000_000 },
        Vertex4 { x: -1_000_000i64, y: 1_000_000, z: 1_000_000, w: 1_000_000 },
        Vertex4 { x: 1_000_000, y: 1_000_000, z: 1_000_000, w: 1_000_000 },
    ]
}

pub open spec fn tesseract_edges() -> Seq<(usize, usize)> {
    seq![
        (0, 1),
        (0, 2),
        (0, 4),
        (1, 3),
        (1, 5),
        (2, 3),
        (2, 6),
        (3, 7),
        (4, 5),
        (4, 6),
        (5, 7),
        (6, 7),
        (8, 9),
        (8, 10),
        (8, 12),
        (9, 11),
        (9, 13),
        (10, 11),
        (10, 14),
        (11, 15),
        (12, 13),
        (12, 14),
        (13, 15),
        (14, 15),
        (0, 8),
        (1, 9),
        (2, 10),
        (3, 11),
        (4, 12),
        (5, 13),
        (6, 14),
        (7, 15),
    ]
}

pub open spec fn four_simplex_vertices() -> Seq<Vertex4> {
    seq![
        Vertex4 { x: 1_000_000, y: 1_000_000, z: 1_000_000, w: -447_214i64 },
        Vertex4 { x: 1_000_000, y: -1_000_000i64, z: -1_000_000i64, w: -447_214i64 },
        Vertex4 { x: -1_000_000i64, y: 1_000_000, z: -1_000_000i64, w: -447_214i64 },
        Vertex4 { x: -1_000_000i64, y: -1_000_000i64, z: 1_000_000, w: -447_214i64 },
        Vertex4 { x: 0, y: 0, z: 0, w: 1_788_856 },
    ]
}

pub open spec fn four_simplex_edges() -> Seq<(usize, usize)> {
    seq![
        (0, 1),
        (0, 2),
        (0, 3),
        (0, 4),
        (1, 2),
        (1, 3),
        (1, 4),
        (2, 3),
        (2, 4),
        (3, 4),
    ]
}

pub open spec fn four_orthoplex_vertices() -> Seq<Vertex4> {
    seq![
        Vertex4 { x: 1_000_000, y: 0, z: 0, w: 0 },
        Vertex4 { x: -1_000_000i64, y: 0, z: 0, w: 0 },
        Vertex4 { x: 0, y: 1_000_000, z: 0, w: 0 },
        Vertex4 { x: 0, y: -1_000_000i64, z: 0, w: 0 },
        Vertex4 { x: 0, y: 0, z: 1_000_000, w: 0 },
        Vertex4 { x: 0, y: 0, z: -1_000_000i64, w: 0 },
        Vertex4 { x: 0, y: 0, z: 0, w: 1_000_000 },
        Vertex4 { x: 0, y: 0, z: 0, w: -1_000_000i64 },
    ]
}

pub open spec fn four_orthoplex_edges() -> Seq<(usize, usize)> {
    seq![
        (0, 2),
        (0, 3),
        (0, 4),
        (0, 5),
        (0, 6),
        (0, 7),
        (1, 2),
        (1, 3),
        (1, 4),
        (1, 5),
        (1, 6),
        (1, 7),
        (2, 4),
        (2, 5),
        (2, 6),
        (2, 7),
        (3, 4),
        (3, 5),
        (3, 6),
        (3, 7),
        (4, 6),
        (4, 7),
        (5, 6),
        (5, 7),
    ]
}

impl PlatonicSolid {
    /// The next one in the cycle of selection.
    pub open spec fn next_spec(self) -> PlatonicSolid {
        match self {
            PlatonicSolid::Tetrahedron => PlatonicSolid::Cube,
            PlatonicSolid::Cube => PlatonicSolid::Octahedron,
            PlatonicSolid::Octahedron => PlatonicSolid::Dodecahedron,
            PlatonicSolid::Dodecahedron => PlatonicSolid::Icosahedron,
            PlatonicSolid::Icosahedron => PlatonicSolid::Tetrahedron,
        }
    }

    pub open spec fn vertex_table(self) -> Seq<Vertex3> {
        match self {
            PlatonicSolid::Tetrahedron => tetrahedron_vertices(),
            PlatonicSolid::Cube => cube_vertices(),
            PlatonicSolid::Octahedron => octahedron_vertices(),
            PlatonicSolid::Dodecahedron => dodecahedron_vertices(),
            PlatonicSolid::Icosahedron => icosahedron_vertices(),
        }
    }

    pub open spec fn edge_table(self) -> Seq<(usize, usize)> {
        match self {
            PlatonicSolid::Tetrahedron => tetrahedron_edges(),
            PlatonicSolid::Cube => cube_edges(),
            PlatonicSolid::Octahedron => octahedron_edges(),
            PlatonicSolid::Dodecahedron => dodecahedron_edges(),
            PlatonicSolid::Icosahedron => icosahedron_edges(),
        }
    }

    /// The next one in the cycle of selection.
    pub fn next(self) -> (r: PlatonicSolid)
        ensures
            r == self.next_spec(),
    {
        match self {
            PlatonicSolid::Tetrahedron => PlatonicSolid::Cube,
            PlatonicSolid::Cube => PlatonicSolid::Octahedron,
            PlatonicSolid::Octahedron => PlatonicSolid::Dodecahedron,
            PlatonicSolid::Dodecahedron => PlatonicSolid::Icosahedron,
            PlatonicSolid::Icosahedron => PlatonicSolid::Tetrahedron,
        }
    }

    /// The vertex table, in the order that the edges refer to.
    pub fn vertices(self) -> (r: Vec<Vertex3>)
        ensures
            r@ == self.vertex_table(),
    {
        match self {
            PlatonicSolid::Tetrahedron => vec![
                Vertex3 { x: 1_000_000, y: 1_000_000, z: 1_000_000 },
                Vertex3 { x: -1_000_000i64, y: -1_000_000i64, z: 1_000_000 },
                Vertex3 { x: -1_000_000i64, y: 1_000_000, z: -1_000_000i64 },
                Vertex3 { x: 1_000_000, y: -1_000_000i64, z: -1_000_000i64 },
            ],
            PlatonicSolid::Cube => vec![
                Vertex3 { x: -1_000_000i64, y: -1_000_000i64, z: -1_000_000i64 },
                Vertex3 { x: 1_000_000, y: -1_000_000i64, z: -1_000_000i64 },
                Vertex3 { x: 1_000_000, y: 1_000_000, z: -1_000_000i64 },
                Vertex3 { x: -1_000_000i64, y: 1_000_000, z: -1_000_000i64 },
                Vertex3 { x: -1_000_000i64, y: -1_000_000i64, z: 1_000_000 },
                Vertex3 { x: 1_000_000, y: -1_000_000i64, z: 1_000_000 },
                Vertex3 { x: 1_000_000, y: 1_000_000, z: 1_000_000 },
                Vertex3 { x: -1_000_000i64, y: 1_000_000, z: 1_000_000 },
            ],
            PlatonicSolid::Octahedron => vec![
                Vertex3 { x: 1_400_000, y: 0, z: 0 },
                Vertex3 { x: -1_400_000i64, y: 0, z: 0 },
                Vertex3 { x: 0, y: 1_400_000, z: 0 },
                Vertex3 { x: 0, y: -1_400_000i64, z: 0 },
                Vertex3 { x: 0, y: 0, z: 1_400_000 },
                Vertex3 { x: 0, y: 0, z: -1_400_000i64 },
            ],
            PlatonicSolid::Dodecahedron => vec![
                Vertex3 { x: 1_000_000, y: 1_000_000, z: 1_000_000 },
                Vertex3 { x: 1_000_000, y: 1_000_000, z: -1_000_000i64 },
                Vertex3 { x: 1_000_000, y: -1_000_000i64, z: 1_000_000 },
                Vertex3 { x: 1_000_000, y: -1_000_000i64, z: -1_000_000i64 },
                Vertex3 { x: -1_000_000i64, y: 1_000_000, z: 1_000_000 },
                Vertex3 { x: -1_000_000i64, y: 1_000_000, z: -1_000_000i64 },
                Vertex3 { x: -1_000_000i64, y: -1_000_000i64, z: 1_000_000 },
                Vertex3 { x: -1_000_000i64, y: -1_000_000i64, z: -1_000_000i64 },
                Vertex3 { x: 0, y: 1_618_034, z: 618_034 },
                Vertex3 { x: 0, y: 1_618_034, z: -618_034i64 },
                Vertex3 { x: 0, y: -1_618_034i64, z: 618_034 },
                Vertex3 { x: 0, y: -1_618_034i64, z: -618_034i64 },
                Vertex3 { x: 618_034, y: 0, z: 1_618_034 },
                Vertex3 { x: -618_034i64, y: 0, z: 1_618_034 },
                Vertex3 { x: 618_034, y: 0, z: -1_618_034i64 },
                Vertex3 { x: -618_034i64, y: 0, z: -1_618_034i64 },
                Vertex3 { x: 1_618_034, y: 618_034, z: 0 },
                Vertex3 { x: 1_618_034, y: -618_034i64, z: 0 },
                Vertex3 { x: -1_618_034i64, y: 618_034, z: 0 },
                Vertex3 { x: -1_618_034i64, y: -618_034i64, z: 0 },
            ],
            PlatonicSolid::Icosahedron => vec![
                Vertex3 { x: 0, y: 618_034, z: 1_618_034 },
                Vertex3 { x: 0, y: 618_034, z: -1_618_034i64 },
                Vertex3 { x: 0, y: -618_034i64, z: 1_618_034 },
                Vertex3 { x: 0, y: -618_034i64, z: -1_618_034i64 },
                Vertex3 { x: 618_034, y: 1_618_034, z: 0 },
                Vertex3 { x: 618_034, y: -1_618_034i64, z: 0 },
                Vertex3 { x: -618_034i64, y: 1_618_034, z: 0 },
                Vertex3 { x: -618_034i64, y: -1_618_034i64, z: 0 },
                Vertex3 { x: 1_618_034, y: 0, z: 618_034 },
                Vertex3 { x: -1_618_034i64, y: 0, z: 618_034 },
                Vertex3 { x: 1_618_034, y: 0, z: -618_034i64 },
                Vertex3 { x: -1_618_034i64, y: 0, z: -618_034i64 },
            ],
        }
    }

    /// The edge table: pairs of positions in the vertex table.
    pub fn edges(self) -> (r: Vec<(usize, usize)>)
        ensures
            r@ == self.edge_table(),
            edges_in_range(r@, self.vertex_table().len()),
    {
        proof {
            lemma_solid_edges_in_range(self);
        }
        match self {
            PlatonicSolid::Tetrahedron => vec![
                (0, 1),
                (0, 2),
                (0, 3),
                (1, 2),
                (1, 3),
                (2, 3),
            ],
            PlatonicSolid::Cube => vec![
                (0, 1),
                (1, 2),
                (2, 3),
                (3, 0),
                (4, 5),
                (5, 6),
                (6, 7),
                (7, 4),
                (0, 4),
                (1, 5),
                (2, 6),
                (3, 7),
            ],
            PlatonicSolid::Octahedron => vec![
                (0, 2),
                (0, 3),
                (0, 4),
                (0, 5),
                (1, 2),
                (1, 3),
                (1, 4),
                (1, 5),
                (2, 4),
                (2, 5),
                (3, 4),
                (3, 5),
            ],
            PlatonicSolid::Dodecahedron => vec![
                (0, 8),
                (0, 12),
                (0, 16),
                (1, 9),
                (1, 14),
                (1, 16),
                (2, 10),
                (2, 12),
                (2, 17),
                (3, 11),
                (3, 14),
                (3, 17),
                (4, 8),
                (4, 13),
                (4, 18),
                (5, 9),
                (5, 15),
                (5, 18),
                (6, 10),
                (6, 13),
                (6, 19),
                (7, 11),
                (7, 15),
                (7, 19),
                (8, 9),
                (10, 11),
                (12, 13),
                (14, 15),
                (16, 17),
                (18, 19),
            ],
            PlatonicSolid::Icosahedron => vec![
                (0, 2),
                (0, 4),
                (0, 6),
                (0, 8),
                (0, 9),
                (1, 3),
                (1, 4),
                (1, 6),
                (1, 10),
                (1, 11),
                (2, 5),
                (2, 7),
                (2, 8),
                (2, 9),
                (3, 5),
                (3, 7),
                (3, 10),
                (3, 11),
                (4, 6),
                (4, 8),
                (4, 10),
                (5, 7),
                (5, 8),
                (5, 10),
                (6, 9),
                (6, 11),
                (7, 9),
                (7, 11),
                (8, 10),
                (9, 11),
            ],
        }
    }
}

impl Hypersolid {
    /// The next one in the cycle of selection.
    pub open spec fn next_spec(self) -> Hypersolid {
        match self {
            Hypersolid::Tesseract => Hypersolid::FourSimplex,
            Hypersolid::FourSimplex => Hypersolid::FourOrthoplex,
            Hypersolid::FourOrthoplex => Hypersolid::Tesseract,
        }
    }

    pub open spec fn vertex_table(self) -> Seq<Vertex4> {
        match self {
            Hypersolid::Tesseract => tesseract_vertices(),
            Hypersolid::FourSimplex => four_simplex_vertices(),
            Hypersolid::FourOrthoplex => four_orthoplex_vertices(),
        }
    }

    pub open spec fn edge_table(self) -> Seq<(usize, usize)> {
        match self {
            Hypersolid::Tesseract => tesseract_edges(),
            Hypersolid::FourSimplex => four_simplex_edges(),
            Hypersolid::FourOrthoplex => four_orthoplex_edges(),
        }
    }

    /// The next one in the cycle of selection.
    pub fn next(self) -> (r: Hypersolid)
        ensures
            r == self.next_spec(),
    {
        match self {
            Hypersolid::Tesseract => Hypersolid::FourSimplex,
            Hypersolid::FourSimplex => Hypersolid::FourOrthoplex,
            Hypersolid::FourOrthoplex => Hypersolid::Tesseract,
        }
    }

    /// The vertex table, in the order that the edges refer to.
    pub fn vertices(self) -> (r: Vec<Vertex4>)
        ensures
            r@ == self.vertex_table(),
    {
        match self {
            Hypersolid::Tesseract => vec![
                Vertex4 { x: -1_000_000i64, y: -1_000_000i64, z: -1_000_000i64, w: -1_000_000i64 },
                Vertex4 { x: 1_000_000, y: -1_000_000i64, z: -1_000_000i64, w: -1_000_000i64 },
                Vertex4 { x: -1_000_000i64, y: 1_000_000, z: -1_000_000i64, w: -1_000_000i64 },
                Vertex4 { x: 1_000_000, y: 1_000_000, z: -1_000_000i64, w: -1_000_000i64 },
                Vertex4 { x: -1_000_000i64, y: -1_000_000i64, z: 1_000_000, w: -1_000_000i64 },
                Vertex4 { x: 1_000_000, y: -1_000_000i64, z: 1_000_000, w: -1_000_000i64 },
                Vertex4 { x: -1_000_000i64, y: 1_000_000, z: 1_000_000, w: -1_000_000i64 },
                Vertex4 { x: 1_000_000, y: 1_000_000, z: 1_000_000, w: -1_000_000i64 },
                Vertex4 { x: -1_000_000i64, y: -1_000_000i64, z: -1_000_000i64, w: 1_000_000 },
                Vertex4 { x: 1_000_000, y: -1_000_000i64, z: -1_000_000i64, w: 1_000_000 },
                Vertex4 { x: -1_000_000i64, y: 1_000_000, z: -1_000_000i64, w: 1_000_000 },
                Vertex4 { x: 1_000_000, y: 1_000_000, z: -1_000_000i64, w: 1_000_000 },
                Vertex4 { x: -1_000_000i64, y: -1_000_000i64, z: 1_000_000, w: 1_000_000 },
                Vertex4 { x: 1_000_000, y: -1_000_000i64, z: 1_000_000, w: 1_000_000 },
                Vertex4 { x: -1_000_000i64, y: 1_000_000, z: 1_000_000, w: 1_000_000 },
                Vertex4 { x: 1_000_000, y: 1_000_000, z: 1_000_000, w: 1_000_000 },
            ],
            Hypersolid::FourSimplex => vec![
                Vertex4 { x: 1_000_000, y: 1_000_000, z: 1_000_000, w: -447_214i64 },
                Vertex4 { x: 1_000_000, y: -1_000_000i64, z: -1_000_000i64, w: -447_214i64 },
                Vertex4 { x: -1_000_000i64, y: 1_000_000, z: -1_000_000i64, w: -447_214i64 },
                Vertex4 { x: -1_000_000i64, y: -1_000_000i64, z: 1_000_000, w: -447_214i64 },
                Vertex4 { x: 0, y: 0, z: 0, w: 1_788_856 },
            ],
            Hypersolid::FourOrthoplex => vec![
                Vertex4 { x: 1_000_000, y: 0, z: 0, w: 0 },
                Vertex4 { x: -1_000_000i64, y: 0, z: 0, w: 0 },
                Vertex4 { x: 0, y: 1_000_000, z: 0, w: 0 },
                Vertex4 { x: 0, y: -1_000_000i64, z: 0, w: 0 },
                Vertex4 { x: 0, y: 0, z: 1_000_000, w: 0 },
                Vertex4 { x: 0, y: 0, z: -1_000_000i64, w: 0 },
                Vertex4 { x: 0, y: 0, z: 0, w: 1_000_000 },
                Vertex4 { x: 0, y: 0, z: 0, w: -1_000_000i64 },
            ],
        }
    }

    /// The edge table: pairs of positions in the vertex table.
    pub fn edges(self) -> (r: Vec<(usize, usize)>)
        ensures
            r@ == self.edge_table(),
            edges_in_range(r@, self.vertex_table().len()),
    {
        proof {
            lemma_hypersolid_edges_in_range(self);
        }
        match self {
            Hypersolid::Tesseract => vec![
                (0, 1),
                (0, 2),
                (0, 4),
                (1, 3),
                (1, 5),
                (2, 3),
                (2, 6),
                (3, 7),
                (4, 5),
                (4, 6),
                (5, 7),
                (6, 7),
                (8, 9),
                (8, 10),
                (8, 12),
                (9, 11),
                (9, 13),
                (10, 11),
                (10, 14),
                (11, 15),
                (12, 13),
                (12, 14),
                (13, 15),
                (14, 15),
                (0, 8),
                (1, 9),
                (2, 10),
                (3, 11),
                (4, 12),
                (5, 13),
                (6, 14),
                (7, 15),
            ],
            Hypersolid::FourSimplex => vec![
                (0, 1),
                (0, 2),
                (0, 3),
                (0, 4),
                (1, 2),
                (1, 3),
                (1, 4),
                (2, 3),
                (2, 4),
                (3, 4),
            ],
            Hypersolid::FourOrthoplex => vec![
                (0, 2),
                (0, 3),
                (0, 4),
                (0, 5),
                (0, 6),
                (0, 7),
                (1, 2),
                (1, 3),
                (1, 4),
                (1, 5),
                (1, 6),
                (1, 7),
                (2, 4),
                (2, 5),
                (2, 6),
                (2, 7),
                (3, 4),
                (3, 5),
                (3, 6),
                (3, 7),
                (4, 6),
                (4, 7),
                (5, 6),
                (5, 7),
            ],
        }
    }
}

impl PlatonicSolid {
    pub open spec fn name_spec(self) -> Seq<char> {
        match self {
            PlatonicSolid::Tetrahedron => "Tetrahedron"@,
            PlatonicSolid::Cube => "Cube"@,
            PlatonicSolid::Octahedron => "Octahedron"@,
            PlatonicSolid::Dodecahedron => "Dodecahedron"@,
            PlatonicSolid::Icosahedron => "Icosahedron"@,
        }
    }

    /// The name shown on screen.
    pub fn name(self) -> (r: &'static str)
        ensures
            r@ == self.name_spec(),
    {
        match self {
            PlatonicSolid::Tetrahedron => "Tetrahedron",
            PlatonicSolid::Cube => "Cube",
            PlatonicSolid::Octahedron => "Octahedron",
            PlatonicSolid::Dodecahedron => "Dodecahedron",
            PlatonicSolid::Icosahedron => "Icosahedron",
        }
    }
}

impl Hypersolid {
    pub open spec fn name_spec(self) -> Seq<char> {
        match self {
            Hypersolid::Tesseract => "Tesseract"@,
            Hypersolid::FourSimplex => "4-Simplex"@,
            Hypersolid::FourOrthoplex => "4-Orthoplex"@,
        }
    }

    /// The name shown on screen.
    pub fn name(self) -> (r: &'static str)
        ensures
            r@ == self.name_spec(),
    {
        match self {
            Hypersolid::Tesseract => "Tesseract",
            Hypersolid::FourSimplex => "4-Simplex",
            Hypersolid::FourOrthoplex => "4-Orthoplex",
        }
    }
}

/// Every edge of every regular solid joins two vertices of its own table.
pub proof fn lemma_solid_edges_in_range(s: PlatonicSolid)
    ensures
        edges_in_range(s.edge_table(), s.vertex_table().len()),
{
    match s {
        PlatonicSolid::Tetrahedron => {
            assert(edges_in_range(tetrahedron_edges(), 4));
        },
        PlatonicSolid::Cube => {
            assert(edges_in_range(cube_edges(), 8));
        },
        PlatonicSolid::Octahedron => {
            assert(edges_in_range(octahedron_edges(), 6));
        },
        PlatonicSolid::Dodecahedron => {
            assert(edges_in_range(dodecahedron_edges(), 20));
        },
        PlatonicSolid::Icosahedron => {
            assert(edges_in_range(icosahedron_edges(), 12));
        },
    }
}

/// Every edge of every four-dimensional polytope joins two vertices of its
/// own table.
pub proof fn lemma_hypersolid_edges_in_range(h: Hypersolid)
    ensures
        edges_in_range(h.edge_table(), h.vertex_table().len()),
{
    match h {
        Hypersolid::Tesseract => {
            assert(edges_in_range(tesseract_edges(), 16));
        },
        Hypersolid::FourSimplex => {
            assert(edges_in_range(four_simplex_edges(), 5));
        },
        Hypersolid::FourOrthoplex => {
            assert(edges_in_range(four_orthoplex_edges(), 8));
        },
    }
}

/// Every vertex of a regular solid lies less than two units from the centre.
pub proof fn lemma_solid_vertices_near(s: PlatonicSolid)
    ensures
        forall|i: int|
            0 <= i < s.vertex_table().len() ==> norm3(#[trigger] s.vertex_table()[i]) < 4 * ONE
                * ONE,
{
    match s {
        PlatonicSolid::Tetrahedron => {
            let tbl = tetrahedron_vertices();
            assert(tbl[0] == Vertex3 { x: 1_000_000, y: 1_000_000, z: 1_000_000 });
            assert(norm3(Vertex3 { x: 1_000_000, y: 1_000_000, z: 1_000_000 }) < 4 * ONE * ONE) by (nonlinear_arith);
            assert(tbl[1] == Vertex3 { x: -1_000_000i64, y: -1_000_000i64, z: 1_000_000 });
            assert(norm3(Vertex3 { x: -1_000_000i64, y: -1_000_000i64, z: 1_000_000 }) < 4 * ONE * ONE) by (nonlinear_arith);
            assert(tbl[2] == Vertex3 { x: -1_000_000i64, y: 1_000_000, z: -1_000_000i64 });
            assert(norm3(Vertex3 { x: -1_000_000i64, y: 1_000_000, z: -1_000_000i64 }) < 4 * ONE * ONE) by (nonlinear_arith);
            assert(tbl[3] == Vertex3 { x: 1_000_000, y: -1_000_000i64, z: -1_000_000i64 });
            assert(norm3(Vertex3 { x: 1_000_000, y: -1_000_000i64, z: -1_000_000i64 }) < 4 * ONE * ONE) by (nonlinear_arith);
            assert forall|i: int| 0 <= i < 4 implies norm3(#[trigger] tbl[i]) < 4 * ONE * ONE by {
                assert(i == 0 || i == 1 || i == 2 || i == 3);
            }
        },
        PlatonicSolid::Cube => {
            let tbl = cube_vertices();
            assert(tbl[0] == Vertex3 { x: -1_000_000i64, y: -1_000_000i64, z: -1_000_000i64 });
            assert(norm3(Vertex3 { x: -1_000_000i64, y: -1_000_000i64, z: -1_000_000i64 }) < 4 * ONE * ONE) by (nonlinear_arith);
            assert(tbl[1] == Vertex3 { x: 1_000_000, y: -1_000_000i64, z: -1_000_000i64 });
            assert(norm3(Vertex3 { x: 1_000_000, y: -1_000_000i64, z: -1_000_000i64 }) < 4 * ONE * ONE) by (nonlinear_arith);
            assert(tbl[2] == Vertex3 { x: 1_000_000, y: 1_000_000, z: -1_000_000i64 });
            assert(norm3(Vertex3 { x: 1_000_000, y: 1_000_000, z: -1_000_000i64 }) < 4 * ONE * ONE) by (nonlinear_arith);
            assert(tbl[3] == Vertex3 { x: -1_000_000i64, y: 1_000_000, z: -1_000_000i64 });
            assert(norm3(Vertex3 { x: -1_000_000i64, y: 1_000_000, z: -1_000_000i64 }) < 4 * ONE * ONE) by (nonlinear_arith);
            assert(tbl[4] == Vertex3 { x: -1_000_000i64, y: -1_000_000i64, z: 1_000_000 });
            assert(norm3(Vertex3 { x: -1_000_000i64, y: -1_000_000i64, z: 1_000_000 }) < 4 * ONE * ONE) by (nonlinear_arith);
            assert(tbl[5] == Vertex3 { x: 1_000_000, y: -1_000_000i64, z: 1_000_000 });
            assert(norm3(Vertex3 { x: 1_000_000, y: -1_000_000i64, z: 1_000_000 }) < 4 * ONE * ONE) by (nonlinear_arith);
            assert(tbl[6] == Vertex3 { x: 1_000_000, y: 1_000_000, z: 1_000_000 });
            assert(norm3(Vertex3 { x: 1_000_000, y: 1_000_000, z: 1_000_000 }) < 4 * ONE * ONE) by (nonlinear_arith);
            assert(tbl[7] == Vertex3 { x: -1_000_000i64, y: 1_000_000, z: 1_000_000 });
            assert(norm3(Vertex3 { x: -1_000_000i64, y: 1_000_000, z: 1_000_000 }) < 4 * ONE * ONE) by (nonlinear_arith);
            assert forall|i: int| 0 <= i < 8 implies norm3(#[trigger] tbl[i]) < 4 * ONE * ONE by {
                assert(i == 0 || i == 1 || i == 2 || i == 3 || i == 4 || i == 5 || i == 6 || i == 7);
            }
        },
        PlatonicSolid::Octahedron => {
            let tbl = octahedron_vertices();
            assert(tbl[0] == Vertex3 { x: 1_400_000, y: 0, z: 0 });
            assert(norm3(Vertex3 { x: 1_400_000, y: 0, z: 0 }) < 4 * ONE * ONE) by (nonlinear_arith);
            assert(tbl[1] == Vertex3 { x: -1_400_000i64, y: 0, z: 0 });
            assert(norm3(Vertex3 { x: -1_400_000i64, y: 0, z: 0 }) < 4 * ONE * ONE) by (nonlinear_arith);
            assert(tbl[2] == Vertex3 { x: 0, y: 1_400_000, z: 0 });
            assert(norm3(Vertex3 { x: 0, y: 1_400_000, z: 0 }) < 4 * ONE * ONE) by (nonlinear_arith);
            assert(tbl[3] == Vertex3 { x: 0, y: -1_400_000i64, z: 0 });
            assert(norm3(Vertex3 { x: 0, y: -1_400_000i64, z: 0 }) < 4 * ONE * ONE) by (nonlinear_arith);
            assert(tbl[4] == Vertex3 { x: 0, y: 0, z: 1_400_000 });
            assert(norm3(Vertex3 { x: 0, y: 0, z: 1_400_000 }) < 4 * ONE * ONE) by (nonlinear_arith);
            assert(tbl[5] == Vertex3 { x: 0, y: 0, z: -1_400_000i64 });
            assert(norm3(Vertex3 { x: 0, y: 0, z: -1_400_000i64 }) < 4 * ONE * ONE) by (nonlinear_arith);
            assert forall|i: int| 0 <= i < 6 implies norm3(#[trigger] tbl[i]) < 4 * ONE * ONE by {
                assert(i == 0 || i == 1 || i == 2 || i == 3 || i == 4 || i == 5);
            }
        },
        PlatonicSolid::Dodecahedron => {
            let tbl = dodecahedron_vertices();
            assert(tbl[0] == Vertex3 { x: 1_000_000, y: 1_000_000, z: 1_000_000 });
            assert(norm3(Vertex3 { x: 1_000_000, y: 1_000_000, z: 1_000_000 }) < 4 * ONE * ONE) by (nonlinear_arith);
            assert(tbl[1] == Vertex3 { x: 1_000_000, y: 1_000_000, z: -1_000_000i64 });
            assert(norm3(Vertex3 { x: 1_000_000, y: 1_000_000, z: -1_000_000i64 }) < 4 * ONE * ONE) by (nonlinear_arith);
            assert(tbl[2] == Vertex3 { x: 1_000_000, y: -1_000_000i64, z: 1_000_000 });
            assert(norm3(Vertex3 { x: 1_000_000, y: -1_000_000i64, z: 1_000_000 }) < 4 * ONE * ONE) by (nonlinear_arith);
            assert(tbl[3] == Vertex3 { x: 1_000_000, y: -1_000_000i64, z: -1_000_000i64 });
            assert(norm3(Vertex3 { x: 1_000_000, y: -1_000_000i64, z: -1_000_000i64 }) < 4 * ONE * ONE) by (nonlinear_arith);
            assert(tbl[4] == Vertex3 { x: -1_000_000i64, y: 1_000_000, z: 1_000_000 });
            assert(norm3(Vertex3 { x: -1_000_000i64, y: 1_000_000, z: 1_000_000 }) < 4 * ONE * ONE) by (nonlinear_arith);
            assert(tbl[5] == Vertex3 { x: -1_000_000i64, y: 1_000_000, z: -1_000_000i64 });
            assert(norm3(Vertex3 { x: -1_000_000i64, y: 1_000_000, z: -1_000_000i64 }) < 4 * ONE * ONE) by (nonlinear_arith);
            assert(tbl[6] == Vertex3 { x: -1_000_000i64, y: -1_000_000i64, z: 1_000_000 });
            assert(norm3(Vertex3 { x: -1_000_000i64, y: -1_000_000i64, z: 1_000_000 }) < 4 * ONE * ONE) by (nonlinear_arith);
            assert(tbl[7] == Vertex3 { x: -1_000_000i64, y: -1_000_000i64, z: -1_000_000i64 });
            assert(norm3(Vertex3 { x: -1_000_000i64, y: -1_000_000i64, z: -1_000_000i64 }) < 4 * ONE * ONE) by (nonlinear_arith);
            assert(tbl[8] == Vertex3 { x: 0, y: 1_618_034, z: 618_034 });
            assert(norm3(Vertex3 { x: 0, y: 1_618_034, z: 618_034 }) < 4 * ONE * ONE) by (nonlinear_arith);
            assert(tbl[9] == Vertex3 { x: 0, y: 1_618_034, z: -618_034i64 });
            assert(norm3(Vertex3 { x: 0, y: 1_618_034, z: -618_034i64 }) < 4 * ONE * ONE) by (nonlinear_arith);
            assert(tbl[10] == Vertex3 { x: 0, y: -1_618_034i64, z: 618_034 });
            assert(norm3(Vertex3 { x: 0, y: -1_618_034i64, z: 618_034 }) < 4 * ONE * ONE) by (nonlinear_arith);
            assert(tbl[11] == Vertex3 { x: 0, y: -1_618_034i64, z: -618_034i64 });
            assert(norm3(Vertex3 { x: 0, y: -1_618_034i64, z: -618_034i64 }) < 4 * ONE * ONE) by (nonlinear_arith);
            assert(tbl[12] == Vertex3 { x: 618_034, y: 0, z: 1_618_034 });
            assert(norm3(Vertex3 { x: 618_034, y: 0, z: 1_618_034 }) < 4 * ONE * ONE) by (nonlinear_arith);
            assert(tbl[13] == Vertex3 { x: -618_034i64, y: 0, z: 1_618_034 });
            assert(norm3(Vertex3 { x: -618_034i64, y: 0, z: 1_618_034 }) < 4 * ONE * ONE) by (nonlinear_arith);
            assert(tbl[14] == Vertex3 { x: 618_034, y: 0, z: -1_618_034i64 });
            assert(norm3(Vertex3 { x: 618_034, y: 0, z: -1_618_034i64 }) < 4 * ONE * ONE) by (nonlinear_arith);
            assert(tbl[15] == Vertex3 { x: -618_034i64, y: 0, z: -1_618_034i64 });
            assert(norm3(Vertex3 { x: -618_034i64, y: 0, z: -1_618_034i64 }) < 4 * ONE * ONE) by (nonlinear_arith);
            assert(tbl[16] == Vertex3 { x: 1_618_034, y: 618_034, z: 0 });
            assert(norm3(Vertex3 { x: 1_618_034, y: 618_034, z: 0 }) < 4 * ONE * ONE) by (nonlinear_arith);
            assert(tbl[17] == Vertex3 { x: 1_618_034, y: -618_034i64, z: 0 });
            assert(norm3(Vertex3 { x: 1_618_034, y: -618_034i64, z: 0 }) < 4 * ONE * ONE) by (nonlinear_arith);
            assert(tbl[18] == Vertex3 { x: -1_618_034i64, y: 618_034, z: 0 });
            assert(norm3(Vertex3 { x: -1_618_034i64, y: 618_034, z: 0 }) < 4 * ONE * ONE) by (nonlinear_arith);
            assert(tbl[19] == Vertex3 { x: -1_618_034i64, y: -618_034i64, z: 0 });
            assert(norm3(Vertex3 { x: -1_618_034i64, y: -618_034i64, z: 0 }) < 4 * ONE * ONE) by (nonlinear_arith);
            assert forall|i: int| 0 <= i < 20 implies norm3(#[trigger] tbl[i]) < 4 * ONE * ONE by {
                assert(i == 0 || i == 1 || i == 2 || i == 3 || i == 4 || i == 5 || i == 6 || i == 7 || i == 8 || i == 9 || i == 10 || i == 11 || i == 12 || i == 13 || i == 14 || i == 15 || i == 16 || i == 17 || i == 18 || i == 19);
            }
        },
        PlatonicSolid::Icosahedron => {
            let tbl = icosahedron_vertices();
            assert(tbl[0] == Vertex3 { x: 0, y: 618_034, z: 1_618_034 });
            assert(norm3(Vertex3 { x: 0, y: 618_034, z: 1_618_034 }) < 4 * ONE * ONE) by (nonlinear_arith);
            assert(tbl[1] == Vertex3 { x: 0, y: 618_034, z: -1_618_034i64 });
            assert(norm3(Vertex3 { x: 0, y: 618_034, z: -1_618_034i64 }) < 4 * ONE * ONE) by (nonlinear_arith);
            assert(tbl[2] == Vertex3 { x: 0, y: -618_034i64, z: 1_618_034 });
            assert(norm3(Vertex3 { x: 0, y: -618_034i64, z: 1_618_034 }) < 4 * ONE * ONE) by (nonlinear_arith);
            assert(tbl[3] == Vertex3 { x: 0, y: -618_034i64, z: -1_618_034i64 });
            assert(norm3(Vertex3 { x: 0, y: -618_034i64, z: -1_618_034i64 }) < 4 * ONE * ONE) by (nonlinear_arith);
            assert(tbl[4] == Vertex3 { x: 618_034, y: 1_618_034, z: 0 });
            assert(norm3(Vertex3 { x: 618_034, y: 1_618_034, z: 0 }) < 4 * ONE * ONE) by (nonlinear_arith);
            assert(tbl[5] == Vertex3 { x: 618_034, y: -1_618_034i64, z: 0 });
            assert(norm3(Vertex3 { x: 618_034, y: -1_618_034i64, z: 0 }) < 4 * ONE * ONE) by (nonlinear_arith);
            assert(tbl[6] == Vertex3 { x: -618_034i64, y: 1_618_034, z: 0 });
            assert(norm3(Vertex3 { x: -618_034i64, y: 1_618_034, z: 0 }) < 4 * ONE * ONE) by (nonlinear_arith);
            assert(tbl[7] == Vertex3 { x: -618_034i64, y: -1_618_034i64, z: 0 });
            assert(norm3(Vertex3 { x: -618_034i64, y: -1_618_034i64, z: 0 }) < 4 * ONE * ONE) by (nonlinear_arith);
            assert(tbl[8] == Vertex3 { x: 1_618_034, y: 0, z: 618_034 });
            assert(norm3(Vertex3 { x: 1_618_034, y: 0, z: 618_034 }) < 4 * ONE * ONE) by (nonlinear_arith);
            assert(tbl[9] == Vertex3 { x: -1_618_034i64, y: 0, z: 618_034 });
            assert(norm3(Vertex3 { x: -1_618_034i64, y: 0, z: 618_034 }) < 4 * ONE * ONE) by (nonlinear_arith);
            assert(tbl[10] == Vertex3 { x: 1_618_034, y: 0, z: -618_034i64 });
            assert(norm3(Vertex3 { x: 1_618_034, y: 0, z: -618_034i64 }) < 4 * ONE * ONE) by (nonlinear_arith);
            assert(tbl[11] == Vertex3 { x: -1_618_034i64, y: 0, z: -618_034i64 });
            assert(norm3(Vertex3 { x: -1_618_034i64, y: 0, z: -618_034i64 }) < 4 * ONE * ONE) by (nonlinear_arith);
            assert forall|i: int| 0 <= i < 12 implies norm3(#[trigger] tbl[i]) < 4 * ONE * ONE by {
                assert(i == 0 || i == 1 || i == 2 || i == 3 || i == 4 || i == 5 || i == 6 || i == 7 || i == 8 || i == 9 || i == 10 || i == 11);
            }
        },
    }
}

/// Every vertex of a four-dimensional polytope lies at most two units from
/// the centre.
pub proof fn lemma_hypersolid_vertices_near(h: Hypersolid)
    ensures
        forall|i: int|
            0 <= i < h.vertex_table().len() ==> norm4(#[trigger] h.vertex_table()[i]) <= 4 * ONE
                * ONE,
{
    match h {
        Hypersolid::Tesseract => {
            let tbl = tesseract_vertices();
            assert(tbl[0] == Vertex4 { x: -1_000_000i64, y: -1_000_000i64, z: -1_000_000i64, w: -1_000_000i64 });
            assert(norm4(Vertex4 { x: -1_000_000i64, y: -1_000_000i64, z: -1_000_000i64, w: -1_000_000i64 }) <= 4 * ONE * ONE) by (nonlinear_arith);
            assert(tbl[1] == Vertex4 { x: 1_000_000, y: -1_000_000i64, z: -1_000_000i64, w: -1_000_000i64 });
            assert(norm4(Vertex4 { x: 1_000_000, y: -1_000_000i64, z: -1_000_000i64, w: -1_000_000i64 }) <= 4 * ONE * ONE) by (nonlinear_arith);
            assert(tbl[2] == Vertex4 { x: -1_000_000i64, y: 1_000_000, z: -1_000_000i64, w: -1_000_000i64 });
            assert(norm4(Vertex4 { x: -1_000_000i64, y: 1_000_000, z: -1_000_000i64, w: -1_000_000i64 }) <= 4 * ONE * ONE) by (nonlinear_arith);
            assert(tbl[3] == Vertex4 { x: 1_000_000, y: 1_000_000, z: -1_000_000i64, w: -1_000_000i64 });
            assert(norm4(Vertex4 { x: 1_000_000, y: 1_000_000, z: -1_000_000i64, w: -1_000_000i64 }) <= 4 * ONE * ONE) by (nonlinear_arith);
            assert(tbl[4] == Vertex4 { x: -1_000_000i64, y: -1_000_000i64, z: 1_000_000, w: -1_000_000i64 });
            assert(norm4(Vertex4 { x: -1_000_000i64, y: -1_000_000i64, z: 1_000_000, w: -1_000_000i64 }) <= 4 * ONE * ONE) by (nonlinear_arith);
            assert(tbl[5] == Vertex4 { x: 1_000_000, y: -1_000_000i64, z: 1_000_000, w: -1_000_000i64 });
            assert(norm4(Vertex4 { x: 1_000_000, y: -1_000_000i64, z: 1_000_000, w: -1_000_000i64 }) <= 4 * ONE * ONE) by (nonlinear_arith);
            assert(tbl[6] == Vertex4 { x: -1_000_000i64, y: 1_000_000, z: 1_000_000, w: -1_000_000i64 });
            assert(norm4(Vertex4 { x: -1_000_000i64, y: 1_000_000, z: 1_000_000, w: -1_000_000i64 }) <= 4 * ONE * ONE) by (nonlinear_arith);
            assert(tbl[7] == Vertex4 { x: 1_000_000, y: 1_000_000, z: 1_000_000, w: -1_000_000i64 });
            assert(norm4(Vertex4 { x: 1_000_000, y: 1_000_000, z: 1_000_000, w: -1_000_000i64 }) <= 4 * ONE * ONE) by (nonlinear_arith);
            assert(tbl[8] == Vertex4 { x: -1_000_000i64, y: -1_000_000i64, z: -1_000_000i64, w: 1_000_000 });
            assert(norm4(Vertex4 { x: -1_000_000i64, y: -1_000_000i64, z: -1_000_000i64, w: 1_000_000 }) <= 4 * ONE * ONE) by (nonlinear_arith);
            assert(tbl[9] == Vertex4 { x: 1_000_000, y: -1_000_000i64, z: -1_000_000i64, w: 1_000_000 });
            assert(norm4(Vertex4 { x: 1_000_000, y: -1_000_000i64, z: -1_000_000i64, w: 1_000_000 }) <= 4 * ONE * ONE) by (nonlinear_arith);
            assert(tbl[10] == Vertex4 { x: -1_000_000i64, y: 1_000_000, z: -1_000_000i64, w: 1_000_000 });
            assert(norm4(Vertex4 { x: -1_000_000i64, y: 1_000_000, z: -1_000_000i64, w: 1_000_000 }) <= 4 * ONE * ONE) by (nonlinear_arith);
            assert(tbl[11] == Vertex4 { x: 1_000_000, y: 1_000_000, z: -1_000_000i64, w: 1_000_000 });
            assert(norm4(Vertex4 { x: 1_000_000, y: 1_000_000, z: -1_000_000i64, w: 1_000_000 }) <= 4 * ONE * ONE) by (nonlinear_arith);
            assert(tbl[12] == Vertex4 { x: -1_000_000i64, y: -1_000_000i64, z: 1_000_000, w: 1_000_000 });
            assert(norm4(Vertex4 { x: -1_000_000i64, y: -1_000_000i64, z: 1_000_000, w: 1_000_000 }) <= 4 * ONE * ONE) by (nonlinear_arith);
            assert(tbl[13] == Vertex4 { x: 1_000_000, y: -1_000_000i64, z: 1_000_000, w: 1_000_000 });
            assert(norm4(Vertex4 { x: 1_000_000, y: -1_000_000i64, z: 1_000_000, w: 1_000_000 }) <= 4 * ONE * ONE) by (nonlinear_arith);
            assert(tbl[14] == Vertex4 { x: -1_000_000i64, y: 1_000_000, z: 1_000_000, w: 1_000_000 });
            assert(norm4(Vertex4 { x: -1_000_000i64, y: 1_000_000, z: 1_000_000, w: 1_000_000 }) <= 4 * ONE * ONE) by (nonlinear_arith);
            assert(tbl[15] == Vertex4 { x: 1_000_000, y: 1_000_000, z: 1_000_000, w: 1_000_000 });
            assert(norm4(Vertex4 { x: 1_000_000, y: 1_000_000, z: 1_000_000, w: 1_000_000 }) <= 4 * ONE * ONE) by (nonlinear_arith);
            assert forall|i: int| 0 <= i < 16 implies norm4(#[trigger] tbl[i]) <= 4 * ONE * ONE by {
                assert(i == 0 || i == 1 || i == 2 || i == 3 || i == 4 || i == 5 || i == 6 || i == 7 || i == 8 || i == 9 || i == 10 || i == 11 || i == 12 || i == 13 || i == 14 || i == 15);
            }
        },
        Hypersolid::FourSimplex => {
            let tbl = four_simplex_vertices();
            assert(tbl[0] == Vertex4 { x: 1_000_000, y: 1_000_000, z: 1_000_000, w: -447_214i64 });
            assert(norm4(Vertex4 { x: 1_000_000, y: 1_000_000, z: 1_000_000, w: -447_214i64 }) <= 4 * ONE * ONE) by (nonlinear_arith);
            assert(tbl[1] == Vertex4 { x: 1_000_000, y: -1_000_000i64, z: -1_000_000i64, w: -447_214i64 });
            assert(norm4(Vertex4 { x: 1_000_000, y: -1_000_000i64, z: -1_000_000i64, w: -447_214i64 }) <= 4 * ONE * ONE) by (nonlinear_arith);
            assert(tbl[2] == Vertex4 { x: -1_000_000i64, y: 1_000_000, z: -1_000_000i64, w: -447_214i64 });
            assert(norm4(Vertex4 { x: -1_000_000i64, y: 1_000_000, z: -1_000_000i64, w: -447_214i64 }) <= 4 * ONE * ONE) by (nonlinear_arith);
            assert(tbl[3] == Vertex4 { x: -1_000_000i64, y: -1_000_000i64, z: 1_000_000, w: -447_214i64 });
            assert(norm4(Vertex4 { x: -1_000_000i64, y: -1_000_000i64, z: 1_000_000, w: -447_214i64 }) <= 4 * ONE * ONE) by (nonlinear_arith);
            assert(tbl[4] == Vertex4 { x: 0, y: 0, z: 0, w: 1_788_856 });
            assert(norm4(Vertex4 { x: 0, y: 0, z: 0, w: 1_788_856 }) <= 4 * ONE * ONE) by (nonlinear_arith);
            assert forall|i: int| 0 <= i < 5 implies norm4(#[trigger] tbl[i]) <= 4 * ONE * ONE by {
                assert(i == 0 || i == 1 || i == 2 || i == 3 || i == 4);
            }
        },
        Hypersolid::FourOrthoplex => {
            let tbl = four_orthoplex_vertices();
            assert(tbl[0] == Vertex4 { x: 1_000_000, y: 0, z: 0, w: 0 });
            assert(norm4(Vertex4 { x: 1_000_000, y: 0, z: 0, w: 0 }) <= 4 * ONE * ONE) by (nonlinear_arith);
            assert(tbl[1] == Vertex4 { x: -1_000_000i64, y: 0, z: 0, w: 0 });
            assert(norm4(Vertex4 { x: -1_000_000i64, y: 0, z: 0, w: 0 }) <= 4 * ONE * ONE) by (nonlinear_arith);
            assert(tbl[2] == Vertex4 { x: 0, y: 1_000_000, z: 0, w: 0 });
            assert(norm4(Vertex4 { x: 0, y: 1_000_000, z: 0, w: 0 }) <= 4 * ONE * ONE) by (nonlinear_arith);
            assert(tbl[3] == Vertex4 { x: 0, y: -1_000_000i64, z: 0, w: 0 });
            assert(norm4(Vertex4 { x: 0, y: -1_000_000i64, z: 0, w: 0 }) <= 4 * ONE * ONE) by (nonlinear_arith);
            assert(tbl[4] == Vertex4 { x: 0, y: 0, z: 1_000_000, w: 0 });
            assert(norm4(Vertex4 { x: 0, y: 0, z: 1_000_000, w: 0 }) <= 4 * ONE * ONE) by (nonlinear_arith);
            assert(tbl[5] == Vertex4 { x: 0, y: 0, z: -1_000_000i64, w: 0 });
            assert(norm4(Vertex4 { x: 0, y: 0, z: -1_000_000i64, w: 0 }) <= 4 * ONE * ONE) by (nonlinear_arith);
            assert(tbl[6] == Vertex4 { x: 0, y: 0, z: 0, w: 1_000_000 });
            assert(norm4(Vertex4 { x: 0, y: 0, z: 0, w: 1_000_000 }) <= 4 * ONE * ONE) by (nonlinear_arith);
            assert(tbl[7] == Vertex4 { x: 0, y: 0, z: 0, w: -1_000_000i64 });
            assert(norm4(Vertex4 { x: 0, y: 0, z: 0, w: -1_000_000i64 }) <= 4 * ONE * ONE) by (nonlinear_arith);
            assert forall|i: int| 0 <= i < 8 implies norm4(#[trigger] tbl[i]) <= 4 * ONE * ONE by {
                assert(i == 0 || i == 1 || i == 2 || i == 3 || i == 4 || i == 5 || i == 6 || i == 7);
            }
        },
    }
}

/// Squared distance between two points of four dimensions.
pub open spec fn dist4(a: Vertex4, b: Vertex4) -> int {
    (a.x - b.x) * (a.x - b.x) + (a.y - b.y) * (a.y - b.y) + (a.z - b.z) * (a.z - b.z) + (a.w
        - b.w) * (a.w - b.w)
}

/// The 4-simplex is regular: every two of its five vertices lie the same
/// distance apart, the square of that distance being 8 units to within
/// rounding (ten parts in a million).
pub proof fn lemma_four_simplex_regular()
    ensures
        forall|i: int, j: int|
            0 <= i < 5 && 0 <= j < 5 && i != j ==> 8 * ONE * ONE <= #[trigger] dist4(
                four_simplex_vertices()[i],
                four_simplex_vertices()[j],
            ) <= 8 * ONE * ONE + 10_000_000,
{
    let tbl = four_simplex_vertices();
    assert(tbl[0] == Vertex4 { x: 1_000_000, y: 1_000_000, z: 1_000_000, w: -447_214i64 });
    assert(tbl[1] == Vertex4 { x: 1_000_000, y: -1_000_000i64, z: -1_000_000i64, w: -447_214i64 });
    assert(tbl[2] == Vertex4 { x: -1_000_000i64, y: 1_000_000, z: -1_000_000i64, w: -447_214i64 });
    assert(tbl[3] == Vertex4 { x: -1_000_000i64, y: -1_000_000i64, z: 1_000_000, w: -447_214i64 });
    assert(tbl[4] == Vertex4 { x: 0, y: 0, z: 0, w: 1_788_856 });
    assert(dist4(Vertex4 { x: 1_000_000, y: 1_000_000, z: 1_000_000, w: -447_214i64 }, Vertex4 { x: 1_000_000, y: -1_000_000i64, z: -1_000_000i64, w: -447_214i64 }) == 8_000_000_000_000) by (nonlinear_arith);
    assert(dist4(Vertex4 { x: 1_000_000, y: 1_000_000, z: 1_000_000, w: -447_214i64 }, Vertex4 { x: -1_000_000i64, y: 1_000_000, z: -1_000_000i64, w: -447_214i64 }) == 8_000_000_000_000) by (nonlinear_arith);
    assert(dist4(Vertex4 { x: 1_000_000, y: 1_000_000, z: 1_000_000, w: -447_214i64 }, Vertex4 { x: -1_000_000i64, y: -1_000_000i64, z: 1_000_000, w: -447_214i64 }) == 8_000_000_000_000) by (nonlinear_arith);
    assert(dist4(Vertex4 { x: 1_000_000, y: 1_000_000, z: 1_000_000, w: -447_214i64 }, Vertex4 { x: 0, y: 0, z: 0, w: 1_788_856 }) == 8_000_009_044_900) by (nonlinear_arith);
    assert(dist4(Vertex4 { x: 1_000_000, y: -1_000_000i64, z: -1_000_000i64, w: -447_214i64 }, Vertex4 { x: -1_000_000i64, y: 1_000_000, z: -1_000_000i64, w: -447_214i64 }) == 8_000_000_000_000) by (nonlinear_arith);
    assert(dist4(Vertex4 { x: 1_000_000, y: -1_000_000i64, z: -1_000_000i64, w: -447_214i64 }, Vertex4 { x: -1_000_000i64, y: -1_000_000i64, z: 1_000_000, w: -447_214i64 }) == 8_000_000_000_000) by (nonlinear_arith);
    assert(dist4(Vertex4 { x: 1_000_000, y: -1_000_000i64, z: -1_000_000i64, w: -447_214i64 }, Vertex4 { x: 0, y: 0, z: 0, w: 1_788_856 }) == 8_000_009_044_900) by (nonlinear_arith);
    assert(dist4(Vertex4 { x: -1_000_000i64, y: 1_000_000, z: -1_000_000i64, w: -447_214i64 }, Vertex4 { x: -1_000_000i64, y: -1_000_000i64, z: 1_000_000, w: -447_214i64 }) == 8_000_000_000_000) by (nonlinear_arith);
    assert(dist4(Vertex4 { x: -1_000_000i64, y: 1_000_000, z: -1_000_000i64, w: -447_214i64 }, Vertex4 { x: 0, y: 0, z: 0, w: 1_788_856 }) == 8_000_009_044_900) by (nonlinear_arith);
    assert(dist4(Vertex4 { x: -1_000_000i64, y: -1_000_000i64, z: 1_000_000, w: -447_214i64 }, Vertex4 { x: 0, y: 0, z: 0, w: 1_788_856 }) == 8_000_009_044_900) by (nonlinear_arith);
    assert forall|i: int, j: int| 0 <= i < 5 && 0 <= j < 5 && i != j implies 8 * ONE * ONE
        <= #[trigger] dist4(tbl[i], tbl[j]) <= 8 * ONE * ONE + 10_000_000 by {
        assert(tbl[0] == Vertex4 { x: 1_000_000, y: 1_000_000, z: 1_000_000, w: -447_214i64 });
        assert(tbl[1] == Vertex4 { x: 1_000_000, y: -1_000_000i64, z: -1_000_000i64, w: -447_214i64 });
        assert(tbl[2] == Vertex4 { x: -1_000_000i64, y: 1_000_000, z: -1_000_000i64, w: -447_214i64 });
        assert(tbl[3] == Vertex4 { x: -1_000_000i64, y: -1_000_000i64, z: 1_000_000, w: -447_214i64 });
        assert(tbl[4] == Vertex4 { x: 0, y: 0, z: 0, w: 1_788_856 });
        assert(dist4(tbl[i], tbl[j]) == dist4(tbl[j], tbl[i])) by (nonlinear_arith);
        assert(i == 0 || i == 1 || i == 2 || i == 3 || i == 4);
        assert(j == 0 || j == 1 || j == 2 || j == 3 || j == 4);
    }
}

/// Five steps through the regular solids come back to the one started from.
pub proof fn lemma_solid_cycle(s: PlatonicSolid)
    ensures
        s.next_spec().next_spec().next_spec().next_spec().next_spec() == s,
{
}

/// Three steps through the four-dimensional polytopes come back to the one
/// started from.
pub proof fn lemma_hypersolid_cycle(h: Hypersolid)
    ensures
        h.next_spec().next_spec().next_spec() == h,
{
}

} // verus!
