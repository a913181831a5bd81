use vstd::prelude::*;

use crate::shape::shape_loader::{
    border_type_from_shared, count_shared_vertices, shared_vertex_count, BorderType,
};
use crate::shape::{cube, dodecahedron, icosahedron, octahedron, tetrahedron};

verus! {

/// The solid a puzzle is played on, with the colouring of its faces.
#[derive(Debug, Clone, Copy)]
pub enum Shape {
    Tetrahedron(tetrahedron::Coloring),
    Cube(cube::Coloring),
    Octahedron(octahedron::Coloring),
    Dodecahedron(dodecahedron::Coloring),
    Icosahedron(icosahedron::Coloring),
}

/// A puzzle level: a solid and the number of rooms along each edge of a face.
#[derive(Debug, Clone, Copy)]
pub struct GameLevel {
    pub shape: Shape,
    pub nodes_per_edge: u8,
}

/// The number of faces of the solid.
pub open spec fn face_count(shape: Shape) -> nat {
    match shape {
        Shape::Tetrahedron(_) => 4,
        Shape::Cube(_) => 6,
        Shape::Octahedron(_) => 8,
        Shape::Dodecahedron(_) => 12,
        Shape::Icosahedron(_) => 20,
    }
}

/// The vertex indices of face `face` of the solid.
pub open spec fn face_vertex_indices(shape: Shape, face: int) -> Seq<usize> {
    match shape {
        Shape::Tetrahedron(_) => tetrahedron::FACE_INDICES@[face]@,
        Shape::Cube(_) => cube::FACE_INDICES@[face]@,
        Shape::Octahedron(_) => octahedron::FACE_INDICES@[face]@,
        Shape::Dodecahedron(_) => dodecahedron::FACE_INDICES@[face]@,
        Shape::Icosahedron(_) => icosahedron::FACE_INDICES@[face]@,
    }
}

/// How face `from` and face `to` of the solid meet.
pub open spec fn spec_border_type(shape: Shape, from: int, to: int) -> Option<BorderType> {
    border_type_from_shared(
        shared_vertex_count(face_vertex_indices(shape, from), face_vertex_indices(shape, to)),
    )
}

impl GameLevel {
    /// The number of faces of the level's solid.
    pub fn number_of_faces(&self) -> (r: usize)
        ensures
            r == face_count(self.shape),
    {
        match self.shape {
            Shape::Tetrahedron(_) => 4,
            Shape::Cube(_) => 6,
            Shape::Octahedron(_) => 8,
            Shape::Dodecahedron(_) => 12,
            Shape::Icosahedron(_) => 20,
        }
    }

    pub fn new(shape: Shape, nodes_per_edge: u8) -> (r: GameLevel)
        ensures
            r.shape == shape,
            r.nodes_per_edge == nodes_per_edge,
    {
        GameLevel { shape, nodes_per_edge }
    }

    pub fn tetrahedron(nodes_per_edge: u8, coloring: tetrahedron::Coloring) -> (r: GameLevel)
        ensures
            r == (GameLevel { shape: Shape::Tetrahedron(coloring), nodes_per_edge }),
    {
        GameLevel::new(Shape::Tetrahedron(coloring), nodes_per_edge)
    }

    pub fn cube(nodes_per_edge: u8, coloring: cube::Coloring) -> (r: GameLevel)
        ensures
            r == (GameLevel { shape: Shape::Cube(coloring), nodes_per_edge }),
    {
        GameLevel::new(Shape::Cube(coloring), nodes_per_edge)
    }

    pub fn octahedron(nodes_per_edge: u8, coloring: octahedron::Coloring) -> (r: GameLevel)
        ensures
            r == (GameLevel { shape: Shape::Octahedron(coloring), nodes_per_edge }),
    {
        GameLevel::new(Shape::Octahedron(coloring), nodes_per_edge)
    }

    /// Dodecahedron levels always have a single room per edge.
    pub fn dodecahedron(coloring: dodecahedron::Coloring) -> (r: GameLevel)
        ensures
            r == (GameLevel { shape: Shape::Dodecahedron(coloring), nodes_per_edge: 1 }),
    {
        GameLevel::new(Shape::Dodecahedron(coloring), 1)
    }

    pub fn icosahedron(nodes_per_edge: u8, coloring: icosahedron::Coloring) -> (r: GameLevel)
        ensures
            r == (GameLevel { shape: Shape::Icosahedron(coloring), nodes_per_edge }),
    {
        GameLevel::new(Shape::Icosahedron(coloring), nodes_per_edge)
    }

    /// The border between two faces of this level's solid, given by face id.
    pub fn border_type(&self, from: usize, to: usize) -> (r: Option<BorderType>)
        requires
            from < face_count(self.shape),
            to < face_count(self.shape),
        ensures
            r == spec_border_type(self.shape, from as int, to as int),
    {
        let shared = match self.shape {
            Shape::Tetrahedron(_) => count_shared_vertices(
                &tetrahedron::FACE_INDICES[from],
                &tetrahedron::FACE_INDICES[to],
            ),
            Shape::Cube(_) => count_shared_vertices(
                &cube::FACE_INDICES[from],
                &cube::FACE_INDICES[to],
            ),
            Shape::Octahedron(_) => count_shared_vertices(
                &octahedron::FACE_INDICES[from],
                &octahedron::FACE_INDICES[to],
            ),
            Shape::Dodecahedron(_) => count_shared_vertices(
                &dodecahedron::FACE_INDICES[from],
                &dodecahedron::FACE_INDICES[to],
            ),
            Shape::Icosahedron(_) => count_shared_vertices(
                &icosahedron::FACE_INDICES[from],
                &icosahedron::FACE_INDICES[to],
            ),
        };
        if shared <= 1 {
            None
        } else if shared == 2 {
            Some(BorderType::Connected)
        } else {
            Some(BorderType::SameFace)
        }
    }
}

/// The number of built-in levels.
pub const LEVEL_COUNT: usize = 18;

/// The built-in levels, in the order they are played.
pub open spec fn level_table() -> Seq<GameLevel> {
    seq![
        GameLevel { shape: Shape::Tetrahedron(tetrahedron::Coloring::Full([0, 1, 2, 3])), nodes_per_edge: 1 },
        GameLevel { shape: Shape::Cube(cube::Coloring::Full([1, 2, 3])), nodes_per_edge: 2 },
        GameLevel { shape: Shape::Octahedron(octahedron::Coloring::Full([0, 1, 2, 4])), nodes_per_edge: 3 },
        GameLevel { shape: Shape::Dodecahedron(dodecahedron::Coloring::Full([1, 2, 3, 4])), nodes_per_edge: 1 },
        GameLevel { shape: Shape::Icosahedron(icosahedron::Coloring::Full([0, 1, 2, 3, 4])), nodes_per_edge: 2 },
        GameLevel { shape: Shape::Octahedron(octahedron::Coloring::Stripes([0, 1, 2, 4])), nodes_per_edge: 4 },
        GameLevel { shape: Shape::Tetrahedron(tetrahedron::Coloring::Full([0, 2, 3, 4])), nodes_per_edge: 6 },
        GameLevel { shape: Shape::Cube(cube::Coloring::Full([1, 2, 3])), nodes_per_edge: 4 },
        GameLevel { shape: Shape::Tetrahedron(tetrahedron::Coloring::Full([0, 1, 3, 4])), nodes_per_edge: 7 },
        GameLevel { shape: Shape::Octahedron(octahedron::Coloring::CrissCross([2, 4])), nodes_per_edge: 5 },
        GameLevel { shape: Shape::Icosahedron(icosahedron::Coloring::Tri([0, 1, 2])), nodes_per_edge: 3 },
        GameLevel { shape: Shape::Tetrahedron(tetrahedron::Coloring::Dual([1, 2])), nodes_per_edge: 8 },
        GameLevel { shape: Shape::Cube(cube::Coloring::Dual([0, 3])), nodes_per_edge: 5 },
        GameLevel { shape: Shape::Octahedron(octahedron::Coloring::Dual([0, 4])), nodes_per_edge: 6 },
        GameLevel { shape: Shape::Tetrahedron(tetrahedron::Coloring::Mono(1)), nodes_per_edge: 9 },
        GameLevel { shape: Shape::Icosahedron(icosahedron::Coloring::Dual([0, 3])), nodes_per_edge: 4 },
        GameLevel { shape: Shape::Cube(cube::Coloring::Mono(2)), nodes_per_edge: 6 },
        GameLevel { shape: Shape::Icosahedron(icosahedron::Coloring::Mono(4)), nodes_per_edge: 5 },
    ]
}

/// The built-in levels, in the order they are played.
pub fn levels() -> (r: Vec<GameLevel>)
    ensures
        r@ == level_table(),
        r@.len() == LEVEL_COUNT,
{
    let r = vec![
        GameLevel::tetrahedron(1, tetrahedron::Coloring::Full([0, 1, 2, 3])),
        GameLevel::cube(2, cube::Coloring::Full([1, 2, 3])),
        GameLevel::octahedron(3, octahedron::Coloring::Full([0, 1, 2, 4])),
        GameLevel::dodecahedron(dodecahedron::Coloring::Full([1, 2, 3, 4])),
        GameLevel::icosahedron(2, icosahedron::Coloring::Full([0, 1, 2, 3, 4])),
        GameLevel::octahedron(4, octahedron::Coloring::Stripes([0, 1, 2, 4])),
        GameLevel::tetrahedron(6, tetrahedron::Coloring::Full([0, 2, 3, 4])),
        GameLevel::cube(4, cube::Coloring::Full([1, 2, 3])),
        GameLevel::tetrahedron(7, tetrahedron::Coloring::Full([0, 1, 3, 4])),
        GameLevel::octahedron(5, octahedron::Coloring::CrissCross([2, 4])),
        GameLevel::icosahedron(3, icosahedron::Coloring::Tri([0, 1, 2])),
        GameLevel::tetrahedron(8, tetrahedron::Coloring::Dual([1, 2])),
        GameLevel::cube(5, cube::Coloring::Dual([0, 3])),
        GameLevel::octahedron(6, octahedron::Coloring::Dual([0, 4])),
        GameLevel::tetrahedron(9, tetrahedron::Coloring::Mono(1)),
        GameLevel::icosahedron(4, icosahedron::Coloring::Dual([0, 3])),
        GameLevel::cube(6, cube::Coloring::Mono(2)),
        GameLevel::icosahedron(5, icosahedron::Coloring::Mono(4)),
    ];
    assert(r@ =~= level_table());
    r
}

} // verus!

verus! {

proof fn lemma_first_three_distinct_set(a: Seq<usize>)
    requires
        a.len() >= 3,
        a[0] != a[1],
        a[0] != a[2],
        a[1] != a[2],
    ensures
        shared_vertex_count(a, a) >= 3,
{
    let s = a.to_set();
    assert(s.intersect(s) =~= s);
    vstd::seq_lib::seq_to_set_is_finite(a);
    let t = Set::<usize>::empty().insert(a[0]).insert(a[1]).insert(a[2]);
    assert(s.contains(a[0]) && s.contains(a[1]) && s.contains(a[2])) by {
        assert(a[0] == a[0]);
    }
    assert(t.subset_of(s));
    vstd::set_lib::lemma_len_subset(t, s);
    assert(t.len() == 3);
}

/// Any face meets itself as the same face.
pub proof fn lemma_border_type_same_face(shape: Shape, face: int)
    requires
        0 <= face < face_count(shape),
    ensures
        spec_border_type(shape, face, face) == Some(BorderType::SameFace),
{
    let a = face_vertex_indices(shape, face);
    match shape {
        Shape::Tetrahedron(_) => {
            assert(face == 0 || face == 1 || face == 2 || face == 3);
        },
        Shape::Cube(_) => {},
        Shape::Octahedron(_) => {},
        Shape::Dodecahedron(_) => {},
        Shape::Icosahedron(_) => {},
    }
    lemma_first_three_distinct_set(a);
}

/// Whether and how two faces meet does not depend on which face is named first.
pub proof fn lemma_border_type_symmetric(shape: Shape, from: int, to: int)
    ensures
        spec_border_type(shape, from, to) == spec_border_type(shape, to, from),
{
    let a = face_vertex_indices(shape, from).to_set();
    let b = face_vertex_indices(shape, to).to_set();
    assert(a.intersect(b) =~= b.intersect(a));
}

} // verus!

verus! {

/// Every built-in level has from one to nine rooms per edge, the digits that
/// the selector can show.
pub proof fn lemma_levels_have_one_to_nine_rooms_per_edge()
    ensures
        forall|i: int| 0 <= i < LEVEL_COUNT ==> 1 <= #[trigger] level_table()[i].nodes_per_edge <= 9,
{
}

} // verus!
