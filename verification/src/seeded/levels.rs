use vstd::prelude::*;

use crate::decimal::{append_decimal, decimal_chars};
use crate::shape::shape_loader::{
    border_type_from_shared, count_shared_vertices, shared_vertex_count, BorderType,
};
use crate::shape::{cube, dodecahedron, icosahedron, octahedron, tetrahedron};

verus! {

/// The solid of a seeded level.
#[derive(Debug, Clone, Copy, PartialEq, Eq, Structural)]
pub enum Shape {
    Cube,
    Tetrahedron,
    Icosahedron,
    Octahedron,
    Dodecahedron,
}

/// A level whose maze was generated from a seed and is stored in a file
/// named after the solid, the seed and the number of rooms per edge.
#[derive(Debug, Clone, Copy, PartialEq, Eq, Structural)]
pub struct GameLevel {
    pub seed: u64,
    pub shape: Shape,
    pub nodes_per_edge: u8,
}

/// The number of faces of the solid.
pub open spec fn face_count(shape: Shape) -> nat {
    match shape {
        Shape::Tetrahedron => 4,
        Shape::Cube => 6,
        Shape::Octahedron => 8,
        Shape::Dodecahedron => 12,
        Shape::Icosahedron => 20,
    }
}

/// The vertex indices of face `face` of the solid.
pub open spec fn face_vertex_indices(shape: Shape, face: int) -> Seq<usize> {
    match shape {
        Shape::Tetrahedron => tetrahedron::FACE_INDICES@[face]@,
        Shape::Cube => cube::FACE_INDICES@[face]@,
        Shape::Octahedron => octahedron::FACE_INDICES@[face]@,
        Shape::Dodecahedron => dodecahedron::FACE_INDICES@[face]@,
        Shape::Icosahedron => icosahedron::FACE_INDICES@[face]@,
    }
}

/// The name of the solid in level file names.
pub open spec fn shape_name(shape: Shape) -> Seq<char> {
    match shape {
        Shape::Cube => "cube"@,
        Shape::Tetrahedron => "tetrahedron"@,
        Shape::Octahedron => "octahedron"@,
        Shape::Dodecahedron => "dodecahedron"@,
        Shape::Icosahedron => "icosahedron"@,
    }
}

/// The file of a level: `levels/{shape}_s{seed}_n{nodes_per_edge}.json`.
pub open spec fn spec_filename(level: GameLevel) -> Seq<char> {
    "levels/"@ + shape_name(level.shape) + "_s"@ + decimal_chars(level.seed as nat) + "_n"@
        + decimal_chars(level.nodes_per_edge as nat) + ".json"@
}

impl GameLevel {
    pub fn new(seed: u64, shape: Shape, nodes_per_edge: u8) -> (r: GameLevel)
        ensures
            r == (GameLevel { seed, shape, nodes_per_edge }),
    {
        GameLevel { seed, shape, nodes_per_edge }
    }

    pub fn tetrahedron(nodes_per_edge: u8, seed: u64) -> (r: GameLevel)
        ensures
            r == (GameLevel { seed, shape: Shape::Tetrahedron, nodes_per_edge }),
    {
        GameLevel::new(seed, Shape::Tetrahedron, nodes_per_edge)
    }

    pub fn cube(nodes_per_edge: u8, seed: u64) -> (r: GameLevel)
        ensures
            r == (GameLevel { seed, shape: Shape::Cube, nodes_per_edge }),
    {
        GameLevel::new(seed, Shape::Cube, nodes_per_edge)
    }

    pub fn octahedron(nodes_per_edge: u8, seed: u64) -> (r: GameLevel)
        ensures
            r == (GameLevel { seed, shape: Shape::Octahedron, nodes_per_edge }),
    {
        GameLevel::new(seed, Shape::Octahedron, nodes_per_edge)
    }

    /// Dodecahedron levels always have a single room per edge.
    pub fn dodecahedron(seed: u64) -> (r: GameLevel)
        ensures
            r == (GameLevel { seed, shape: Shape::Dodecahedron, nodes_per_edge: 1 }),
    {
        GameLevel::new(seed, Shape::Dodecahedron, 1)
    }

    pub fn icosahedron(nodes_per_edge: u8, seed: u64) -> (r: GameLevel)
        ensures
            r == (GameLevel { seed, shape: Shape::Icosahedron, nodes_per_edge }),
    {
        GameLevel::new(seed, Shape::Icosahedron, nodes_per_edge)
    }

    /// The border between two faces of this level's solid, given by face id.
    pub fn border_type(&self, from: usize, to: usize) -> (r: Option<BorderType>)
        requires
            from < face_count(self.shape),
            to < face_count(self.shape),
        ensures
            r == border_type_from_shared(
                shared_vertex_count(
                    face_vertex_indices(self.shape, from as int),
                    face_vertex_indices(self.shape, to as int),
                ),
            ),
    {
        let shared = match self.shape {
            Shape::Tetrahedron => count_shared_vertices(
                &tetrahedron::FACE_INDICES[from],
                &tetrahedron::FACE_INDICES[to],
            ),
            Shape::Cube => count_shared_vertices(&cube::FACE_INDICES[from], &cube::FACE_INDICES[to]),
            Shape::Octahedron => count_shared_vertices(
                &octahedron::FACE_INDICES[from],
                &octahedron::FACE_INDICES[to],
            ),
            Shape::Dodecahedron => count_shared_vertices(
                &dodecahedron::FACE_INDICES[from],
                &dodecahedron::FACE_INDICES[to],
            ),
            Shape::Icosahedron => count_shared_vertices(
                &icosahedron::FACE_INDICES[from],
                &icosahedron::FACE_INDICES[to],
            ),
        };
        if shared <= 1 {
            None
        } else if shared == 2 {
            Some(BorderType::Connected)
        } else {
            Some(BorderType::SameFace)
        }
    }

    /// The asset path of the level's maze.
    pub fn filename(&self) -> (r: String)
        ensures
            r@ == spec_filename(*self),
    {
        let shape = match self.shape {
            Shape::Cube => "cube",
            Shape::Tetrahedron => "tetrahedron",
            Shape::Octahedron => "octahedron",
            Shape::Dodecahedron => "dodecahedron",
            Shape::Icosahedron => "icosahedron",
        };
        let mut name = String::from_str("levels/");
        name.append(shape);
        name.append("_s");
        append_decimal(&mut name, self.seed);
        name.append("_n");
        append_decimal(&mut name, self.nodes_per_edge as u64);
        name.append(".json");
        name
    }
}

/// The number of seeded levels.
pub const LEVEL_COUNT: usize = 20;

/// The seeded levels, in the order they are played.
pub open spec fn level_table() -> Seq<GameLevel> {
    seq![
        GameLevel { seed: 1, shape: Shape::Tetrahedron, nodes_per_edge: 1 },
        GameLevel { seed: 2, shape: Shape::Cube, nodes_per_edge: 2 },
        GameLevel { seed: 3, shape: Shape::Octahedron, nodes_per_edge: 3 },
        GameLevel { seed: 1, shape: Shape::Dodecahedron, nodes_per_edge: 1 },
        GameLevel { seed: 2, shape: Shape::Icosahedron, nodes_per_edge: 2 },
        GameLevel { seed: 4, shape: Shape::Octahedron, nodes_per_edge: 4 },
        GameLevel { seed: 0, shape: Shape::Tetrahedron, nodes_per_edge: 6 },
        GameLevel { seed: 3, shape: Shape::Cube, nodes_per_edge: 4 },
        GameLevel { seed: 0, shape: Shape::Tetrahedron, nodes_per_edge: 7 },
        GameLevel { seed: 0, shape: Shape::Octahedron, nodes_per_edge: 5 },
        GameLevel { seed: 2, shape: Shape::Icosahedron, nodes_per_edge: 3 },
        GameLevel { seed: 0, shape: Shape::Tetrahedron, nodes_per_edge: 8 },
        GameLevel { seed: 0, shape: Shape::Cube, nodes_per_edge: 5 },
        GameLevel { seed: 0, shape: Shape::Octahedron, nodes_per_edge: 6 },
        GameLevel { seed: 0, shape: Shape::Tetrahedron, nodes_per_edge: 9 },
        GameLevel { seed: 2, shape: Shape::Icosahedron, nodes_per_edge: 4 },
        GameLevel { seed: 1, shape: Shape::Cube, nodes_per_edge: 6 },
        GameLevel { seed: 0, shape: Shape::Octahedron, nodes_per_edge: 7 },
        GameLevel { seed: 0, shape: Shape::Cube, nodes_per_edge: 7 },
        GameLevel { seed: 0, shape: Shape::Icosahedron, nodes_per_edge: 5 },
    ]
}

/// The seeded levels, in the order they are played.
pub fn levels() -> (r: Vec<GameLevel>)
    ensures
        r@ == level_table(),
        r@.len() == LEVEL_COUNT,
{
    let r = vec![
        GameLevel::tetrahedron(1, 1),
        GameLevel::cube(2, 2),
        GameLevel::octahedron(3, 3),
        GameLevel::dodecahedron(1),
        GameLevel::icosahedron(2, 2),
        GameLevel::octahedron(4, 4),
        GameLevel::tetrahedron(6, 0),
        GameLevel::cube(4, 3),
        GameLevel::tetrahedron(7, 0),
        GameLevel::octahedron(5, 0),
        GameLevel::icosahedron(3, 2),
        GameLevel::tetrahedron(8, 0),
        GameLevel::cube(5, 0),
        GameLevel::octahedron(6, 0),
        GameLevel::tetrahedron(9, 0),
        GameLevel::icosahedron(4, 2),
        GameLevel::cube(6, 1),
        GameLevel::octahedron(7, 0),
        GameLevel::cube(7, 0),
        GameLevel::icosahedron(5, 0),
    ];
    assert(r@ =~= level_table());
    r
}

} // verus!
verus! {

/// Every seeded level has from one to nine rooms per edge, the digits that
/// the selector can show.
pub proof fn lemma_levels_have_one_to_nine_rooms_per_edge()
    ensures
        forall|i: int| 0 <= i < LEVEL_COUNT ==> 1 <= #[trigger] level_table()[i].nodes_per_edge <= 9,
{
}

} // verus!
