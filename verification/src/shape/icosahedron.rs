use vstd::prelude::*;

verus! {

/// Vertex indices of each face of the icosahedron.
pub const FACE_INDICES: [[usize; 3]; 20] = [
    [0, 4, 8],
    [0, 10, 5],
    [0, 8, 10],
    [4, 0, 2],
    [5, 2, 0],
    [8, 4, 6],
    [1, 8, 6],
    [1, 10, 8],
    [1, 7, 10],
    [7, 1, 3],
    [6, 3, 1],
    [2, 9, 4],
    [9, 6, 4],
    [3, 6, 9],
    [3, 9, 11],
    [2, 11, 9],
    [2, 5, 11],
    [11, 5, 7],
    [3, 11, 7],
    [10, 7, 5],
];

/// How the faces of an icosahedron level are coloured, as palette indices.
#[derive(Debug, Clone, Copy)]
pub enum Coloring {
    Full([u8; 5]),
    Tri([u8; 3]),
    Dual([u8; 2]),
    Mono(u8),
}

} // verus!
