use vstd::prelude::*;

verus! {

/// Vertex indices of each face of the dodecahedron.
pub const FACE_INDICES: [[usize; 5]; 12] = [
    [0, 9, 15, 2, 12],
    [0, 17, 11, 18, 9],
    [0, 12, 1, 7, 17],
    [1, 13, 6, 16, 7],
    [1, 12, 2, 5, 13],
    [2, 15, 4, 14, 5],
    [3, 6, 13, 5, 14],
    [3, 19, 8, 16, 6],
    [3, 14, 4, 10, 19],
    [4, 15, 9, 18, 10],
    [7, 16, 8, 11, 17],
    [8, 19, 10, 18, 11],
];

/// How the faces of a dodecahedron level are coloured, as palette indices.
#[derive(Debug, Clone, Copy)]
pub enum Coloring {
    Full([u8; 4]),
}

} // verus!
