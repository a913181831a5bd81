use vstd::prelude::*;

verus! {

/// Vertex indices of each face of the cube.
pub const FACE_INDICES: [[usize; 4]; 6] = [
    [0, 2, 6, 4],
    [0, 1, 3, 2],
    [6, 7, 5, 4],
    [2, 3, 7, 6],
    [4, 5, 1, 0],
    [5, 7, 3, 1],
];

/// How the faces of a cube level are coloured, as palette indices.
#[derive(Debug, Clone, Copy)]
pub enum Coloring {
    Full([u8; 3]),
    Dual([u8; 2]),
    Mono(u8),
}

} // verus!
