use vstd::prelude::*;

verus! {

/// Vertex indices of each face of the octahedron.
pub const FACE_INDICES: [[usize; 3]; 8] = [
    [0, 2, 4],
    [0, 4, 3],
    [0, 3, 5],
    [0, 5, 2],
    [1, 4, 2],
    [1, 3, 4],
    [1, 5, 3],
    [1, 2, 5],
];

/// How the faces of an octahedron level are coloured, as palette indices.
#[derive(Debug, Clone, Copy)]
pub enum Coloring {
    Full([u8; 4]),
    Stripes([u8; 4]),
    CrissCross([u8; 2]),
    Dual([u8; 2]),
}

} // verus!
