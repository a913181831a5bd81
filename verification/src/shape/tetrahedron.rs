use vstd::prelude::*;

verus! {

/// Vertex indices of each face of the tetrahedron.
pub const FACE_INDICES: [[usize; 3]; 4] = [[3, 2, 1], [0, 2, 3], [3, 1, 0], [0, 1, 2]];

/// How the faces of a tetrahedron level are coloured, as palette indices.
#[derive(Debug, Clone, Copy)]
pub enum Coloring {
    Full([u8; 4]),
    Dual([u8; 2]),
    Mono(u8),
}

/// The tetrahedron solid.
#[derive(Debug, Clone, Copy)]
pub struct Tetrahedron;

} // verus!
