pub mod cube;
pub mod dodecahedron;
pub mod icosahedron;
pub mod loader;
pub mod octahedron;
pub mod shape_loader;
pub mod tetrahedron;
