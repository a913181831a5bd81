use mazonic::levels::{levels, GameLevel, Shape, LEVEL_COUNT};
use mazonic::shape::shape_loader::{count_shared_vertices, BorderType};
use mazonic::shape::{cube, dodecahedron, icosahedron, octahedron, tetrahedron};

#[test]
fn tetrahedron_faces_that_share_an_edge_are_connected() {
    let level = GameLevel::tetrahedron(1, tetrahedron::Coloring::Full([0, 1, 2, 3]));
    assert_eq!(level.border_type(0, 1), Some(BorderType::Connected));
    assert_eq!(level.border_type(2, 3), Some(BorderType::Connected));
}

#[test]
fn a_face_borders_itself_as_the_same_face() {
    let level = GameLevel::cube(2, cube::Coloring::Mono(2));
    for face in 0..6 {
        assert_eq!(level.border_type(face, face), Some(BorderType::SameFace));
    }
    let level = GameLevel::dodecahedron(dodecahedron::Coloring::Full([1, 2, 3, 4]));
    for face in 0..12 {
        assert_eq!(level.border_type(face, face), Some(BorderType::SameFace));
    }
}

#[test]
fn opposite_cube_faces_have_no_border() {
    let level = GameLevel::cube(2, cube::Coloring::Full([1, 2, 3]));
    assert_eq!(level.border_type(0, 5), None);
    assert_eq!(level.border_type(1, 2), None);
    assert_eq!(level.border_type(0, 1), Some(BorderType::Connected));
}

#[test]
fn icosahedron_faces_meeting_at_a_corner_have_no_border() {
    let level = GameLevel::icosahedron(2, icosahedron::Coloring::Mono(4));
    // faces 0 [0, 4, 8] and 1 [0, 10, 5] share only vertex 0
    assert_eq!(level.border_type(0, 1), None);
    // faces 0 [0, 4, 8] and 2 [0, 8, 10] share vertices 0 and 8
    assert_eq!(level.border_type(0, 2), Some(BorderType::Connected));
}

#[test]
fn border_type_is_symmetric_on_concrete_faces() {
    let level = GameLevel::octahedron(3, octahedron::Coloring::Dual([0, 4]));
    for from in 0..8 {
        for to in 0..8 {
            assert_eq!(level.border_type(from, to), level.border_type(to, from));
        }
    }
}

#[test]
fn shared_vertices_are_counted_once() {
    assert_eq!(count_shared_vertices(&[1, 1, 2], &[1, 3]), 1);
    assert_eq!(count_shared_vertices(&[3, 2, 1], &[0, 2, 3]), 2);
    assert_eq!(count_shared_vertices(&[], &[0, 2, 3]), 0);
}

#[test]
fn the_built_in_levels_start_small_and_grow() {
    let table = levels();
    assert_eq!(table.len(), LEVEL_COUNT);
    assert_eq!(LEVEL_COUNT, 18);
    assert!(matches!(table[0].shape, Shape::Tetrahedron(_)));
    assert_eq!(table[0].nodes_per_edge, 1);
    assert!(matches!(table[3].shape, Shape::Dodecahedron(_)));
    assert_eq!(table[3].nodes_per_edge, 1);
    assert!(matches!(table[17].shape, Shape::Icosahedron(icosahedron::Coloring::Mono(4))));
    assert_eq!(table[17].nodes_per_edge, 5);
}

#[test]
fn dodecahedron_levels_have_one_room_per_edge() {
    let level = GameLevel::dodecahedron(dodecahedron::Coloring::Full([0, 1, 2, 3]));
    assert_eq!(level.nodes_per_edge, 1);
    assert!(matches!(level.shape, Shape::Dodecahedron(_)));
}
