use mazonic::game_save::PuzzleIdentifier;
use mazonic::is_room_junction::{
    is_junction, junction_neighbors, junction_rooms, passages_to_draw, walk_follows_passages,
};
use mazonic::maze::mesh::{
    edge_drawing, junction_room_material, junction_room_materials, make_room_pairs_from_discovered_melodies,
    melody_index_of, passage_discovered, EdgeMaterial, EdgeMesh, RoomMaterial,
};
use mazonic::player_path::{update, PlayerPath};
use mazonic::shape::loader::{maze_from_passages, MazeGraph, NeighborDirection};
use mazonic::shape::shape_loader::BorderType;

fn maze(passages: &[(u64, u64)]) -> MazeGraph {
    maze_from_passages(&passages.to_vec())
}

#[test]
fn the_maze_graph_keeps_its_passages() {
    let graph = maze(&[(1, 2), (2, 1), (2, 3)]);
    assert!(graph.contains_edge(1, 2));
    assert!(graph.contains_edge(2, 3));
    assert!(!graph.contains_edge(3, 2));
    let mut out = graph.neighbors_directed(2, NeighborDirection::Outgoing);
    out.sort();
    assert_eq!(out, vec![1, 3]);
    assert_eq!(graph.neighbors_directed(3, NeighborDirection::Incoming), vec![2]);
    let mut edges = graph.all_edges();
    edges.sort();
    assert_eq!(edges, vec![(1, 2), (2, 1), (2, 3)]);
    let mut grown = MazeGraph::new();
    assert!(!grown.contains_edge(1, 2));
    grown.add_edge(1, 2);
    assert!(grown.contains_edge(1, 2));
    assert!(!grown.contains_edge(2, 1));
    let repeated = maze(&[(5, 6), (5, 6)]);
    assert_eq!(repeated.all_edges(), vec![(5, 6)]);
}

#[test]
fn junction_neighbours_count_each_room_once() {
    let graph = maze(&[(1, 2), (2, 1), (2, 3), (4, 2)]);
    let mut neighbours = junction_neighbors(2, &graph);
    neighbours.sort();
    assert_eq!(neighbours, vec![1, 3, 4]);
    assert!(junction_neighbors(9, &graph).is_empty());
}

#[test]
fn rooms_on_a_straight_corridor_are_not_junctions() {
    assert!(!is_junction(2, true));
    assert!(is_junction(2, false));
    assert!(is_junction(1, true));
    assert!(is_junction(3, true));
    assert!(is_junction(0, false));
}

#[test]
fn every_passage_is_drawn_once() {
    let graph = maze(&[(1, 2), (2, 1), (2, 3)]);
    let mut drawn = passages_to_draw(&graph);
    drawn.sort();
    assert_eq!(drawn, vec![(2, 1, true), (2, 3, false)]);
}

#[test]
fn melody_rooms_pair_up_in_order() {
    let puzzle = PuzzleIdentifier::Level(0);
    assert_eq!(
        make_room_pairs_from_discovered_melodies(&puzzle, &vec![4, 7, 9]),
        vec![(4, 7), (7, 9)]
    );
    assert!(make_room_pairs_from_discovered_melodies(&puzzle, &vec![4]).is_empty());
    assert_eq!(
        make_room_pairs_from_discovered_melodies(&puzzle, &vec![1, 2, 1, 2]),
        vec![(1, 2), (2, 1)]
    );
    assert!(make_room_pairs_from_discovered_melodies(&puzzle, &vec![]).is_empty());
}

#[test]
fn discovered_passages_are_found_either_way() {
    let pairs = vec![(4, 7), (7, 9)];
    assert!(passage_discovered(&pairs, 7, 4));
    assert!(passage_discovered(&pairs, 7, 9));
    assert!(!passage_discovered(&pairs, 4, 9));
}

#[test]
fn melody_index_is_the_last_position() {
    let rooms = vec![4, 7, 4, 9];
    assert_eq!(melody_index_of(&rooms, 4), Some(2));
    assert_eq!(melody_index_of(&rooms, 9), Some(3));
    assert_eq!(melody_index_of(&rooms, 5), None);
}

#[test]
fn junction_materials() {
    assert_eq!(junction_room_material(true, Some(3)), RoomMaterial::Goal);
    assert_eq!(junction_room_material(false, Some(3)), RoomMaterial::MelodyNote(3));
    assert_eq!(junction_room_material(false, None), RoomMaterial::Line);
}

#[test]
fn two_way_passages_are_drawn_from_the_larger_room() {
    assert_eq!(edge_drawing(1, 2, true, BorderType::SameFace, false), None);
    assert_eq!(
        edge_drawing(2, 1, true, BorderType::SameFace, false),
        Some((EdgeMesh::SameFace, EdgeMaterial::Line))
    );
    assert_eq!(
        edge_drawing(1, 2, false, BorderType::Connected, true),
        Some((EdgeMesh::OneWayCrossFace, EdgeMaterial::BrightDashedArrow))
    );
    assert_eq!(
        edge_drawing(5, 2, true, BorderType::Connected, true),
        Some((EdgeMesh::CrossFace, EdgeMaterial::BrightLine))
    );
    assert_eq!(
        edge_drawing(5, 2, false, BorderType::SameFace, false),
        Some((EdgeMesh::OneWaySameFace, EdgeMaterial::DashedArrow))
    );
}

#[test]
fn the_player_path_skips_repeated_rooms() {
    let mut path = PlayerPath::default();
    update(&mut path, 3);
    update(&mut path, 3);
    update(&mut path, 4);
    update(&mut path, 3);
    assert_eq!(path.0, vec![3, 4, 3]);
}

#[test]
fn junction_rooms_are_coloured_room_by_room() {
    let materials = junction_room_materials(&vec![9, 4, 5, 7], 9, &vec![4, 7, 4]);
    assert_eq!(
        materials,
        vec![RoomMaterial::Goal, RoomMaterial::MelodyNote(2), RoomMaterial::Line, RoomMaterial::MelodyNote(1)]
    );
    assert!(junction_room_materials(&vec![], 9, &vec![4]).is_empty());
}

#[test]
fn junction_rooms_are_kept_in_order() {
    // 1 - 2 - 3 is a corridor; 2 has two neighbours, 1 and 3 have one each; 4 hangs off 3
    let graph = maze(&[(1, 2), (2, 1), (2, 3), (3, 2), (3, 4)]);
    let rooms = vec![1, 2, 3, 4];
    assert_eq!(junction_rooms(&graph, &rooms, &vec![false, true, true, false]), vec![1, 4]);
    assert_eq!(junction_rooms(&graph, &rooms, &vec![false, false, true, false]), vec![1, 2, 4]);
    assert!(junction_rooms(&graph, &vec![], &vec![]).is_empty());
}

#[test]
fn walks_must_follow_passages() {
    let graph = maze(&[(1, 2), (2, 3)]);
    assert!(walk_follows_passages(&graph, &vec![1, 2, 3]));
    assert!(!walk_follows_passages(&graph, &vec![3, 2]));
    assert!(!walk_follows_passages(&graph, &vec![1, 3]));
    assert!(walk_follows_passages(&graph, &vec![7]));
    assert!(walk_follows_passages(&graph, &vec![]));
}

#[test]
fn no_passage_is_drawn_twice() {
    let graph = maze(&[(1, 2), (2, 1), (2, 3), (3, 4), (4, 3), (5, 1)]);
    let drawn = passages_to_draw(&graph);
    assert_eq!(drawn.len(), 4);
    for i in 0..drawn.len() {
        for j in (i + 1)..drawn.len() {
            assert_ne!((drawn[i].0, drawn[i].1), (drawn[j].0, drawn[j].1));
        }
    }
}
