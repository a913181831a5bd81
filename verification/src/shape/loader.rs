use vstd::prelude::*;

use petgraph::graphmap::GraphMap;
use petgraph::Directed;

use crate::shape::shape_loader::lemma_push_to_set;

verus! {

/// The weight of a passage of the maze: passages carry no data.
#[derive(Debug, Clone, Copy, Hash, PartialEq, Eq, PartialOrd, Default)]
pub struct Edge;

/// Which way a passage runs, seen from a room.
#[derive(Debug, Clone, Copy, PartialEq, Eq, Structural)]
pub enum NeighborDirection {
    /// Passages that leave the room.
    Outgoing,
    /// Passages that enter the room.
    Incoming,
}

/// The maze of a level: one-way and two-way passages between rooms, by room id.
#[verifier::external_body]
pub struct MazeGraph {
    graph: GraphMap<u64, Edge, Directed>,
}

/// The passages of the maze, as (from, to) pairs of room ids.
pub uninterp spec fn maze_passages(graph: MazeGraph) -> Set<(u64, u64)>;

/// The rooms at the other end of the passages of `room` in the direction.
pub open spec fn spec_neighbors(passages: Set<(u64, u64)>, room: u64, direction: NeighborDirection) -> Set<u64> {
    match direction {
        NeighborDirection::Outgoing => Set::new(|n: u64| passages.contains((room, n))),
        NeighborDirection::Incoming => Set::new(|n: u64| passages.contains((n, room))),
    }
}

impl MazeGraph {
    /// Calls `GraphMap::new`. Trusted: the new maze has no passage.
    #[verifier::external_body]
    pub fn new() -> (graph: MazeGraph)
        ensures
            maze_passages(graph).is_empty(),
    {
        MazeGraph { graph: GraphMap::new() }
    }

    /// Calls `GraphMap::add_edge`. Trusted: afterwards the maze has the passage
    /// from `from` to `to`, and its other passages are unchanged.
    #[verifier::external_body]
    pub fn add_edge(&mut self, from: u64, to: u64)
        ensures
            maze_passages(*final(self)) == maze_passages(*old(self)).insert((from, to)),
    {
        self.graph.add_edge(from, to, Edge);
    }

    /// Calls `GraphMap::contains_edge`. Trusted: the result says whether the
    /// passage from `from` to `to` exists.
    #[verifier::external_body]
    pub fn contains_edge(&self, from: u64, to: u64) -> (r: bool)
        ensures
            r == maze_passages(*self).contains((from, to)),
    {
        self.graph.contains_edge(from, to)
    }

    /// Calls `GraphMap::neighbors_directed` and collects the rooms. Trusted:
    /// every room at the other end of a passage of `room` in the direction
    /// appears once (the maze has no parallel passages), in the maze's own
    /// order.
    #[verifier::external_body]
    pub fn neighbors_directed(&self, room: u64, direction: NeighborDirection) -> (r: Vec<u64>)
        ensures
            r@.to_set() == spec_neighbors(maze_passages(*self), room, direction),
            r@.no_duplicates(),
    {
        let direction = match direction {
            NeighborDirection::Outgoing => petgraph::Direction::Outgoing,
            NeighborDirection::Incoming => petgraph::Direction::Incoming,
        };
        self.graph.neighbors_directed(room, direction).collect()
    }

    /// Calls `GraphMap::all_edges` and collects the room pairs. Trusted: every
    /// passage appears once, in the maze's own order.
    #[verifier::external_body]
    pub fn all_edges(&self) -> (r: Vec<(u64, u64)>)
        ensures
            r@.to_set() == maze_passages(*self),
            r@.no_duplicates(),
    {
        self.graph.all_edges().map(|(from, to, _)| (from, to)).collect()
    }
}

/// The maze with the given passages, as a level file lists them.
pub fn maze_from_passages(passages: &Vec<(u64, u64)>) -> (r: MazeGraph)
    ensures
        maze_passages(r) == passages@.to_set(),
{
    let mut graph = MazeGraph::new();
    let mut i: usize = 0;
    while i < passages.len()
        invariant
            i <= passages@.len(),
            maze_passages(graph) == passages@.subrange(0, i as int).to_set(),
        decreases passages@.len() - i,
    {
        let (from, to) = passages[i];
        graph.add_edge(from, to);
        proof {
            assert(passages@.subrange(0, i as int + 1) =~= passages@.subrange(0, i as int).push((from, to)));
            lemma_push_to_set(passages@.subrange(0, i as int), (from, to));
        }
        i = i + 1;
    }
    assert(passages@.subrange(0, passages@.len() as int) =~= passages@);
    graph
}

/// The maze of the level being played.
pub struct GraphComponent(pub MazeGraph);

/// The rooms of the solution of the level being played, from start to goal.
pub struct SolutionComponent(pub Vec<u64>);

/// A melody sealed in a level: the nonce followed by the ciphertext, and the
/// number of notes that open it.
#[derive(Debug, Clone)]
pub struct EncryptedMelody {
    pub encrypted_melody_bytes: Vec<u8>,
    pub melody_length: usize,
}

} // verus!
