use vstd::prelude::*;

use crate::shape::shape_loader::lemma_push_to_set;
use crate::shape::loader::{maze_passages, spec_neighbors, MazeGraph, NeighborDirection};

verus! {

/// The rooms joined to `room` by a passage in either direction.
pub open spec fn spec_junction_neighbors(passages: Set<(u64, u64)>, room: u64) -> Set<u64> {
    spec_neighbors(passages, room, NeighborDirection::Incoming).union(
        spec_neighbors(passages, room, NeighborDirection::Outgoing),
    )
}

fn contains_room(rooms: &Vec<u64>, room: u64) -> (r: bool)
    ensures
        r == rooms@.contains(room),
{
    let mut i: usize = 0;
    while i < rooms.len()
        invariant
            i <= rooms@.len(),
            forall|j: int| 0 <= j < i ==> rooms@[j] != room,
        decreases rooms@.len() - i,
    {
        if rooms[i] == room {
            assert(rooms@[i as int] == room);
            return true;
        }
        i = i + 1;
    }
    false
}

/// Appends to `out` each room of `rooms` that it does not hold yet.
pub(crate) fn push_unique(out: &mut Vec<u64>, rooms: &Vec<u64>)
    requires
        old(out)@.no_duplicates(),
    ensures
        final(out)@.no_duplicates(),
        final(out)@.to_set() == old(out)@.to_set().union(rooms@.to_set()),
{
    let mut i: usize = 0;
    while i < rooms.len()
        invariant
            i <= rooms@.len(),
            out@.no_duplicates(),
            out@.to_set() == old(out)@.to_set().union(rooms@.subrange(0, i as int).to_set()),
        decreases rooms@.len() - i,
    {
        let room = rooms[i];
        let ghost before = out@;
        if !contains_room(out, room) {
            out.push(room);
        }
        proof {
            assert(rooms@.subrange(0, i as int + 1) =~= rooms@.subrange(0, i as int).push(room));
            lemma_push_to_set(rooms@.subrange(0, i as int), room);
            if !before.contains(room) {
                lemma_push_to_set(before, room);
                assert(out@.no_duplicates());
            } else {
                assert(before.to_set().contains(room));
                assert(before.to_set().insert(room) =~= before.to_set());
            }
            assert(out@.to_set() =~= old(out)@.to_set().union(rooms@.subrange(0, i as int + 1).to_set()));
        }
        i = i + 1;
    }
    assert(rooms@.subrange(0, rooms@.len() as int) =~= rooms@);
}

/// The rooms joined to `room` by a passage in either direction, each once:
/// those of incoming passages first, then those of outgoing ones.
pub fn junction_neighbors(room: u64, graph: &MazeGraph) -> (r: Vec<u64>)
    ensures
        r@.to_set() == spec_junction_neighbors(maze_passages(*graph), room),
        r@.no_duplicates(),
{
    let incoming = graph.neighbors_directed(room, NeighborDirection::Incoming);
    let outgoing = graph.neighbors_directed(room, NeighborDirection::Outgoing);
    let mut neighbors: Vec<u64> = Vec::new();
    assert(neighbors@.to_set() =~= Set::<u64>::empty());
    push_unique(&mut neighbors, &incoming);
    push_unique(&mut neighbors, &outgoing);
    assert(neighbors@.to_set() =~= spec_junction_neighbors(maze_passages(*graph), room));
    neighbors
}

/// Whether a room is a junction of the maze, where a note sounds and a marker
/// is drawn: any room that does not have exactly two neighbours, and a room
/// with two neighbours when its passages turn. `passes_straight_through` says
/// whether the two neighbours, seen from the room on its face, lie in nearly
/// opposite directions (the cosine of the angle between them at most -0.9).
pub fn is_junction(neighbor_count: usize, passes_straight_through: bool) -> (r: bool)
    ensures
        r == (neighbor_count != 2 || !passes_straight_through),
{
    neighbor_count != 2 || !passes_straight_through
}

/// The junction rooms among `rooms`, in order, given for each room whether
/// its neighbours lie in nearly opposite directions.
pub open spec fn spec_junction_rooms(passages: Set<(u64, u64)>, rooms: Seq<u64>, passes_straight_through: Seq<bool>) -> Seq<u64>
    decreases rooms.len(),
{
    if rooms.len() == 0 {
        Seq::empty()
    } else {
        let earlier = spec_junction_rooms(passages, rooms.drop_last(), passes_straight_through.drop_last());
        if spec_junction_neighbors(passages, rooms.last()).len() != 2 || !passes_straight_through.last() {
            earlier.push(rooms.last())
        } else {
            earlier
        }
    }
}

/// The junction rooms among `rooms`, in order: where notes sound and markers
/// are drawn. `passes_straight_through[i]` says whether the neighbours of
/// `rooms[i]`, seen on its face, lie in nearly opposite directions.
pub fn junction_rooms(graph: &MazeGraph, rooms: &Vec<u64>, passes_straight_through: &Vec<bool>) -> (r: Vec<u64>)
    requires
        rooms@.len() == passes_straight_through@.len(),
    ensures
        r@ == spec_junction_rooms(maze_passages(*graph), rooms@, passes_straight_through@),
{
    let mut junctions: Vec<u64> = Vec::new();
    let mut i: usize = 0;
    while i < rooms.len()
        invariant
            i <= rooms@.len(),
            rooms@.len() == passes_straight_through@.len(),
            junctions@ == spec_junction_rooms(
                maze_passages(*graph),
                rooms@.take(i as int),
                passes_straight_through@.take(i as int),
            ),
        decreases rooms@.len() - i,
    {
        let room = rooms[i];
        let neighbours = junction_neighbors(room, graph);
        proof {
            neighbours@.unique_seq_to_set();
            assert(rooms@.take(i as int + 1).drop_last() =~= rooms@.take(i as int));
            assert(passes_straight_through@.take(i as int + 1).drop_last() =~= passes_straight_through@.take(i as int));
        }
        if is_junction(neighbours.len(), passes_straight_through[i]) {
            junctions.push(room);
        }
        i = i + 1;
    }
    assert(rooms@.take(rooms@.len() as int) =~= rooms@);
    assert(passes_straight_through@.take(rooms@.len() as int) =~= passes_straight_through@);
    junctions
}

/// Whether each room of `rooms` is joined to the next by a passage.
pub fn walk_follows_passages(graph: &MazeGraph, rooms: &Vec<u64>) -> (r: bool)
    ensures
        r == forall|i: int| 0 <= i < rooms@.len() - 1 ==> maze_passages(*graph).contains((#[trigger] rooms@[i], rooms@[i + 1])),
{
    if rooms.len() == 0 {
        return true;
    }
    let mut i: usize = 0;
    while i < rooms.len() - 1
        invariant
            rooms@.len() > 0,
            i <= rooms@.len() - 1,
            forall|j: int| 0 <= j < i && j < rooms@.len() - 1 ==> maze_passages(*graph).contains((#[trigger] rooms@[j], rooms@[j + 1])),
        decreases rooms@.len() - i,
    {
        if !graph.contains_edge(rooms[i], rooms[i + 1]) {
            return false;
        }
        i = i + 1;
    }
    true
}

/// The passages to draw, each with whether it runs both ways. A passage that
/// runs both ways is drawn once, from the room with the larger id.
pub fn passages_to_draw(graph: &MazeGraph) -> (r: Vec<(u64, u64, bool)>)
    ensures
        forall|i: int| 0 <= i < r@.len() ==> {
            let (from, to, both_ways) = #[trigger] r@[i];
            &&& maze_passages(*graph).contains((from, to))
            &&& both_ways == maze_passages(*graph).contains((to, from))
            &&& !(both_ways && from < to)
        },
        forall|from: u64, to: u64|
            #![trigger maze_passages(*graph).contains((from, to))]
            maze_passages(*graph).contains((from, to)) && !(maze_passages(*graph).contains((to, from)) && from < to)
                ==> exists|i: int| 0 <= i < r@.len() && r@[i].0 == from && r@[i].1 == to,
        forall|i: int, j: int|
            0 <= i < j < r@.len() ==> (#[trigger] r@[i].0, r@[i].1) != (#[trigger] r@[j].0, r@[j].1),
{
    let edges = graph.all_edges();
    let ghost passages = maze_passages(*graph);
    let mut drawn: Vec<(u64, u64, bool)> = Vec::new();
    let ghost mut source: Seq<int> = Seq::empty();
    let mut i: usize = 0;
    while i < edges.len()
        invariant
            i <= edges@.len(),
            passages == maze_passages(*graph),
            edges@.to_set() == passages,
            edges@.no_duplicates(),
            source.len() == drawn@.len(),
            forall|k: int|
                0 <= k < drawn@.len() ==> 0 <= #[trigger] source[k] < i && edges@[source[k]] == (
                    drawn@[k].0,
                    drawn@[k].1,
                ),
            forall|k1: int, k2: int| 0 <= k1 < k2 < drawn@.len() ==> #[trigger] source[k1] < #[trigger] source[k2],
            forall|k: int| 0 <= k < drawn@.len() ==> {
                let (from, to, both_ways) = #[trigger] drawn@[k];
                &&& passages.contains((from, to))
                &&& both_ways == passages.contains((to, from))
                &&& !(both_ways && from < to)
            },
            forall|j: int|
                #![trigger edges@[j]]
                0 <= j < i && !(passages.contains((edges@[j].1, edges@[j].0)) && edges@[j].0 < edges@[j].1)
                    ==> exists|k: int| 0 <= k < drawn@.len() && drawn@[k].0 == edges@[j].0 && drawn@[k].1 == edges@[j].1,
        decreases edges@.len() - i,
    {
        let (from, to) = edges[i];
        assert(edges@.to_set().contains(edges@[i as int]));
        let both_ways = graph.contains_edge(to, from);
        let ghost prev = drawn@;
        if !(both_ways && from < to) {
            drawn.push((from, to, both_ways));
            proof {
                source = source.push(i as int);
            }
            assert(drawn@[drawn@.len() - 1].0 == from && drawn@[drawn@.len() - 1].1 == to);
        }
        proof {
            assert forall|j: int|
                #![trigger edges@[j]]
                0 <= j < i + 1 && !(passages.contains((edges@[j].1, edges@[j].0)) && edges@[j].0 < edges@[j].1)
                    implies exists|k: int| 0 <= k < drawn@.len() && drawn@[k].0 == edges@[j].0 && drawn@[k].1 == edges@[j].1 by {
                if j == i {
                    assert(edges@[j] == (from, to));
                    assert(drawn@[drawn@.len() - 1].0 == from && drawn@[drawn@.len() - 1].1 == to);
                } else {
                    let k = choose|k: int| 0 <= k < prev.len() && prev[k].0 == edges@[j].0 && prev[k].1 == edges@[j].1;
                    assert(drawn@[k] == prev[k]);
                }
            }
        }
        i = i + 1;
    }
    proof {
        assert forall|from: u64, to: u64|
            #![trigger maze_passages(*graph).contains((from, to))]
            maze_passages(*graph).contains((from, to)) && !(maze_passages(*graph).contains((to, from)) && from < to)
                implies exists|k: int| 0 <= k < drawn@.len() && drawn@[k].0 == from && drawn@[k].1 == to by {
            assert(edges@.to_set().contains((from, to)));
            let j = choose|j: int| 0 <= j < edges@.len() && edges@[j] == (from, to);
            assert(edges@[j].0 == from && edges@[j].1 == to);
        }
        assert forall|k1: int, k2: int|
            0 <= k1 < k2 < drawn@.len() implies (#[trigger] drawn@[k1].0, drawn@[k1].1) != (
            #[trigger] drawn@[k2].0,
            drawn@[k2].1,
        ) by {
            assert(source[k1] < source[k2]);
            assert(edges@[source[k1]] != edges@[source[k2]]);
        }
    }
    drawn
}

/// Every passage of the maze is drawn in one of its two directions.
pub proof fn lemma_every_passage_drawn(graph: MazeGraph, drawn: Seq<(u64, u64, bool)>, from: u64, to: u64)
    requires
        forall|from: u64, to: u64|
            #![trigger maze_passages(graph).contains((from, to))]
            maze_passages(graph).contains((from, to)) && !(maze_passages(graph).contains((to, from)) && from < to)
                ==> exists|i: int| 0 <= i < drawn.len() && drawn[i].0 == from && drawn[i].1 == to,
        maze_passages(graph).contains((from, to)),
    ensures
        exists|i: int| 0 <= i < drawn.len() && ((drawn[i].0 == from && drawn[i].1 == to) || (drawn[i].0 == to && drawn[i].1 == from)),
{
    if maze_passages(graph).contains((to, from)) && from < to {
        assert(maze_passages(graph).contains((to, from)));
        let i = choose|i: int| 0 <= i < drawn.len() && drawn[i].0 == to && drawn[i].1 == from;
        assert(drawn[i].0 == to && drawn[i].1 == from);
    } else {
        let i = choose|i: int| 0 <= i < drawn.len() && drawn[i].0 == from && drawn[i].1 == to;
        assert(drawn[i].0 == from && drawn[i].1 == to);
    }
}

} // verus!
