use vstd::prelude::*;

verus! {

/// The rooms the player has stood in, in order, by room id.
#[derive(Debug, Clone, Default)]
pub struct PlayerPath(pub Vec<u64>);

/// Whether no room follows itself on the path.
pub open spec fn no_repeated_rooms(path: Seq<u64>) -> bool {
    forall|i: int| 0 < i < path.len() ==> #[trigger] path[i] != path[i - 1]
}

/// Records that the player stands in `room_id`; the room is added unless the
/// path already ends with it.
pub fn update(path: &mut PlayerPath, room_id: u64)
    ensures
        old(path).0@.len() > 0 && old(path).0@.last() == room_id ==> final(path).0@ == old(path).0@,
        !(old(path).0@.len() > 0 && old(path).0@.last() == room_id) ==> final(path).0@ == old(path).0@.push(room_id),
        no_repeated_rooms(old(path).0@) ==> no_repeated_rooms(final(path).0@),
{
    let n = path.0.len();
    if n > 0 && path.0[n - 1] == room_id {
        return;
    }
    path.0.push(room_id);
}

} // verus!
