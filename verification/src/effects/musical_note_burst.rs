use vstd::prelude::*;

verus! {

/// The note image of a burst: a crotchet for even room ids, a quaver for odd
/// ones.
pub fn burst_shows_crotchet(room_id: u64) -> (r: bool)
    ensures
        r == (room_id % 2 == 0),
{
    room_id % 2 == 0
}

} // verus!
