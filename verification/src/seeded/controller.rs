use vstd::prelude::*;

verus! {

/// What the pointer is doing in a level of the seeded edition.
#[derive(Debug, Clone, Copy, PartialEq, Eq, Structural, Hash, Default)]
pub enum ControllerState {
    #[default]
    IdlePostSolve,
    IdlePostView,
    /// The pointer drags the player through the maze.
    Solving,
    /// The pointer turns the view.
    Viewing,
}

/// The state after an idle frame: a press on the solid starts solving, a
/// press beside it starts viewing, and without a press nothing changes.
pub fn idle(pressed: bool, ray_hits_solid: bool) -> (r: Option<ControllerState>)
    ensures
        !pressed ==> r is None,
        pressed && ray_hits_solid ==> r == Some(ControllerState::Solving),
        pressed && !ray_hits_solid ==> r == Some(ControllerState::Viewing),
{
    if !pressed {
        None
    } else if ray_hits_solid {
        Some(ControllerState::Solving)
    } else {
        Some(ControllerState::Viewing)
    }
}

/// The state after a frame of viewing: a release ends it.
pub fn view(released: bool) -> (r: Option<ControllerState>)
    ensures
        released ==> r == Some(ControllerState::IdlePostView),
        !released ==> r is None,
{
    if released {
        Some(ControllerState::IdlePostView)
    } else {
        None
    }
}

/// The state after a frame of solving: a release ends it; otherwise the
/// player keeps being moved.
pub fn solve(released: bool) -> (r: Option<ControllerState>)
    ensures
        released ==> r == Some(ControllerState::IdlePostSolve),
        !released ==> r is None,
{
    if released {
        Some(ControllerState::IdlePostSolve)
    } else {
        None
    }
}

/// Where a player being dragged along a passage ends up.
#[derive(Debug, Clone, Copy, PartialEq, Eq, Structural)]
pub enum EdgeSnap {
    /// Close enough to the room the passage leads to: the player stands there.
    ToRoom,
    /// Close enough to the room the passage comes from: the player is back there.
    FromRoom,
    /// The player stays on the passage, at the pointer.
    OnEdge,
}

/// Where the dragged player ends up, given whether the pointer is within
/// snapping distance of the room ahead and of the room behind; the room
/// ahead is preferred.
pub fn move_player_on_edge(near_to_room: bool, near_from_room: bool) -> (r: EdgeSnap)
    ensures
        near_to_room ==> r == EdgeSnap::ToRoom,
        !near_to_room && near_from_room ==> r == EdgeSnap::FromRoom,
        !near_to_room && !near_from_room ==> r == EdgeSnap::OnEdge,
{
    if near_to_room {
        EdgeSnap::ToRoom
    } else if near_from_room {
        EdgeSnap::FromRoom
    } else {
        EdgeSnap::OnEdge
    }
}

} // verus!
