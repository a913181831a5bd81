use vstd::prelude::*;

use crate::level_selector::{number_symbol_coordinate, spec_number_coordinate, FACE_ORDER};
use crate::seeded::game_save::{
    level_index_set_contents, level_melody_contents, CurrentLevelIndex, LevelIndexSet,
    LevelMelodyMap,
};
use crate::seeded::game_state::GameState;
use crate::seeded::levels::{
    lemma_levels_have_one_to_nine_rooms_per_edge, level_table, levels, Shape, LEVEL_COUNT,
};

verus! {

/// The state of the selector's input.
#[derive(Debug, Clone, Copy, PartialEq, Eq, Structural, Hash, Default)]
pub enum SelectorState {
    Clicked,
    #[default]
    Idle,
}

/// The level shown by a face of the selector.
#[derive(Debug, Clone, Copy, PartialEq, Eq, Structural)]
pub struct SelectableLevel(pub usize);

/// The level chosen in the selector, if any.
#[derive(Debug, Clone, Copy, PartialEq, Eq, Structural)]
pub struct SelectedLevel(pub Option<usize>);

/// The highlight of a face of the selector.
#[derive(Debug, Clone, Copy, PartialEq, Eq, Structural)]
pub enum SelectorOverlayState {
    Hovered,
    Pressed,
    Unselected,
}

/// The material of a face of the selector.
#[derive(Debug, Clone, Copy, PartialEq, Eq, Structural)]
pub enum FaceMaterial {
    /// The level cannot be played yet.
    Unavailable,
    /// The level is the next one to play; it shows its own face colour.
    Incomplete(usize),
    /// The level was solved with a perfect score.
    PerfectScore,
    /// The level was solved.
    Completed,
}

/// The material of a level's face: levels past the working level are
/// unavailable, the working level shows its colour, and the solved levels
/// show whether their score was perfect.
pub open spec fn spec_face_material(level_index: usize, completed_level_index: usize, perfect: bool) -> FaceMaterial {
    if level_index > completed_level_index {
        FaceMaterial::Unavailable
    } else if level_index == completed_level_index {
        FaceMaterial::Incomplete(level_index)
    } else if perfect {
        FaceMaterial::PerfectScore
    } else {
        FaceMaterial::Completed
    }
}

/// A level's face tells the player's progress: levels past the working
/// level are locked, the working level shows its own colour, and every level
/// before it is shown as solved, with a perfect score exactly when it was
/// solved perfectly. Raising the working level never locks a level again.
pub proof fn lemma_seeded_faces_follow_progress(level: usize, completed_level: usize, later_level: usize, perfect: bool)
    requires
        completed_level <= later_level,
    ensures
        spec_face_material(level, completed_level, perfect) is Unavailable <==> level > completed_level,
        spec_face_material(level, completed_level, perfect) matches FaceMaterial::Incomplete(colour) ==> colour == level
            && level == completed_level,
        level < completed_level ==> (spec_face_material(level, completed_level, perfect) == FaceMaterial::PerfectScore
            <==> perfect),
        level < completed_level ==> (spec_face_material(level, completed_level, perfect) is PerfectScore
            || spec_face_material(level, completed_level, perfect) is Completed),
        !(spec_face_material(level, completed_level, perfect) is Unavailable) ==> !(spec_face_material(
            level,
            later_level,
            perfect,
        ) is Unavailable),
{
}

/// The material of a level's face.
pub fn face_material(
    level_index: usize,
    completed_level_index: usize,
    perfect_score_level_indices: &LevelIndexSet,
) -> (r: FaceMaterial)
    ensures
        r == spec_face_material(
            level_index,
            completed_level_index,
            level_index_set_contents(*perfect_score_level_indices).contains(level_index),
        ),
{
    if level_index > completed_level_index {
        FaceMaterial::Unavailable
    } else if level_index == completed_level_index {
        FaceMaterial::Incomplete(level_index)
    } else if perfect_score_level_indices.contains(level_index) {
        FaceMaterial::PerfectScore
    } else {
        FaceMaterial::Completed
    }
}

/// The sprite of a level's solid in the symbol sheet.
pub open spec fn spec_shape_symbol_coordinate(shape: Shape) -> (u8, u8) {
    match shape {
        Shape::Tetrahedron => (4, 1),
        Shape::Cube => (3, 1),
        Shape::Octahedron => (2, 1),
        Shape::Dodecahedron => (1, 1),
        Shape::Icosahedron => (0, 1),
    }
}

/// The sprite of a level's solid in the symbol sheet.
pub fn shape_symbol_coordinate(shape: Shape) -> (r: (u8, u8))
    ensures
        r == spec_shape_symbol_coordinate(shape),
{
    match shape {
        Shape::Tetrahedron => (4, 1),
        Shape::Cube => (3, 1),
        Shape::Octahedron => (2, 1),
        Shape::Dodecahedron => (1, 1),
        Shape::Icosahedron => (0, 1),
    }
}

/// A face of the selector as it is first shown.
#[derive(Debug, Clone, Copy)]
pub struct SelectorFace {
    pub level_index: usize,
    /// The icosahedron face that shows the level.
    pub face_index: usize,
    pub material: FaceMaterial,
    /// The sprite of the level's solid.
    pub shape_symbol: (u8, u8),
    /// The sprite of the number of rooms per edge.
    pub number_symbol: (u8, u8),
    /// Whether a melody was found in the level: its symbols are then drawn in
    /// the melody colour and notes rise from the face.
    pub melody_discovered: bool,
}

/// The face of the selector for level `i` of the level table.
pub open spec fn spec_selector_face(
    i: int,
    completed_level_index: usize,
    perfect: Set<usize>,
    melodies: Set<usize>,
) -> SelectorFace {
    let level = level_table()[i];
    SelectorFace {
        level_index: i as usize,
        face_index: FACE_ORDER@[i],
        material: spec_face_material(i as usize, completed_level_index, perfect.contains(i as usize)),
        shape_symbol: spec_shape_symbol_coordinate(level.shape),
        number_symbol: spec_number_coordinate(level.nodes_per_edge),
        melody_discovered: melodies.contains(i as usize),
    }
}

/// The faces of the selector, one per level in the order of the level table.
pub fn load(
    completed_level_index: usize,
    perfect_score_level_indices: &LevelIndexSet,
    discovered_melodies: &LevelMelodyMap,
) -> (r: Vec<SelectorFace>)
    ensures
        r@.len() == LEVEL_COUNT,
        forall|i: int|
            0 <= i < LEVEL_COUNT ==> #[trigger] r@[i] == spec_selector_face(
                i,
                completed_level_index,
                level_index_set_contents(*perfect_score_level_indices),
                level_melody_contents(*discovered_melodies).dom(),
            ),
{
    let table = levels();
    let mut faces: Vec<SelectorFace> = Vec::new();
    let mut i: usize = 0;
    while i < table.len()
        invariant
            table@ == level_table(),
            table@.len() == LEVEL_COUNT,
            i <= table@.len(),
            faces@.len() == i,
            forall|j: int|
                0 <= j < i ==> #[trigger] faces@[j] == spec_selector_face(
                    j,
                    completed_level_index,
                    level_index_set_contents(*perfect_score_level_indices),
                    level_melody_contents(*discovered_melodies).dom(),
                ),
        decreases table@.len() - i,
    {
        let level = table[i];
        proof {
            lemma_levels_have_one_to_nine_rooms_per_edge();
        }
        let number_symbol = number_symbol_coordinate(level.nodes_per_edge);
        let face = SelectorFace {
            level_index: i,
            face_index: FACE_ORDER[i],
            material: face_material(i, completed_level_index, perfect_score_level_indices),
            shape_symbol: shape_symbol_coordinate(level.shape),
            number_symbol,
            melody_discovered: discovered_melodies.get(i).is_some(),
        };
        faces.push(face);
        i = i + 1;
    }
    faces
}

/// The arrows of the selector's path: one from each level to the next.
pub fn selector_edges() -> (r: Vec<(usize, usize)>)
    ensures
        r@.len() == LEVEL_COUNT - 1,
        forall|i: int| 0 <= i < LEVEL_COUNT - 1 ==> #[trigger] r@[i] == (i as usize, (i + 1) as usize),
{
    let mut edges: Vec<(usize, usize)> = Vec::new();
    let mut i: usize = 0;
    while i + 1 < LEVEL_COUNT
        invariant
            i + 1 <= LEVEL_COUNT,
            edges@.len() == i,
            forall|j: int| 0 <= j < i ==> #[trigger] edges@[j] == (j as usize, (j + 1) as usize),
        decreases LEVEL_COUNT - i,
    {
        edges.push((i, i + 1));
        i = i + 1;
    }
    edges
}

/// The selector is clicked while the pointer is down and idle otherwise.
pub fn set_selector_state(pressed: bool) -> (r: SelectorState)
    ensures
        pressed ==> r == SelectorState::Clicked,
        !pressed ==> r == SelectorState::Idle,
{
    if pressed {
        SelectorState::Clicked
    } else {
        SelectorState::Idle
    }
}

/// A face of the selector as the input update sees it.
#[derive(Debug, Clone, Copy, PartialEq, Eq, Structural)]
pub struct SelectableFace {
    pub entity: u64,
    pub overlay_state: SelectorOverlayState,
    pub level: SelectableLevel,
}

/// The highlight of a face after one frame: a face other than the one under
/// the centre of the view has none; the face under it stays pressed while
/// the pointer is down and it was highlighted, and is hovered while the
/// pointer is up and its level can be played.
pub open spec fn spec_overlay_state(
    face: SelectableFace,
    intersection: Option<u64>,
    pressed: bool,
    completed_level_index: usize,
) -> SelectorOverlayState {
    match intersection {
        Some(entity) => if entity != face.entity {
            SelectorOverlayState::Unselected
        } else if pressed && face.overlay_state != SelectorOverlayState::Unselected {
            SelectorOverlayState::Pressed
        } else if !pressed && face.level.0 <= completed_level_index {
            SelectorOverlayState::Hovered
        } else {
            SelectorOverlayState::Unselected
        },
        None => SelectorOverlayState::Unselected,
    }
}

/// Whether the face's level is chosen in this frame: it was pressed and is
/// now hovered, that is, the pointer was released over it.
pub open spec fn face_selects(
    face: SelectableFace,
    intersection: Option<u64>,
    pressed: bool,
    completed_level_index: usize,
) -> bool {
    face.overlay_state == SelectorOverlayState::Pressed && spec_overlay_state(
        face,
        intersection,
        pressed,
        completed_level_index,
    ) == SelectorOverlayState::Hovered
}

/// The level chosen among the first `n` faces: that of the last of them
/// that selects, if any.
pub open spec fn chosen_level(
    faces: Seq<SelectableFace>,
    n: int,
    intersection: Option<u64>,
    pressed: bool,
    completed_level_index: usize,
) -> Option<usize>
    decreases n,
{
    if n <= 0 {
        None
    } else if face_selects(faces[n - 1], intersection, pressed, completed_level_index) {
        Some(faces[n - 1].level.0)
    } else {
        chosen_level(faces, n - 1, intersection, pressed, completed_level_index)
    }
}

/// Only a level that may be played can be chosen: whatever the faces and the
/// input, a chosen level is at most the working level.
pub proof fn lemma_chosen_level_is_playable(
    faces: Seq<SelectableFace>,
    n: int,
    intersection: Option<u64>,
    pressed: bool,
    completed_level_index: usize,
)
    ensures
        chosen_level(faces, n, intersection, pressed, completed_level_index) matches Some(level)
            ==> level <= completed_level_index,
    decreases n,
{
    if n > 0 && !face_selects(faces[n - 1], intersection, pressed, completed_level_index) {
        lemma_chosen_level_is_playable(faces, n - 1, intersection, pressed, completed_level_index);
    }
}

/// Updates the highlight of every face for one frame. When a face's level is
/// chosen, it becomes the current level and the game moves to play; should
/// several faces choose, the last one wins.
pub fn update_interactables(
    faces: &mut Vec<SelectableFace>,
    intersection: Option<u64>,
    pressed: bool,
    completed_level_index: usize,
    current_level_index: &mut CurrentLevelIndex,
) -> (r: Option<GameState>)
    ensures
        final(faces)@.len() == old(faces)@.len(),
        forall|i: int|
            0 <= i < old(faces)@.len() ==> #[trigger] final(faces)@[i] == (SelectableFace {
                overlay_state: spec_overlay_state(old(faces)@[i], intersection, pressed, completed_level_index),
                ..old(faces)@[i]
            }),
        ({
            let chosen = chosen_level(old(faces)@, old(faces)@.len() as int, intersection, pressed, completed_level_index);
            &&& r is Some <==> chosen is Some
            &&& r matches Some(s) ==> s == GameState::Playing
            &&& final(current_level_index).0 == (match chosen {
                Some(level) => level,
                None => old(current_level_index).0,
            })
        }),
{
    let ghost initial = faces@;
    let mut chosen: Option<usize> = None;
    let mut i: usize = 0;
    while i < faces.len()
        invariant
            i <= faces@.len(),
            faces@.len() == initial.len(),
            initial == old(faces)@,
            chosen == chosen_level(initial, i as int, intersection, pressed, completed_level_index),
            forall|j: int|
                0 <= j < i ==> #[trigger] faces@[j] == (SelectableFace {
                    overlay_state: spec_overlay_state(initial[j], intersection, pressed, completed_level_index),
                    ..initial[j]
                }),
            forall|j: int| i <= j < faces@.len() ==> #[trigger] faces@[j] == initial[j],
        decreases faces@.len() - i,
    {
        let face = faces[i];
        let level_playable = face.level.0 <= completed_level_index;
        let new_overlay_state = match intersection {
            Some(entity) => if entity != face.entity {
                SelectorOverlayState::Unselected
            } else if pressed && face.overlay_state != SelectorOverlayState::Unselected {
                SelectorOverlayState::Pressed
            } else if !pressed && level_playable {
                SelectorOverlayState::Hovered
            } else {
                SelectorOverlayState::Unselected
            },
            None => SelectorOverlayState::Unselected,
        };
        if face.overlay_state == SelectorOverlayState::Pressed
            && new_overlay_state == SelectorOverlayState::Hovered {
            chosen = Some(face.level.0);
        }
        faces.set(i, SelectableFace { entity: face.entity, overlay_state: new_overlay_state, level: face.level });
        i = i + 1;
    }
    match chosen {
        Some(level) => {
            *current_level_index = CurrentLevelIndex(level);
            Some(GameState::Playing)
        },
        None => None,
    }
}

/// The look of the highlight drawn over a face.
#[derive(Debug, Clone, Copy, PartialEq, Eq, Structural)]
pub enum OverlayMaterial {
    Hover,
    Pressed,
}

/// The highlight drawn over a face in each state: none when unselected.
pub fn selection_overlay(state: SelectorOverlayState) -> (r: Option<OverlayMaterial>)
    ensures
        state == SelectorOverlayState::Unselected ==> r is None,
        state == SelectorOverlayState::Hovered ==> r == Some(OverlayMaterial::Hover),
        state == SelectorOverlayState::Pressed ==> r == Some(OverlayMaterial::Pressed),
{
    match state {
        SelectorOverlayState::Unselected => None,
        SelectorOverlayState::Hovered => Some(OverlayMaterial::Hover),
        SelectorOverlayState::Pressed => Some(OverlayMaterial::Pressed),
    }
}

} // verus!
