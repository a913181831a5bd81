use vstd::prelude::*;

use crate::game_save::{LevelIndex, PuzzleIdentifier, PuzzleKey};
use crate::game_state::GameState;
use crate::levels::{
    lemma_levels_have_one_to_nine_rooms_per_edge, level_table, levels, GameLevel, Shape, LEVEL_COUNT,
};
use crate::play_statistics::{statistics_contents, working_level, PlayStatistics, PuzzleStatisticsView};
use crate::shape::icosahedron;
use crate::shape::shape_loader::{contains_index, lemma_push_to_set};

verus! {

/// The icosahedron face that shows each entry of the level selector.
pub const FACE_ORDER: [usize; 20] = [0, 2, 1, 4, 3, 11, 12, 5, 6, 7, 8, 19, 17, 16, 15, 14, 13, 10, 9, 18];

/// The working level from which the easy daily level can be played.
pub const EASY_DAILY_POSITION: usize = 7;

/// The working level from which the hard daily level can be played.
pub const HARD_DAILY_POSITION: usize = 15;

/// The number of entries of the level selector.
pub const SELECTOR_OPTION_COUNT: usize = 20;

/// An entry of the level selector.
#[derive(Debug, Clone, Copy, PartialEq, Eq, Structural)]
pub enum SelectorOption {
    Level(LevelIndex),
    EasyDaily,
    HardDaily,
}

/// The entries of the level selector, face by face.
pub open spec fn selector_option_table() -> Seq<SelectorOption> {
    seq![
        SelectorOption::Level(0),
        SelectorOption::Level(1),
        SelectorOption::Level(2),
        SelectorOption::Level(3),
        SelectorOption::Level(4),
        SelectorOption::Level(5),
        SelectorOption::Level(6),
        SelectorOption::EasyDaily,
        SelectorOption::Level(7),
        SelectorOption::Level(8),
        SelectorOption::Level(9),
        SelectorOption::Level(10),
        SelectorOption::Level(11),
        SelectorOption::Level(12),
        SelectorOption::Level(13),
        SelectorOption::Level(14),
        SelectorOption::HardDaily,
        SelectorOption::Level(15),
        SelectorOption::Level(16),
        SelectorOption::Level(17),
    ]
}

/// The entries of the level selector, face by face.
pub fn selector_options() -> (r: Vec<SelectorOption>)
    ensures
        r@ == selector_option_table(),
        r@.len() == SELECTOR_OPTION_COUNT,
{
    let r = vec![
        SelectorOption::Level(0),
        SelectorOption::Level(1),
        SelectorOption::Level(2),
        SelectorOption::Level(3),
        SelectorOption::Level(4),
        SelectorOption::Level(5),
        SelectorOption::Level(6),
        SelectorOption::EasyDaily,
        SelectorOption::Level(7),
        SelectorOption::Level(8),
        SelectorOption::Level(9),
        SelectorOption::Level(10),
        SelectorOption::Level(11),
        SelectorOption::Level(12),
        SelectorOption::Level(13),
        SelectorOption::Level(14),
        SelectorOption::HardDaily,
        SelectorOption::Level(15),
        SelectorOption::Level(16),
        SelectorOption::Level(17),
    ];
    assert(r@ =~= selector_option_table());
    r
}

/// Whether `c` is an ASCII digit.
pub open spec fn is_ascii_digit(c: char) -> bool {
    48 <= c as int <= 57
}

/// The number written by two ASCII digits.
pub open spec fn two_digit_value(tens: char, ones: char) -> int {
    10 * (tens as int - 48) + (ones as int - 48)
}

/// Whether `year` is a year as `%Y` writes it: at least four digits, with a
/// sign in front outside the years 0 to 9999.
pub open spec fn is_year_text(year: Seq<char>) -> bool {
    let digits = if year.len() > 0 && (year[0] == '+' || year[0] == '-') {
        year.drop_first()
    } else {
        year
    };
    &&& digits.len() >= 4
    &&& forall|i: int| 0 <= i < digits.len() ==> is_ascii_digit(#[trigger] digits[i])
}

/// Whether `id` is a date as `%Y-%m-%d` writes it: a year, a dash, a month
/// of two digits from 01 to 12, a dash, and a day of two digits from 01 to
/// 31.
pub open spec fn is_date_id(id: Seq<char>) -> bool {
    let n = id.len() as int;
    &&& n >= 10
    &&& is_year_text(id.subrange(0, n - 6))
    &&& id[n - 6] == '-'
    &&& is_ascii_digit(id[n - 5])
    &&& is_ascii_digit(id[n - 4])
    &&& 1 <= two_digit_value(id[n - 5], id[n - 4]) <= 12
    &&& id[n - 3] == '-'
    &&& is_ascii_digit(id[n - 2])
    &&& is_ascii_digit(id[n - 1])
    &&& 1 <= two_digit_value(id[n - 2], id[n - 1]) <= 31
}

/// Calls `chrono::Utc::now` and formats the date as `%Y-%m-%d`. Trusted: the
/// result is a date in that form (chrono pads the month and the day to two
/// digits, and the year to four, with a sign outside the years 0 to 9999).
/// Which date rests on the clock and is left unsaid.
#[verifier::external_body]
fn current_date_id() -> (r: String)
    ensures
        is_date_id(r@),
{
    chrono::Utc::now().format("%Y-%m-%d").to_string()
}

/// The puzzle an entry opens, given the date that names today's daily levels.
pub open spec fn spec_puzzle_for(option: SelectorOption, daily_level_id: Seq<char>) -> PuzzleKey {
    match option {
        SelectorOption::Level(level) => PuzzleKey::Level(level),
        SelectorOption::EasyDaily => PuzzleKey::EasyDaily(daily_level_id),
        SelectorOption::HardDaily => PuzzleKey::HardDaily(daily_level_id),
    }
}

impl SelectorOption {
    /// The date that names today's daily levels, as `YYYY-MM-DD`.
    pub fn daily_level_filename() -> (r: String)
        ensures
            is_date_id(r@),
    {
        current_date_id()
    }

    /// The puzzle this entry opens, given the date that names today's daily
    /// levels.
    pub fn puzzle_for(self, daily_level_id: String) -> (r: PuzzleIdentifier)
        ensures
            r@ == spec_puzzle_for(self, daily_level_id@),
    {
        match self {
            SelectorOption::Level(level) => PuzzleIdentifier::Level(level),
            SelectorOption::EasyDaily => PuzzleIdentifier::EasyDaily(daily_level_id),
            SelectorOption::HardDaily => PuzzleIdentifier::HardDaily(daily_level_id),
        }
    }

    /// The puzzle this entry opens today.
    pub fn into_puzzle_identifier(self) -> (r: PuzzleIdentifier)
        ensures
            self matches SelectorOption::Level(level) ==> r@ == PuzzleKey::Level(level),
            self is EasyDaily ==> (r@ matches PuzzleKey::EasyDaily(id) && is_date_id(id)),
            self is HardDaily ==> (r@ matches PuzzleKey::HardDaily(id) && is_date_id(id)),
    {
        match self {
            SelectorOption::Level(level) => PuzzleIdentifier::Level(level),
            _ => self.puzzle_for(Self::daily_level_filename()),
        }
    }
}

/// Whether an entry can be played at the given working level.
pub open spec fn spec_level_playable(option: SelectorOption, working_level: usize) -> bool {
    match option {
        SelectorOption::Level(level) => level <= working_level,
        SelectorOption::EasyDaily => working_level >= EASY_DAILY_POSITION,
        SelectorOption::HardDaily => working_level >= HARD_DAILY_POSITION,
    }
}

/// Whether an entry can be played at the given working level: built-in levels
/// up to the working level, and each daily level once its position is reached.
pub fn level_playable(option: SelectorOption, working_level: usize) -> (r: bool)
    ensures
        r == spec_level_playable(option, working_level),
{
    match option {
        SelectorOption::Level(level) => level <= working_level,
        SelectorOption::EasyDaily => working_level >= EASY_DAILY_POSITION,
        SelectorOption::HardDaily => working_level >= HARD_DAILY_POSITION,
    }
}

/// The material of a face of the level selector.
#[derive(Debug, Clone, Copy, PartialEq, Eq, Structural)]
pub enum SelectorFace {
    /// The puzzle has been solved.
    Completed,
    /// The puzzle is the next one to play; it shows the face colour of the
    /// given selector position.
    Incomplete(usize),
    /// The puzzle cannot be played yet.
    Unavailable,
}

/// The material of the face of an entry.
pub open spec fn spec_face_material(option: SelectorOption, puzzle_completed: bool, working_level: usize) -> SelectorFace {
    if puzzle_completed {
        SelectorFace::Completed
    } else {
        match option {
            SelectorOption::Level(level) => if level == working_level {
                SelectorFace::Incomplete(level)
            } else {
                SelectorFace::Unavailable
            },
            SelectorOption::EasyDaily => if working_level >= EASY_DAILY_POSITION {
                SelectorFace::Incomplete(EASY_DAILY_POSITION)
            } else {
                SelectorFace::Unavailable
            },
            SelectorOption::HardDaily => if working_level >= HARD_DAILY_POSITION {
                SelectorFace::Incomplete(HARD_DAILY_POSITION)
            } else {
                SelectorFace::Unavailable
            },
        }
    }
}

/// The material of the face of an entry: completed puzzles first, then the
/// working level and the unlocked daily levels, and every other entry
/// unavailable.
pub fn face_material(option: SelectorOption, puzzle_completed: bool, working_level: usize) -> (r: SelectorFace)
    ensures
        r == spec_face_material(option, puzzle_completed, working_level),
{
    if puzzle_completed {
        return SelectorFace::Completed;
    }
    match option {
        SelectorOption::Level(level) => if level == working_level {
            SelectorFace::Incomplete(level)
        } else {
            SelectorFace::Unavailable
        },
        SelectorOption::EasyDaily => if working_level >= EASY_DAILY_POSITION {
            SelectorFace::Incomplete(EASY_DAILY_POSITION)
        } else {
            SelectorFace::Unavailable
        },
        SelectorOption::HardDaily => if working_level >= HARD_DAILY_POSITION {
            SelectorFace::Incomplete(HARD_DAILY_POSITION)
        } else {
            SelectorFace::Unavailable
        },
    }
}

/// The material of the symbols drawn on a face of the level selector.
#[derive(Debug, Clone, Copy, PartialEq, Eq, Structural)]
pub enum SymbolMaterial {
    /// A melody has been found in the puzzle.
    MelodyFound,
    /// The puzzle can be played.
    Available,
    /// The puzzle cannot be played yet.
    Unavailable,
}

/// The material of the symbols of an entry.
pub open spec fn spec_symbol_material(option: SelectorOption, melody_discovered: bool, working_level: usize) -> SymbolMaterial {
    if melody_discovered {
        SymbolMaterial::MelodyFound
    } else {
        match option {
            SelectorOption::Level(level) => if level > working_level {
                SymbolMaterial::Unavailable
            } else {
                SymbolMaterial::Available
            },
            SelectorOption::EasyDaily => if working_level >= EASY_DAILY_POSITION {
                SymbolMaterial::Available
            } else {
                SymbolMaterial::Unavailable
            },
            SelectorOption::HardDaily => if working_level >= HARD_DAILY_POSITION {
                SymbolMaterial::Available
            } else {
                SymbolMaterial::Unavailable
            },
        }
    }
}

/// The material of the symbols of an entry: a found melody shows first, then
/// whether the entry can be played.
pub fn symbol_material(option: SelectorOption, melody_discovered: bool, working_level: usize) -> (r: SymbolMaterial)
    ensures
        r == spec_symbol_material(option, melody_discovered, working_level),
        !melody_discovered ==> (r == SymbolMaterial::Available <==> spec_level_playable(option, working_level)),
{
    if melody_discovered {
        return SymbolMaterial::MelodyFound;
    }
    if level_playable(option, working_level) {
        SymbolMaterial::Available
    } else {
        SymbolMaterial::Unavailable
    }
}

/// Whether the puzzle has been solved.
pub fn puzzle_completed(play_statistics: &PlayStatistics, puzzle: &PuzzleIdentifier) -> (r: bool)
    ensures
        r == (statistics_contents(play_statistics.0).contains_key(puzzle@) && statistics_contents(
            play_statistics.0,
        )[puzzle@].completed),
{
    match play_statistics.0.get(puzzle) {
        Some(statistics) => statistics.completed,
        None => false,
    }
}

/// Whether a melody has been found in the puzzle.
pub fn melody_discovered(play_statistics: &PlayStatistics, puzzle: &PuzzleIdentifier) -> (r: bool)
    ensures
        r == (statistics_contents(play_statistics.0).contains_key(puzzle@) && statistics_contents(
            play_statistics.0,
        )[puzzle@].discovered_melody is Some),
{
    match play_statistics.0.get(puzzle) {
        Some(statistics) => statistics.discovered_melody.is_some(),
        None => false,
    }
}

/// The number of arrows drawn between consecutive entries of the selector:
/// one per level up to the working level, and one more for each daily level
/// that has been unlocked.
pub open spec fn spec_total_path_size(working_level: usize) -> int {
    working_level + if working_level >= HARD_DAILY_POSITION {
        2int
    } else if working_level >= EASY_DAILY_POSITION {
        1int
    } else {
        0int
    }
}

/// The number of arrows drawn on the selector: the path size, up to the
/// last entry.
pub open spec fn spec_path_edge_count(working_level: usize) -> int {
    if spec_total_path_size(working_level) < SELECTOR_OPTION_COUNT - 1 {
        spec_total_path_size(working_level)
    } else {
        SELECTOR_OPTION_COUNT - 1
    }
}

/// The arrows drawn between consecutive entries of the selector, as pairs of
/// entry positions. The path size is counted without bound, so that from
/// the last entries on every arrow is drawn.
pub fn selector_path_edges(working_level: usize) -> (r: Vec<(usize, usize)>)
    ensures
        r@.len() == spec_path_edge_count(working_level),
        forall|i: int| 0 <= i < r@.len() ==> #[trigger] r@[i] == (i as usize, (i + 1) as usize),
{
    let total_path_size: usize = if working_level >= SELECTOR_OPTION_COUNT {
        SELECTOR_OPTION_COUNT
    } else {
        working_level + if working_level >= HARD_DAILY_POSITION {
            2
        } else if working_level >= EASY_DAILY_POSITION {
            1
        } else {
            0
        }
    };
    let mut edges: Vec<(usize, usize)> = Vec::new();
    let mut i: usize = 0;
    while i < total_path_size && i + 1 < SELECTOR_OPTION_COUNT
        invariant
            i <= total_path_size,
            i < SELECTOR_OPTION_COUNT,
            total_path_size < SELECTOR_OPTION_COUNT - 1 ==> total_path_size == spec_total_path_size(working_level),
            total_path_size >= SELECTOR_OPTION_COUNT - 1 ==> spec_total_path_size(working_level) >= SELECTOR_OPTION_COUNT - 1,
            edges@.len() == i,
            forall|j: int| 0 <= j < i ==> #[trigger] edges@[j] == (j as usize, (j + 1) as usize),
        decreases total_path_size - i,
    {
        edges.push((i, i + 1));
        i = i + 1;
    }
    edges
}

/// The position of a symbol in the symbol sprite sheet, as column and row.
pub open spec fn spec_shape_symbol_coordinate(shape: Shape) -> (u8, u8) {
    match shape {
        Shape::Tetrahedron(_) => (4, 1),
        Shape::Cube(_) => (3, 1),
        Shape::Octahedron(_) => (2, 1),
        Shape::Dodecahedron(_) => (1, 1),
        Shape::Icosahedron(_) => (0, 1),
    }
}

/// The sprite of the symbol shown on an entry: the level's solid, or the
/// calendar of a daily level.
pub open spec fn spec_symbol_coordinate(option: SelectorOption) -> (u8, u8) {
    match option {
        SelectorOption::Level(level) => spec_shape_symbol_coordinate(level_table()[level as int].shape),
        _ => (0, 4),
    }
}

/// The sprite of the symbol shown on an entry.
pub fn symbol_coordinate(option: SelectorOption) -> (r: (u8, u8))
    requires
        option matches SelectorOption::Level(level) ==> level < LEVEL_COUNT,
    ensures
        r == spec_symbol_coordinate(option),
{
    match option {
        SelectorOption::Level(level) => {
            let table = levels();
            match table[level].shape {
                Shape::Tetrahedron(_) => (4, 1),
                Shape::Cube(_) => (3, 1),
                Shape::Octahedron(_) => (2, 1),
                Shape::Dodecahedron(_) => (1, 1),
                Shape::Icosahedron(_) => (0, 1),
            }
        },
        _ => (0, 4),
    }
}

/// The sprite of a digit from 1 to 9: the digits fill rows of five from row 2.
pub fn number_symbol_coordinate(number: u8) -> (r: (u8, u8))
    requires
        number >= 1,
    ensures
        r.0 == (number - 1) % 5,
        r.1 == 2 + (number - 1) / 5,
{
    let y_coord = 2 + (number - 1) / 5;
    let x_coord = (number - 1) % 5;
    (x_coord, y_coord)
}

/// The sprite of a digit in the symbol sheet: the digits from 1 fill rows of
/// five from row 2.
pub open spec fn spec_number_coordinate(number: u8) -> (u8, u8) {
    (((number - 1) % 5) as u8, (2 + (number - 1) / 5) as u8)
}

/// An entry of the level selector as it is first shown.
#[derive(Debug, Clone, Copy)]
pub struct SelectorEntry {
    pub option: SelectorOption,
    /// The icosahedron face that shows the entry.
    pub face_index: usize,
    pub face: SelectorFace,
    /// The sprite of the entry's symbol.
    pub symbol: (u8, u8),
    pub symbol_material: SymbolMaterial,
    /// The sprite of the number of rooms per edge of a built-in level; `None`
    /// for a daily level.
    pub number_symbol: Option<(u8, u8)>,
    /// Whether a melody was found in the entry's puzzle: notes then rise from
    /// the face.
    pub melody_discovered: bool,
}

/// Entry `i` of the selector, given the statistics and the date that names
/// today's daily levels.
pub open spec fn spec_selector_entry(
    i: int,
    statistics: Map<PuzzleKey, PuzzleStatisticsView>,
    daily_level_id: Seq<char>,
) -> SelectorEntry {
    let option = selector_option_table()[i];
    let puzzle = spec_puzzle_for(option, daily_level_id);
    let completed = statistics.contains_key(puzzle) && statistics[puzzle].completed;
    let melody = statistics.contains_key(puzzle) && statistics[puzzle].discovered_melody is Some;
    let working = working_level(statistics);
    SelectorEntry {
        option,
        face_index: FACE_ORDER@[i],
        face: spec_face_material(option, completed, working),
        symbol: spec_symbol_coordinate(option),
        symbol_material: spec_symbol_material(option, melody, working),
        number_symbol: match option {
            SelectorOption::Level(level) => Some(spec_number_coordinate(level_table()[level as int].nodes_per_edge)),
            _ => None,
        },
        melody_discovered: melody,
    }
}

/// The level selector as it is first shown: its entries, face by face, and
/// the arrows of the path between consecutive entries.
pub struct SelectorLayout {
    pub entries: Vec<SelectorEntry>,
    pub path_edges: Vec<(usize, usize)>,
}

/// Whether `edges` are the arrows of the path at the working level: one from
/// each entry to the next, as many as `spec_path_edge_count` says.
pub open spec fn path_edges_for(edges: Seq<(usize, usize)>, working_level: usize) -> bool {
    &&& edges.len() == spec_path_edge_count(working_level)
    &&& forall|i: int| 0 <= i < edges.len() ==> #[trigger] edges[i] == (i as usize, (i + 1) as usize)
}

/// The selector for the daily levels named by `daily_level_id`: its entries,
/// face by face, and the arrows up to the working level.
pub fn load_for_date(play_statistics: &PlayStatistics, daily_level_id: String) -> (r: SelectorLayout)
    ensures
        selector_entries_for(r.entries@, statistics_contents(play_statistics.0), daily_level_id@),
        path_edges_for(r.path_edges@, working_level(statistics_contents(play_statistics.0))),
{
    let working = play_statistics.get_working_level();
    let options = selector_options();
    let table = levels();
    let mut entries: Vec<SelectorEntry> = Vec::new();
    let mut i: usize = 0;
    while i < options.len()
        invariant
            options@ == selector_option_table(),
            options@.len() == SELECTOR_OPTION_COUNT,
            table@ == level_table(),
            table@.len() == LEVEL_COUNT,
            working == working_level(statistics_contents(play_statistics.0)),
            i <= options@.len(),
            entries@.len() == i,
            forall|j: int|
                0 <= j < i ==> #[trigger] entries@[j] == spec_selector_entry(
                    j,
                    statistics_contents(play_statistics.0),
                    daily_level_id@,
                ),
        decreases options@.len() - i,
    {
        let option = options[i];
        assert(option matches SelectorOption::Level(level) ==> level < LEVEL_COUNT) by {
            assert(option == selector_option_table()[i as int]);
        }
        let puzzle = option.puzzle_for(daily_level_id.clone());
        let completed = puzzle_completed(play_statistics, &puzzle);
        let melody = melody_discovered(play_statistics, &puzzle);
        let number_symbol = match option {
            SelectorOption::Level(level) => {
                proof {
                    lemma_levels_have_one_to_nine_rooms_per_edge();
                }
                Some(number_symbol_coordinate(table[level].nodes_per_edge))
            },
            _ => None,
        };
        let entry = SelectorEntry {
            option,
            face_index: FACE_ORDER[i],
            face: face_material(option, completed, working),
            symbol: symbol_coordinate(option),
            symbol_material: symbol_material(option, melody, working),
            number_symbol,
            melody_discovered: melody,
        };
        entries.push(entry);
        i = i + 1;
    }
    SelectorLayout { entries, path_edges: selector_path_edges(working) }
}

/// Whether `entries` are the selector's entries, face by face, for the
/// statistics and the daily levels named by `daily_level_id`.
pub open spec fn selector_entries_for(
    entries: Seq<SelectorEntry>,
    statistics: Map<PuzzleKey, PuzzleStatisticsView>,
    daily_level_id: Seq<char>,
) -> bool {
    &&& entries.len() == SELECTOR_OPTION_COUNT
    &&& forall|i: int|
        0 <= i < SELECTOR_OPTION_COUNT ==> #[trigger] entries[i] == spec_selector_entry(i, statistics, daily_level_id)
}

/// The selector for today's daily levels: its entries, face by face, and the
/// arrows up to the working level. Today's date is read from the clock; of it
/// only its form is known.
pub fn load(play_statistics: &PlayStatistics) -> (r: SelectorLayout)
    ensures
        exists|daily_level_id: Seq<char>|
            #[trigger] selector_entries_for(r.entries@, statistics_contents(play_statistics.0), daily_level_id)
                && is_date_id(daily_level_id),
        path_edges_for(r.path_edges@, working_level(statistics_contents(play_statistics.0))),
{
    let daily_level_id = SelectorOption::daily_level_filename();
    let ghost id = daily_level_id@;
    let r = load_for_date(play_statistics, daily_level_id);
    assert(selector_entries_for(r.entries@, statistics_contents(play_statistics.0), id) && is_date_id(id));
    r
}

/// The state of the selector's input.
#[derive(Debug, Clone, Copy, PartialEq, Eq, Structural, Hash, Default)]
pub enum SelectorState {
    Clicked,
    #[default]
    Idle,
}

/// Follows presses of the pointer: a press that comes after two frames
/// without one starts a click, and a release makes the selector idle. The two
/// previous frames are remembered, oldest first.
pub fn set_selector_state(previous_presses: &mut (bool, bool), pressed: bool) -> (r: Option<SelectorState>)
    ensures
        r == (if !old(previous_presses).0 && !old(previous_presses).1 && pressed {
            Some(SelectorState::Clicked)
        } else if !pressed {
            Some(SelectorState::Idle)
        } else {
            None
        }),
        *final(previous_presses) == (old(previous_presses).1, pressed),
{
    let (penultimate, last) = *previous_presses;
    let r = if !penultimate && !last && pressed {
        Some(SelectorState::Clicked)
    } else if !pressed {
        Some(SelectorState::Idle)
    } else {
        None
    };
    *previous_presses = (last, pressed);
    r
}

/// The highlight of a face of the level selector.
#[derive(Debug, Clone, Copy, PartialEq, Eq, Structural)]
pub enum SelectorOverlayState {
    Hovered,
    Pressed,
    Unselected,
}

/// A face of the level selector: its entity, its highlight and its entry.
#[derive(Debug, Clone, Copy, PartialEq, Eq, Structural)]
pub struct SelectableFace {
    pub entity: u64,
    pub overlay_state: SelectorOverlayState,
    pub option: SelectorOption,
}

/// The face where a touch started: a press that begins on the face at the
/// centre of the view starts there, a release forgets it.
pub open spec fn next_start_touch(
    previous_pressed: bool,
    pressed: bool,
    touch_entity: Option<u64>,
    center_entity: u64,
    start_touch_entity: Option<u64>,
) -> Option<u64> {
    if !previous_pressed && touch_entity == Some(center_entity) {
        touch_entity
    } else if !pressed {
        None
    } else {
        start_touch_entity
    }
}

/// The highlight a face should have: faces away from the centre of the view
/// have none; the centre face is pressed while a touch that started on it
/// holds it, hovered otherwise, and only when its entry can be played.
pub open spec fn spec_overlay_state(is_center: bool, selected_face_pressed: bool, playable: bool) -> SelectorOverlayState {
    if !is_center {
        SelectorOverlayState::Unselected
    } else if selected_face_pressed && playable {
        SelectorOverlayState::Pressed
    } else if playable {
        SelectorOverlayState::Hovered
    } else {
        SelectorOverlayState::Unselected
    }
}

/// The face after an update of the highlights.
pub open spec fn updated_face(face: SelectableFace, center_entity: u64, selected_face_pressed: bool, working_level: usize) -> SelectableFace {
    SelectableFace {
        entity: face.entity,
        overlay_state: spec_overlay_state(
            face.entity == center_entity,
            selected_face_pressed,
            spec_level_playable(face.option, working_level),
        ),
        option: face.option,
    }
}

/// Whether the face is chosen: it was pressed, is now only hovered, and no
/// touch is held.
pub open spec fn face_selects(
    face: SelectableFace,
    center_entity: u64,
    selected_face_pressed: bool,
    working_level: usize,
    touch_released: bool,
) -> bool {
    &&& face.overlay_state == SelectorOverlayState::Pressed
    &&& updated_face(face, center_entity, selected_face_pressed, working_level).overlay_state
        == SelectorOverlayState::Hovered
    &&& touch_released
}

/// Only an entry that may be played can be chosen: a face that selects holds
/// a playable entry, whatever the input.
pub proof fn lemma_only_playable_entries_selected(
    face: SelectableFace,
    center_entity: u64,
    selected_face_pressed: bool,
    working_level: usize,
    touch_released: bool,
)
    requires
        face_selects(face, center_entity, selected_face_pressed, working_level, touch_released),
    ensures
        spec_level_playable(face.option, working_level),
{
}

/// The arrows of the selector's path lead exactly to the working level's
/// entry: for every working level that names a built-in level, the number of
/// arrows is the position of that level's entry among the selector's entries
/// (the daily entries that come before it included), and once every level is
/// done the path runs to the last entry.
pub proof fn lemma_path_reaches_the_working_level(working_level: usize)
    ensures
        working_level < LEVEL_COUNT ==> {
            &&& 0 <= spec_path_edge_count(working_level) < SELECTOR_OPTION_COUNT
            &&& selector_option_table()[spec_path_edge_count(working_level)] == SelectorOption::Level(working_level)
        },
        working_level >= LEVEL_COUNT ==> spec_path_edge_count(working_level) == SELECTOR_OPTION_COUNT - 1,
{
}

/// More progress never shortens the path: the number of arrows grows with the
/// working level.
pub proof fn lemma_path_grows_with_progress(w1: usize, w2: usize)
    requires
        w1 <= w2,
    ensures
        spec_path_edge_count(w1) <= spec_path_edge_count(w2),
{
}

/// The face of an entry that is not solved shows a colour exactly when the
/// entry can be played at the working level and is the next one to play: a
/// built-in level when it is the working level, a daily level whenever it is
/// playable. A built-in level shows its own level's colour; a daily level
/// shows the colour of the first working level from which it can be played.
/// A solved entry is always shown as solved.
pub proof fn lemma_face_shows_what_can_be_played(option: SelectorOption, completed: bool, working_level: usize)
    ensures
        completed ==> spec_face_material(option, completed, working_level) == SelectorFace::Completed,
        !completed && option is Level ==> (spec_face_material(option, completed, working_level) is Incomplete
            <==> option->Level_0 == working_level),
        !completed && !(option is Level) ==> (spec_face_material(option, completed, working_level) is Incomplete
            <==> spec_level_playable(option, working_level)),
        !completed && !(option is Level) ==> (spec_face_material(option, completed, working_level) is Unavailable
            <==> !spec_level_playable(option, working_level)),
        spec_face_material(option, completed, working_level) matches SelectorFace::Incomplete(colour) ==> {
            &&& option is Level ==> colour == option->Level_0
            &&& !(option is Level) ==> spec_level_playable(option, colour) && (colour > 0 ==> !spec_level_playable(
                option,
                (colour - 1) as usize,
            ))
        },
{
}

/// Built-in levels can be played up to the working level and no further, and
/// what can be played stays playable as the working level grows.
pub proof fn lemma_playable_up_to_working_level(option: SelectorOption, w1: usize, w2: usize)
    requires
        w1 <= w2,
    ensures
        option matches SelectorOption::Level(level) ==> (spec_level_playable(option, w1) <==> level <= w1),
        spec_level_playable(option, w1) ==> spec_level_playable(option, w2),
{
}

/// A daily level, once it can be played, stays playable and keeps its colour
/// as the working level grows. The easy daily level can be played from
/// working level 7, where it sits on the selector, and the hard one from
/// working level 15; neither before.
pub proof fn lemma_daily_faces_stay_unlocked(option: SelectorOption, w1: usize, w2: usize)
    requires
        !(option is Level),
        w1 <= w2,
    ensures
        spec_face_material(option, false, w1) is Incomplete ==> spec_face_material(option, false, w2)
            == spec_face_material(option, false, w1),
        option is EasyDaily ==> (spec_level_playable(option, w1) <==> w1 >= 7),
        option is HardDaily ==> (spec_level_playable(option, w1) <==> w1 >= 15),
        option is EasyDaily ==> selector_option_table()[7] == option,
        option is HardDaily ==> selector_option_table()[16] == option,
{
}

/// The screen that a chosen entry leads to: a built-in level opens at once, a
/// daily level must first be fetched.
pub fn next_game_state(option: SelectorOption) -> (r: GameState)
    ensures
        option is Level ==> r == GameState::Puzzle,
        !(option is Level) ==> r == GameState::LoadingRemoteLevel,
{
    match option {
        SelectorOption::Level(_) => GameState::Puzzle,
        _ => GameState::LoadingRemoteLevel,
    }
}

/// Updates the highlights of the selector's faces for one frame of input and
/// says which entry, if any, the player has chosen. The faces are visited in
/// order; on the first face that is chosen the update stops, leaving that
/// face and the later ones as they were.
pub fn update_interactables(
    faces: &mut Vec<SelectableFace>,
    center_entity: u64,
    touch_entity: Option<u64>,
    previous_pressed: bool,
    pressed: bool,
    start_touch_entity: &mut Option<u64>,
    working_level: usize,
) -> (r: Option<SelectorOption>)
    ensures
        *final(start_touch_entity) == next_start_touch(
            previous_pressed,
            pressed,
            touch_entity,
            center_entity,
            *old(start_touch_entity),
        ),
        final(faces)@.len() == old(faces)@.len(),
        ({
            let start = next_start_touch(previous_pressed, pressed, touch_entity, center_entity, *old(start_touch_entity));
            let sfp = touch_entity == start && touch_entity == Some(center_entity);
            match r {
                None => forall|i: int| 0 <= i < old(faces)@.len() ==> {
                    &&& !face_selects(#[trigger] old(faces)@[i], center_entity, sfp, working_level, start is None)
                    &&& final(faces)@[i] == updated_face(old(faces)@[i], center_entity, sfp, working_level)
                },
                Some(option) => exists|k: int| {
                    &&& 0 <= k < old(faces)@.len()
                    &&& face_selects(#[trigger] old(faces)@[k], center_entity, sfp, working_level, start is None)
                    &&& option == old(faces)@[k].option
                    &&& forall|i: int| 0 <= i < k ==> !face_selects(#[trigger] old(faces)@[i], center_entity, sfp, working_level, start is None)
                        && final(faces)@[i] == updated_face(old(faces)@[i], center_entity, sfp, working_level)
                    &&& forall|i: int| k <= i < old(faces)@.len() ==> #[trigger] final(faces)@[i] == old(faces)@[i]
                },
            }
        }),
{
    let touch_matches_center = match touch_entity {
        Some(entity) => entity == center_entity,
        None => false,
    };
    let start = if !previous_pressed && touch_matches_center {
        touch_entity
    } else if !pressed {
        None
    } else {
        *start_touch_entity
    };
    *start_touch_entity = start;
    let selected_face_pressed = touch_entity == start && touch_matches_center;
    let touch_released = start.is_none();
    let ghost initial = faces@;
    let mut i: usize = 0;
    while i < faces.len()
        invariant
            i <= faces@.len(),
            faces@.len() == initial.len(),
            initial == old(faces)@,
            start == next_start_touch(previous_pressed, pressed, touch_entity, center_entity, *old(start_touch_entity)),
            *start_touch_entity == start,
            selected_face_pressed == (touch_entity == start && touch_entity == Some(center_entity)),
            touch_released == (start is None),
            forall|j: int| 0 <= j < i ==> !face_selects(#[trigger] initial[j], center_entity, selected_face_pressed, working_level, touch_released)
                && faces@[j] == updated_face(initial[j], center_entity, selected_face_pressed, working_level),
            forall|j: int| i <= j < faces@.len() ==> #[trigger] faces@[j] == initial[j],
        decreases faces@.len() - i,
    {
        let face = faces[i];
        let playable = level_playable(face.option, working_level);
        let new_state = if face.entity != center_entity {
            SelectorOverlayState::Unselected
        } else if selected_face_pressed && playable {
            SelectorOverlayState::Pressed
        } else if playable {
            SelectorOverlayState::Hovered
        } else {
            SelectorOverlayState::Unselected
        };
        if face.overlay_state == SelectorOverlayState::Pressed && new_state == SelectorOverlayState::Hovered
            && touch_released {
            assert(face_selects(initial[i as int], center_entity, selected_face_pressed, working_level, touch_released));
            return Some(face.option);
        }
        faces.set(i, SelectableFace { entity: face.entity, overlay_state: new_state, option: face.option });
        i = i + 1;
    }
    None
}

/// Whether an entry shows the puzzle: the same built-in level, or the daily
/// level of the same difficulty.
pub open spec fn spec_selector_matches_puzzle(option: SelectorOption, puzzle: PuzzleKey) -> bool {
    match (option, puzzle) {
        (SelectorOption::Level(a), PuzzleKey::Level(b)) => a == b,
        (SelectorOption::EasyDaily, PuzzleKey::EasyDaily(_)) => true,
        (SelectorOption::HardDaily, PuzzleKey::HardDaily(_)) => true,
        _ => false,
    }
}

/// Whether an entry shows the puzzle, used to turn the view towards the
/// puzzle last played.
pub fn selector_matches_puzzle(option: SelectorOption, puzzle: &PuzzleIdentifier) -> (r: bool)
    ensures
        r == spec_selector_matches_puzzle(option, puzzle@),
{
    match (option, puzzle) {
        (SelectorOption::Level(a), PuzzleIdentifier::Level(b)) => a == *b,
        (SelectorOption::EasyDaily, PuzzleIdentifier::EasyDaily(_)) => true,
        (SelectorOption::HardDaily, PuzzleIdentifier::HardDaily(_)) => true,
        _ => false,
    }
}

/// The entry whose face gives the direction of the symbols on the face of
/// entry `level_index`: the previous entry, or the second one for the first.
pub fn neighbouring_entry(level_index: usize) -> (r: usize)
    ensures
        level_index == 0 ==> r == 1,
        level_index > 0 ==> r == level_index - 1,
{
    if level_index == 0 {
        1
    } else {
        level_index - 1
    }
}

/// The icosahedron vertices shared by the face of entry `level_index` and the
/// face of its neighbouring entry, each once.
pub fn selector_edge_vertices(level_index: usize) -> (r: Vec<usize>)
    requires
        level_index < SELECTOR_OPTION_COUNT,
    ensures
        ({
            let other = if level_index == 0 { 1int } else { level_index - 1 };
            let face = icosahedron::FACE_INDICES@[FACE_ORDER@[level_index as int] as int]@;
            let other_face = icosahedron::FACE_INDICES@[FACE_ORDER@[other] as int]@;
            &&& r@.to_set() == face.to_set().intersect(other_face.to_set())
            &&& r@.no_duplicates()
        }),
{
    let other = neighbouring_entry(level_index);
    let face = icosahedron::FACE_INDICES[FACE_ORDER[level_index]];
    let other_face = icosahedron::FACE_INDICES[FACE_ORDER[other]];
    let ghost a = face@;
    let ghost b = other_face@;
    let mut shared: Vec<usize> = Vec::new();
    let mut i: usize = 0;
    while i < 3
        invariant
            i <= 3,
            a == face@,
            b == other_face@,
            a.len() == 3,
            b.len() == 3,
            shared@.to_set() == a.subrange(0, i as int).to_set().intersect(b.to_set()),
            shared@.no_duplicates(),
        decreases 3 - i,
    {
        let x = face[i];
        let in_other = contains_index(&other_face, 3, x);
        let seen = contains_index(&face, i, x);
        proof {
            assert(b.subrange(0, 3) =~= b);
            assert(a.subrange(0, i as int + 1) =~= a.subrange(0, i as int).push(x));
            lemma_push_to_set(a.subrange(0, i as int), x);
        }
        if in_other && !seen {
            proof {
                if shared@.contains(x) {
                    assert(shared@.to_set().contains(x));
                    assert(a.subrange(0, i as int).to_set().contains(x));
                }
                lemma_push_to_set(shared@, x);
            }
            shared.push(x);
            assert(shared@.to_set() =~= a.subrange(0, i as int + 1).to_set().intersect(b.to_set()));
        } else {
            assert(shared@.to_set() =~= a.subrange(0, i as int + 1).to_set().intersect(b.to_set()));
        }
        i = i + 1;
    }
    assert(a.subrange(0, 3) =~= a);
    shared
}

} // verus!
