use vstd::prelude::*;

use crate::play_statistics::{
    is_highest_completed_level, lemma_working_level_of_highest, level_completed, statistics_contents,
    working_level, PlayStatistics, PuzzleStatistics, PuzzleStatisticsMap, PuzzleStatisticsView,
};
use crate::sound::{Melody, MelodyView};

verus! {

/// The position of a built-in level in the order of play.
pub type LevelIndex = usize;

/// The date that names a daily level, as `YYYY-MM-DD`.
pub type DailyLevelId = String;

/// A puzzle the player can open: a built-in level or one of the two daily levels.
#[derive(Debug, Clone, Hash, PartialEq, Eq)]
pub enum PuzzleIdentifier {
    Level(LevelIndex),
    EasyDaily(DailyLevelId),
    HardDaily(DailyLevelId),
}

/// A puzzle identifier as a mathematical value.
pub enum PuzzleKey {
    Level(usize),
    EasyDaily(Seq<char>),
    HardDaily(Seq<char>),
}

impl View for PuzzleIdentifier {
    type V = PuzzleKey;

    open spec fn view(&self) -> PuzzleKey {
        match self {
            PuzzleIdentifier::Level(level) => PuzzleKey::Level(*level),
            PuzzleIdentifier::EasyDaily(id) => PuzzleKey::EasyDaily(id@),
            PuzzleIdentifier::HardDaily(id) => PuzzleKey::HardDaily(id@),
        }
    }
}

impl PuzzleIdentifier {
    /// A copy of the identifier.
    pub fn clone_identifier(&self) -> (r: PuzzleIdentifier)
        ensures
            r@ == self@,
    {
        match self {
            PuzzleIdentifier::Level(level) => PuzzleIdentifier::Level(*level),
            PuzzleIdentifier::EasyDaily(id) => PuzzleIdentifier::EasyDaily(id.clone()),
            PuzzleIdentifier::HardDaily(id) => PuzzleIdentifier::HardDaily(id.clone()),
        }
    }

    /// Whether the two identifiers name the same puzzle.
    pub fn same_puzzle(&self, other: &PuzzleIdentifier) -> (r: bool)
        ensures
            r == (self@ == other@),
    {
        match (self, other) {
            (PuzzleIdentifier::Level(a), PuzzleIdentifier::Level(b)) => *a == *b,
            (PuzzleIdentifier::EasyDaily(a), PuzzleIdentifier::EasyDaily(b)) => a.eq(b),
            (PuzzleIdentifier::HardDaily(a), PuzzleIdentifier::HardDaily(b)) => a.eq(b),
            _ => false,
        }
    }
}

/// The puzzle that is open or was last open.
#[derive(Debug, Clone)]
pub struct CurrentPuzzle(pub PuzzleIdentifier);

/// The first built-in level that has not been completed.
#[derive(Debug, Clone, Copy)]
pub struct WorkingLevelIndex(pub LevelIndex);

/// A melody the player has found in a puzzle, with the rooms that play it.
#[derive(Debug, Clone)]
pub struct DiscoveredMelody {
    pub melody: Melody,
    pub room_ids: Vec<u64>,
}

/// A discovered melody as a mathematical value.
pub struct DiscoveredMelodyView {
    pub melody: MelodyView,
    pub room_ids: Seq<u64>,
}

impl View for DiscoveredMelody {
    type V = DiscoveredMelodyView;

    open spec fn view(&self) -> DiscoveredMelodyView {
        DiscoveredMelodyView { melody: self.melody@, room_ids: self.room_ids@ }
    }
}

/// What is kept between sessions: the puzzle last open and the statistics of
/// every puzzle.
pub struct GameSave {
    pub current_index: PuzzleIdentifier,
    pub play_statistics: PuzzleStatisticsMap,
}

/// Whether `m` holds exactly the first `highest_level` built-in levels, each
/// completed and without a melody.
pub open spec fn holds_completed_levels(m: Map<PuzzleKey, PuzzleStatisticsView>, highest_level: usize) -> bool {
    &&& forall|k: PuzzleKey| #[trigger] m.contains_key(k) <==> (k matches PuzzleKey::Level(l) && l < highest_level)
    &&& forall|l: usize| l < highest_level ==> #[trigger] m[PuzzleKey::Level(l)].completed
        && m[PuzzleKey::Level(l)].discovered_melody is None
}

impl GameSave {
    /// A save in which the first `highest_level` built-in levels are completed.
    pub fn completed(highest_level: usize) -> (r: GameSave)
        ensures
            r.current_index@ == PuzzleKey::Level(0),
            holds_completed_levels(statistics_contents(r.play_statistics), highest_level),
    {
        let mut play_statistics = PuzzleStatisticsMap::new();
        let mut level: usize = 0;
        while level < highest_level
            invariant
                level <= highest_level,
                holds_completed_levels(statistics_contents(play_statistics), level),
            decreases highest_level - level,
        {
            let ghost before = statistics_contents(play_statistics);
            play_statistics.insert(PuzzleIdentifier::Level(level), PuzzleStatistics::completed());
            proof {
                let after = statistics_contents(play_statistics);
                assert forall|k: PuzzleKey| #[trigger] after.contains_key(k) <==> (k matches PuzzleKey::Level(l) && l < level + 1) by {
                    if let PuzzleKey::Level(l) = k {
                        if l == level {
                            assert(k == PuzzleKey::Level(level));
                        }
                    }
                }
                assert forall|l: usize| l < level + 1 implies #[trigger] after[PuzzleKey::Level(l)].completed
                    && after[PuzzleKey::Level(l)].discovered_melody is None by {
                    if l < level {
                        assert(before.contains_key(PuzzleKey::Level(l)));
                    }
                }
            }
            level = level + 1;
        }
        GameSave { current_index: PuzzleIdentifier::Level(0), play_statistics }
    }
}

/// Once the first `n` built-in levels are completed, level `n` is the working
/// level.
pub proof fn lemma_completed_save_working_level(m: Map<PuzzleKey, PuzzleStatisticsView>, n: usize)
    requires
        holds_completed_levels(m, n),
    ensures
        working_level(m) == n,
{
    if n == 0 {
        assert forall|l: usize| !level_completed(m, l) by {
            assert(!m.contains_key(PuzzleKey::Level(l)));
        }
    } else {
        let h = (n - 1) as usize;
        assert(m.contains_key(PuzzleKey::Level(h)));
        assert(m[PuzzleKey::Level(h)].completed);
        assert(is_highest_completed_level(m, h)) by {
            assert forall|l: usize| #[trigger] level_completed(m, l) implies l <= h by {
                assert(m.contains_key(PuzzleKey::Level(l)));
            }
        }
        lemma_working_level_of_highest(m, h);
    }
}

impl Default for GameSave {
    /// A fresh save: the first level is current and nothing has been played.
    fn default() -> (r: GameSave)
        ensures
            r.current_index@ == PuzzleKey::Level(0),
            statistics_contents(r.play_statistics).dom().is_empty(),
    {
        GameSave { current_index: PuzzleIdentifier::Level(0), play_statistics: PuzzleStatisticsMap::new() }
    }
}

/// The number of built-in levels that a save found on disk is taken to have
/// completed.
pub const RESTORED_COMPLETED_LEVELS: usize = 5;

/// The state a session starts from. When a save could be read, the game
/// starts as if the first five levels were completed (it does not take the
/// contents of the save); otherwise it starts afresh.
pub fn setup(save_was_read: bool) -> (r: (CurrentPuzzle, WorkingLevelIndex, PlayStatistics))
    ensures
        (r.0).0@ == PuzzleKey::Level(0),
        (r.1).0 == working_level(statistics_contents((r.2).0)),
        save_was_read ==> holds_completed_levels(statistics_contents((r.2).0), RESTORED_COMPLETED_LEVELS),
        save_was_read ==> (r.1).0 == RESTORED_COMPLETED_LEVELS,
        !save_was_read ==> statistics_contents((r.2).0).dom().is_empty(),
        !save_was_read ==> (r.1).0 == 0,
{
    let save_data = if save_was_read {
        GameSave::completed(RESTORED_COMPLETED_LEVELS)
    } else {
        GameSave::default()
    };
    let play_statistics = PlayStatistics(save_data.play_statistics);
    let working = play_statistics.get_working_level();
    proof {
        if save_was_read {
            lemma_completed_save_working_level(statistics_contents(play_statistics.0), RESTORED_COMPLETED_LEVELS);
        } else {
            assert forall|l: usize| !level_completed(statistics_contents(play_statistics.0), l) by {
                assert(!statistics_contents(play_statistics.0).dom().contains(PuzzleKey::Level(l)));
            }
        }
    }
    (CurrentPuzzle(save_data.current_index), WorkingLevelIndex(working), play_statistics)
}

/// The save to write when the current puzzle or the statistics have changed;
/// `None` when nothing changed.
pub fn update(
    current_puzzle: &CurrentPuzzle,
    current_puzzle_changed: bool,
    play_statistics: &PlayStatistics,
    play_statistics_changed: bool,
) -> (r: Option<GameSave>)
    ensures
        r is Some <==> current_puzzle_changed || play_statistics_changed,
        r matches Some(save) ==> save.current_index@ == current_puzzle.0@ && statistics_contents(save.play_statistics)
            == statistics_contents(play_statistics.0),
{
    if current_puzzle_changed || play_statistics_changed {
        Some(
            GameSave {
                current_index: current_puzzle.0.clone_identifier(),
                play_statistics: play_statistics.0.clone_map(),
            },
        )
    } else {
        None
    }
}

/// Brings the working level up to date when the statistics have changed.
pub fn update_working_level(
    working_level_index: &mut WorkingLevelIndex,
    play_statistics: &PlayStatistics,
    play_statistics_changed: bool,
)
    ensures
        play_statistics_changed ==> final(working_level_index).0 == working_level(statistics_contents(play_statistics.0)),
        !play_statistics_changed ==> final(working_level_index).0 == old(working_level_index).0,
{
    if play_statistics_changed {
        working_level_index.0 = play_statistics.get_working_level();
    }
}

} // verus!
