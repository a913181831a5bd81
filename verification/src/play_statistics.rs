use vstd::prelude::*;

use crate::game_save::{DiscoveredMelody, DiscoveredMelodyView, LevelIndex, PuzzleIdentifier, PuzzleKey};

verus! {

/// A length of play time: whole seconds and the nanoseconds beyond them, as a
/// duration is kept.
#[derive(Debug, Clone, Copy, PartialEq, Eq, Structural, Hash)]
pub struct PlayTime {
    pub secs: u64,
    pub nanos: u32,
}

impl PlayTime {
    /// No time at all.
    pub fn zero() -> (r: PlayTime)
        ensures
            r == (PlayTime { secs: 0, nanos: 0 }),
    {
        PlayTime { secs: 0, nanos: 0 }
    }
}

/// What is known of the player's attempts at one puzzle.
#[derive(Debug, Clone)]
pub struct PuzzleStatistics {
    pub completed: bool,
    pub time_spent: PlayTime,
    pub discovered_melody: Option<DiscoveredMelody>,
}

/// Puzzle statistics as a mathematical value.
pub struct PuzzleStatisticsView {
    pub completed: bool,
    pub time_spent: PlayTime,
    pub discovered_melody: Option<DiscoveredMelodyView>,
}

impl View for PuzzleStatistics {
    type V = PuzzleStatisticsView;

    open spec fn view(&self) -> PuzzleStatisticsView {
        PuzzleStatisticsView {
            completed: self.completed,
            time_spent: self.time_spent,
            discovered_melody: match self.discovered_melody {
                Some(d) => Some(d@),
                None => None,
            },
        }
    }
}

impl PuzzleStatistics {
    /// The statistics of a puzzle that has been solved.
    pub fn completed() -> (r: PuzzleStatistics)
        ensures
            r.completed,
            r.time_spent == (PlayTime { secs: 0, nanos: 0 }),
            r.discovered_melody is None,
    {
        PuzzleStatistics { completed: true, time_spent: PlayTime::zero(), discovered_melody: None }
    }
}

impl Default for PuzzleStatistics {
    /// The statistics of a puzzle that has just been opened.
    fn default() -> (r: PuzzleStatistics)
        ensures
            !r.completed,
            r.time_spent == (PlayTime { secs: 0, nanos: 0 }),
            r.discovered_melody is None,
    {
        PuzzleStatistics { completed: false, time_spent: PlayTime::zero(), discovered_melody: None }
    }
}

/// The statistics of every puzzle that has been opened, keyed by puzzle.
#[verifier::external_body]
pub struct PuzzleStatisticsMap {
    entries: hashbrown::HashMap<PuzzleIdentifier, PuzzleStatistics>,
}

/// The statistics held by the map, keyed by puzzle.
pub uninterp spec fn statistics_contents(map: PuzzleStatisticsMap) -> Map<PuzzleKey, PuzzleStatisticsView>;

impl PuzzleStatisticsMap {
    /// Calls `hashbrown::HashMap::new`. Trusted: the new map holds nothing.
    #[verifier::external_body]
    pub fn new() -> (map: PuzzleStatisticsMap)
        ensures
            statistics_contents(map).dom().is_empty(),
    {
        PuzzleStatisticsMap { entries: hashbrown::HashMap::new() }
    }

    /// Calls `hashbrown::HashMap::get`. Trusted: the result is the statistics held
    /// for the puzzle, found by equality of identifiers, or `None`.
    #[verifier::external_body]
    pub fn get(&self, puzzle: &PuzzleIdentifier) -> (r: Option<&PuzzleStatistics>)
        ensures
            r is Some <==> statistics_contents(*self).contains_key(puzzle@),
            r matches Some(s) ==> s@ == statistics_contents(*self)[puzzle@],
    {
        self.entries.get(puzzle)
    }

    /// Calls `hashbrown::HashMap::insert`. Trusted: afterwards the map holds
    /// `statistics` for the puzzle and is otherwise unchanged.
    #[verifier::external_body]
    pub fn insert(&mut self, puzzle: PuzzleIdentifier, statistics: PuzzleStatistics)
        ensures
            statistics_contents(*final(self)) == statistics_contents(*old(self)).insert(puzzle@, statistics@),
    {
        self.entries.insert(puzzle, statistics);
    }

    /// Calls `hashbrown::HashMap::remove`. Trusted: the result is what the map
    /// held for the puzzle, and afterwards the map holds nothing for it and is
    /// otherwise unchanged.
    #[verifier::external_body]
    pub fn remove(&mut self, puzzle: &PuzzleIdentifier) -> (r: Option<PuzzleStatistics>)
        ensures
            statistics_contents(*final(self)) == statistics_contents(*old(self)).remove(puzzle@),
            r is Some <==> statistics_contents(*old(self)).contains_key(puzzle@),
            r matches Some(s) ==> s@ == statistics_contents(*old(self))[puzzle@],
    {
        self.entries.remove(puzzle)
    }

    /// Calls `hashbrown::HashMap::iter` and clones each entry. Trusted: the
    /// result lists every entry once, in the map's own order.
    #[verifier::external_body]
    pub fn entries(&self) -> (r: Vec<(PuzzleIdentifier, PuzzleStatistics)>)
        ensures
            forall|i: int| 0 <= i < r@.len() ==> statistics_contents(*self).contains_key(#[trigger] r@[i].0@)
                && statistics_contents(*self)[r@[i].0@] == r@[i].1@,
            forall|k: PuzzleKey| statistics_contents(*self).contains_key(k) ==> exists|i: int| 0 <= i < r@.len() && #[trigger] r@[i].0@ == k,
            forall|i: int, j: int| 0 <= i < j < r@.len() ==> r@[i].0@ != r@[j].0@,
    {
        self.entries.iter().map(|(k, v)| (k.clone(), v.clone())).collect()
    }

    /// Calls `hashbrown::HashMap::clone`. Trusted: the copy holds the same
    /// statistics.
    #[verifier::external_body]
    pub fn clone_map(&self) -> (r: PuzzleStatisticsMap)
        ensures
            statistics_contents(r) == statistics_contents(*self),
    {
        PuzzleStatisticsMap { entries: self.entries.clone() }
    }
}

/// The statistics of every puzzle the player has opened.
pub struct PlayStatistics(pub PuzzleStatisticsMap);

/// Whether built-in level `level` has been completed.
pub open spec fn level_completed(m: Map<PuzzleKey, PuzzleStatisticsView>, level: usize) -> bool {
    m.contains_key(PuzzleKey::Level(level)) && m[PuzzleKey::Level(level)].completed
}

/// Whether `level` is the highest completed built-in level.
pub open spec fn is_highest_completed_level(m: Map<PuzzleKey, PuzzleStatisticsView>, level: usize) -> bool {
    &&& level_completed(m, level)
    &&& forall|l: usize| #[trigger] level_completed(m, l) ==> l <= level
}

/// The first built-in level after the highest completed one, or level 0 when
/// none is completed. Past the largest index the count wraps to 0.
pub open spec fn working_level(m: Map<PuzzleKey, PuzzleStatisticsView>) -> usize {
    if exists|l: usize| level_completed(m, l) {
        let highest = choose|l: usize| is_highest_completed_level(m, l);
        if highest == usize::MAX {
            0
        } else {
            (highest + 1) as usize
        }
    } else {
        0
    }
}

proof fn lemma_highest_at_most(m: Map<PuzzleKey, PuzzleStatisticsView>, bound: usize)
    requires
        exists|l: usize| l <= bound && level_completed(m, l),
    ensures
        exists|h: usize|
            #![trigger level_completed(m, h)]
            h <= bound && level_completed(m, h) && forall|l: usize| l <= bound && #[trigger] level_completed(m, l) ==> l <= h,
    decreases bound,
{
    if level_completed(m, bound) {
        assert(forall|l: usize| l <= bound && #[trigger] level_completed(m, l) ==> l <= bound);
    } else {
        let w = choose|l: usize| l <= bound && level_completed(m, l);
        assert(w != bound);
        lemma_highest_at_most(m, (bound - 1) as usize);
        let h = choose|h: usize|
            #![trigger level_completed(m, h)]
            h <= (bound - 1) as usize && level_completed(m, h) && forall|l: usize| l <= (bound - 1) as usize && #[trigger] level_completed(m, l) ==> l <= h;
        assert forall|l: usize| l <= bound && #[trigger] level_completed(m, l) implies l <= h by {
            if l == bound {
            }
        }
    }
}

/// When some built-in level is completed, a highest completed one exists.
pub proof fn lemma_highest_completed_exists(m: Map<PuzzleKey, PuzzleStatisticsView>)
    requires
        exists|l: usize| level_completed(m, l),
    ensures
        exists|h: usize| is_highest_completed_level(m, h),
{
    let w = choose|l: usize| level_completed(m, l);
    assert(w <= usize::MAX);
    lemma_highest_at_most(m, usize::MAX);
    let h = choose|h: usize|
        #![trigger level_completed(m, h)]
        h <= usize::MAX && level_completed(m, h) && forall|l: usize| l <= usize::MAX && #[trigger] level_completed(m, l) ==> l <= h;
    assert(is_highest_completed_level(m, h));
}

/// The working level is the level after the highest completed one.
pub proof fn lemma_working_level_of_highest(m: Map<PuzzleKey, PuzzleStatisticsView>, highest: usize)
    requires
        is_highest_completed_level(m, highest),
    ensures
        working_level(m) == if highest == usize::MAX { 0 } else { (highest + 1) as usize },
{
    assert(exists|l: usize| level_completed(m, l));
    let h = choose|l: usize| is_highest_completed_level(m, l);
    assert(is_highest_completed_level(m, h));
    assert(h <= highest);
    assert(highest <= h);
}

/// The working level when no built-in level is completed.
pub proof fn lemma_working_level_when_none_completed(m: Map<PuzzleKey, PuzzleStatisticsView>)
    requires
        forall|l: usize| !level_completed(m, l),
    ensures
        working_level(m) == 0,
{
}

/// The rooms of the melody found in the puzzle, in order; empty when none
/// has been found.
pub open spec fn melody_room_ids(m: Map<PuzzleKey, PuzzleStatisticsView>, puzzle: PuzzleKey) -> Seq<u64> {
    if m.contains_key(puzzle) && m[puzzle].discovered_melody is Some {
        m[puzzle].discovered_melody->0.room_ids
    } else {
        Seq::empty()
    }
}

fn copy_room_ids(room_ids: &Vec<u64>) -> (r: Vec<u64>)
    ensures
        r@ == room_ids@,
{
    let mut r: Vec<u64> = Vec::new();
    let mut i: usize = 0;
    while i < room_ids.len()
        invariant
            i <= room_ids@.len(),
            r@ == room_ids@.subrange(0, i as int),
        decreases room_ids@.len() - i,
    {
        r.push(room_ids[i]);
        assert(room_ids@.subrange(0, i as int + 1) =~= room_ids@.subrange(0, i as int).push(room_ids@[i as int]));
        i = i + 1;
    }
    assert(room_ids@.subrange(0, room_ids@.len() as int) =~= room_ids@);
    r
}

impl PlayStatistics {
    /// The rooms of the melody found in the puzzle, in order; empty when none
    /// has been found.
    pub fn get_melody_room_ids(&self, puzzle: &PuzzleIdentifier) -> (r: Vec<u64>)
        ensures
            r@ == melody_room_ids(statistics_contents(self.0), puzzle@),
    {
        match self.0.get(puzzle) {
            Some(statistics) => match &statistics.discovered_melody {
                Some(melody) => copy_room_ids(&melody.room_ids),
                None => Vec::new(),
            },
            None => Vec::new(),
        }
    }

    /// The first built-in level after the highest completed one, or level 0
    /// when none is completed.
    pub fn get_working_level(&self) -> (r: LevelIndex)
        ensures
            r == working_level(statistics_contents(self.0)),
    {
        let ghost m = statistics_contents(self.0);
        let entries = self.0.entries();
        let mut found = false;
        let mut highest: usize = 0;
        let mut i: usize = 0;
        while i < entries.len()
            invariant
                i <= entries@.len(),
                m == statistics_contents(self.0),
                forall|j: int| 0 <= j < entries@.len() ==> m.contains_key(#[trigger] entries@[j].0@)
                    && m[entries@[j].0@] == entries@[j].1@,
                found ==> level_completed(m, highest),
                forall|j: int|
                    #![trigger entries@[j]]
                    0 <= j < i && entries@[j].1.completed ==> (entries@[j].0@ matches PuzzleKey::Level(l)
                        ==> found && l <= highest),
            decreases entries@.len() - i,
        {
            let entry = &entries[i];
            match &entry.0 {
                PuzzleIdentifier::Level(level) => {
                    if entry.1.completed && (!found || *level > highest) {
                        found = true;
                        highest = *level;
                    }
                },
                _ => {},
            }
            i = i + 1;
        }
        if found {
            proof {
                assert forall|l: usize| #[trigger] level_completed(m, l) implies l <= highest by {
                    let j = choose|j: int| 0 <= j < entries@.len() && #[trigger] entries@[j].0@ == PuzzleKey::Level(l);
                    assert(entries@[j].1@.completed);
                    assert(entries@[j].0@ matches PuzzleKey::Level(l2) && entries@[j].1.completed);
                }
                lemma_working_level_of_highest(m, highest);
            }
            if highest == usize::MAX {
                0
            } else {
                highest + 1
            }
        } else {
            proof {
                assert forall|l: usize| !level_completed(m, l) by {
                    if level_completed(m, l) {
                        let j = choose|j: int| 0 <= j < entries@.len() && #[trigger] entries@[j].0@ == PuzzleKey::Level(l);
                        assert(entries@[j].1@.completed);
                        assert(entries@[j].0@ matches PuzzleKey::Level(l2) && entries@[j].1.completed);
                    }
                }
            }
            0
        }
    }
}

/// The statistics after the puzzle is solved: its entry, when there is one,
/// is marked completed.
pub open spec fn victory_applied(m: Map<PuzzleKey, PuzzleStatisticsView>, puzzle: PuzzleKey) -> Map<PuzzleKey, PuzzleStatisticsView> {
    if m.contains_key(puzzle) {
        m.insert(
            puzzle,
            PuzzleStatisticsView {
                completed: true,
                time_spent: m[puzzle].time_spent,
                discovered_melody: m[puzzle].discovered_melody,
            },
        )
    } else {
        m
    }
}

/// The statistics after the player leaves the puzzle: the time spent is kept
/// for an unsolved puzzle that has an entry.
pub open spec fn exit_applied(m: Map<PuzzleKey, PuzzleStatisticsView>, puzzle: PuzzleKey, elapsed: PlayTime) -> Map<PuzzleKey, PuzzleStatisticsView> {
    if m.contains_key(puzzle) && !m[puzzle].completed {
        m.insert(
            puzzle,
            PuzzleStatisticsView {
                completed: m[puzzle].completed,
                time_spent: elapsed,
                discovered_melody: m[puzzle].discovered_melody,
            },
        )
    } else {
        m
    }
}

/// The statistics after a melody is found in the puzzle: the melody is kept
/// when the puzzle has an entry.
pub open spec fn melody_applied(m: Map<PuzzleKey, PuzzleStatisticsView>, puzzle: PuzzleKey, melody: DiscoveredMelodyView) -> Map<PuzzleKey, PuzzleStatisticsView> {
    if m.contains_key(puzzle) {
        m.insert(
            puzzle,
            PuzzleStatisticsView {
                completed: m[puzzle].completed,
                time_spent: m[puzzle].time_spent,
                discovered_melody: Some(melody),
            },
        )
    } else {
        m
    }
}

/// Opens the puzzle for play: makes sure it has an entry, and gives the time
/// already spent on it and whether the solve clock should run (it runs for a
/// puzzle that is not yet solved).
pub fn on_play(play_statistics: &mut PlayStatistics, puzzle: &PuzzleIdentifier) -> (r: (PlayTime, bool))
    ensures
        statistics_contents(old(play_statistics).0).contains_key(puzzle@) ==> {
            &&& statistics_contents(final(play_statistics).0) == statistics_contents(old(play_statistics).0)
            &&& r.0 == statistics_contents(old(play_statistics).0)[puzzle@].time_spent
            &&& r.1 == !statistics_contents(old(play_statistics).0)[puzzle@].completed
        },
        !statistics_contents(old(play_statistics).0).contains_key(puzzle@) ==> {
            &&& statistics_contents(final(play_statistics).0).contains_key(puzzle@)
            &&& statistics_contents(final(play_statistics).0) == statistics_contents(old(play_statistics).0).insert(
                puzzle@,
                statistics_contents(final(play_statistics).0)[puzzle@],
            )
            &&& statistics_contents(final(play_statistics).0)[puzzle@] == (PuzzleStatisticsView {
                completed: false,
                time_spent: PlayTime { secs: 0, nanos: 0 },
                discovered_melody: None,
            })
            &&& r.0 == (PlayTime { secs: 0, nanos: 0 })
            &&& r.1
        },
{
    match play_statistics.0.get(puzzle) {
        Some(statistics) => {
            return (statistics.time_spent, !statistics.completed);
        },
        None => {},
    }
    let statistics = PuzzleStatistics::default();
    let time_spent = statistics.time_spent;
    play_statistics.0.insert(puzzle.clone_identifier(), statistics);
    (time_spent, true)
}

/// Marks the puzzle as solved.
pub fn on_victory(play_statistics: &mut PlayStatistics, puzzle: &PuzzleIdentifier)
    ensures
        statistics_contents(final(play_statistics).0) == victory_applied(statistics_contents(old(play_statistics).0), puzzle@),
{
    match play_statistics.0.remove(puzzle) {
        Some(statistics) => {
            let mut statistics = statistics;
            statistics.completed = true;
            play_statistics.0.insert(puzzle.clone_identifier(), statistics);
            assert(statistics_contents(final(play_statistics).0) =~= victory_applied(
                statistics_contents(old(play_statistics).0),
                puzzle@,
            ));
        },
        None => {
            assert(statistics_contents(play_statistics.0) =~= statistics_contents(old(play_statistics).0));
        },
    }
}

/// Keeps the time spent on the puzzle when the player leaves it unsolved.
pub fn exit_play(play_statistics: &mut PlayStatistics, puzzle: &PuzzleIdentifier, elapsed: PlayTime)
    ensures
        statistics_contents(final(play_statistics).0) == exit_applied(statistics_contents(old(play_statistics).0), puzzle@, elapsed),
{
    match play_statistics.0.remove(puzzle) {
        Some(statistics) => {
            let mut statistics = statistics;
            if !statistics.completed {
                statistics.time_spent = elapsed;
            }
            play_statistics.0.insert(puzzle.clone_identifier(), statistics);
            assert(statistics_contents(final(play_statistics).0) =~= exit_applied(
                statistics_contents(old(play_statistics).0),
                puzzle@,
                elapsed,
            ));
        },
        None => {
            assert(statistics_contents(play_statistics.0) =~= statistics_contents(old(play_statistics).0));
        },
    }
}

/// Keeps a melody the player has found in the puzzle.
pub fn record_discovered_melody(play_statistics: &mut PlayStatistics, puzzle: &PuzzleIdentifier, melody: DiscoveredMelody)
    ensures
        statistics_contents(final(play_statistics).0) == melody_applied(statistics_contents(old(play_statistics).0), puzzle@, melody@),
{
    match play_statistics.0.remove(puzzle) {
        Some(statistics) => {
            let mut statistics = statistics;
            statistics.discovered_melody = Some(melody);
            play_statistics.0.insert(puzzle.clone_identifier(), statistics);
            assert(statistics_contents(final(play_statistics).0) =~= melody_applied(
                statistics_contents(old(play_statistics).0),
                puzzle@,
                melody@,
            ));
        },
        None => {
            assert(statistics_contents(play_statistics.0) =~= statistics_contents(old(play_statistics).0));
        },
    }
}

/// Two statistics maps that agree on which built-in levels are completed have
/// the same working level.
pub proof fn lemma_working_level_depends_on_completed_levels(
    m1: Map<PuzzleKey, PuzzleStatisticsView>,
    m2: Map<PuzzleKey, PuzzleStatisticsView>,
)
    requires
        forall|l: usize| level_completed(m1, l) == level_completed(m2, l),
    ensures
        working_level(m1) == working_level(m2),
{
    if exists|l: usize| level_completed(m1, l) {
        lemma_highest_completed_exists(m1);
        let h = choose|h: usize| is_highest_completed_level(m1, h);
        assert(is_highest_completed_level(m2, h)) by {
            assert forall|l: usize| #[trigger] level_completed(m2, l) implies l <= h by {
                assert(level_completed(m1, l));
            }
        }
        lemma_working_level_of_highest(m1, h);
        lemma_working_level_of_highest(m2, h);
    } else {
        assert(forall|l: usize| !level_completed(m2, l)) by {
            assert forall|l: usize| !level_completed(m2, l) by {
                assert(!level_completed(m1, l));
            }
        }
    }
}

/// Leaving a puzzle, or finding a melody in it, never changes which puzzles
/// are solved, and so never changes the working level.
pub proof fn lemma_exit_and_melody_keep_working_level(
    m: Map<PuzzleKey, PuzzleStatisticsView>,
    puzzle: PuzzleKey,
    elapsed: PlayTime,
    melody: DiscoveredMelodyView,
)
    ensures
        forall|k: PuzzleKey| #![trigger exit_applied(m, puzzle, elapsed).contains_key(k)]
            exit_applied(m, puzzle, elapsed).contains_key(k) == m.contains_key(k)
            && (m.contains_key(k) ==> exit_applied(m, puzzle, elapsed)[k].completed == m[k].completed),
        forall|k: PuzzleKey| #![trigger melody_applied(m, puzzle, melody).contains_key(k)]
            melody_applied(m, puzzle, melody).contains_key(k) == m.contains_key(k)
            && (m.contains_key(k) ==> melody_applied(m, puzzle, melody)[k].completed == m[k].completed),
        working_level(exit_applied(m, puzzle, elapsed)) == working_level(m),
        working_level(melody_applied(m, puzzle, melody)) == working_level(m),
{
    let e = exit_applied(m, puzzle, elapsed);
    let d = melody_applied(m, puzzle, melody);
    assert forall|l: usize| level_completed(e, l) == level_completed(m, l) by {}
    assert forall|l: usize| level_completed(d, l) == level_completed(m, l) by {}
    lemma_working_level_depends_on_completed_levels(e, m);
    lemma_working_level_depends_on_completed_levels(d, m);
}

/// Opening a puzzle adds at most an unsolved entry, and so never changes the
/// working level.
pub proof fn lemma_opening_keeps_working_level(
    m: Map<PuzzleKey, PuzzleStatisticsView>,
    puzzle: PuzzleKey,
    entry: PuzzleStatisticsView,
)
    requires
        !m.contains_key(puzzle),
        !entry.completed,
    ensures
        working_level(m.insert(puzzle, entry)) == working_level(m),
{
    let o = m.insert(puzzle, entry);
    assert forall|l: usize| level_completed(o, l) == level_completed(m, l) by {}
    lemma_working_level_depends_on_completed_levels(o, m);
}

/// Solving a puzzle keeps every other puzzle's state of completion and marks
/// the puzzle itself as completed, when it has an entry.
pub proof fn lemma_victory_keeps_completion(m: Map<PuzzleKey, PuzzleStatisticsView>, puzzle: PuzzleKey)
    ensures
        forall|k: PuzzleKey| #[trigger] m.contains_key(k) && m[k].completed ==> victory_applied(m, puzzle).contains_key(k)
            && victory_applied(m, puzzle)[k].completed,
        m.contains_key(puzzle) ==> victory_applied(m, puzzle)[puzzle].completed,
        forall|k: PuzzleKey| k != puzzle ==> #[trigger] victory_applied(m, puzzle).contains_key(k) == m.contains_key(k)
            && (m.contains_key(k) ==> victory_applied(m, puzzle)[k] == m[k]),
{
}

/// Solving built-in level `level` makes the working level come after it,
/// unless the largest level index is itself completed (the count wraps there).
pub proof fn lemma_victory_unlocks_next_level(m: Map<PuzzleKey, PuzzleStatisticsView>, level: usize)
    requires
        m.contains_key(PuzzleKey::Level(level)),
        !level_completed(m, usize::MAX),
        level < usize::MAX,
    ensures
        working_level(victory_applied(m, PuzzleKey::Level(level))) > level,
{
    let v = victory_applied(m, PuzzleKey::Level(level));
    assert(level_completed(v, level));
    lemma_highest_completed_exists(v);
    let h = choose|h: usize| is_highest_completed_level(v, h);
    assert(h >= level);
    assert(h != usize::MAX) by {
        if h == usize::MAX {
            assert(level_completed(m, usize::MAX));
        }
    }
    lemma_working_level_of_highest(v, h);
}

/// Solving a puzzle never lowers the working level, unless the largest level
/// index ends up completed (the count wraps there).
pub proof fn lemma_victory_never_lowers_working_level(m: Map<PuzzleKey, PuzzleStatisticsView>, puzzle: PuzzleKey)
    requires
        !level_completed(victory_applied(m, puzzle), usize::MAX),
    ensures
        working_level(victory_applied(m, puzzle)) >= working_level(m),
{
    let v = victory_applied(m, puzzle);
    if exists|l: usize| level_completed(m, l) {
        lemma_highest_completed_exists(m);
        let h = choose|h: usize| is_highest_completed_level(m, h);
        lemma_working_level_of_highest(m, h);
        assert(level_completed(v, h));
        lemma_highest_completed_exists(v);
        let hv = choose|hv: usize| is_highest_completed_level(v, hv);
        assert(hv >= h);
        assert(hv != usize::MAX);
        assert(h != usize::MAX) by {
            if h == usize::MAX {
                assert(level_completed(v, usize::MAX));
            }
        }
        lemma_working_level_of_highest(v, hv);
    } else {
        lemma_working_level_when_none_completed(m);
    }
}

/// Recording a found melody keeps it with the puzzle, when the puzzle has an
/// entry, and changes nothing else: neither whether the puzzle is solved nor
/// its time, nor any other puzzle. A puzzle without an entry gets none.
pub proof fn lemma_melody_is_kept(m: Map<PuzzleKey, PuzzleStatisticsView>, puzzle: PuzzleKey, melody: DiscoveredMelodyView)
    ensures
        m.contains_key(puzzle) ==> {
            &&& melody_applied(m, puzzle, melody).contains_key(puzzle)
            &&& melody_applied(m, puzzle, melody)[puzzle].discovered_melody == Some(melody)
            &&& melody_applied(m, puzzle, melody)[puzzle].completed == m[puzzle].completed
            &&& melody_applied(m, puzzle, melody)[puzzle].time_spent == m[puzzle].time_spent
        },
        !m.contains_key(puzzle) ==> melody_applied(m, puzzle, melody) == m,
        forall|k: PuzzleKey|
            k != puzzle ==> (#[trigger] melody_applied(m, puzzle, melody).contains_key(k) <==> m.contains_key(k)) && (
            m.contains_key(k) ==> melody_applied(m, puzzle, melody)[k] == m[k]),
{
}

/// Leaving a puzzle records the time on the solve clock as the time spent,
/// whatever time was held before: for a puzzle with an unsolved entry the
/// time becomes the elapsed time passed in, nothing else about it or any other
/// puzzle changes, and leaving twice keeps only the later time. A solved
/// puzzle keeps its time.
pub proof fn lemma_exit_records_the_clock(
    m: Map<PuzzleKey, PuzzleStatisticsView>,
    puzzle: PuzzleKey,
    first: PlayTime,
    elapsed: PlayTime,
)
    ensures
        m.contains_key(puzzle) && !m[puzzle].completed ==> {
            &&& exit_applied(m, puzzle, elapsed).contains_key(puzzle)
            &&& exit_applied(m, puzzle, elapsed)[puzzle].time_spent == elapsed
            &&& exit_applied(m, puzzle, elapsed)[puzzle].completed == m[puzzle].completed
            &&& exit_applied(m, puzzle, elapsed)[puzzle].discovered_melody == m[puzzle].discovered_melody
        },
        m.contains_key(puzzle) && m[puzzle].completed ==> exit_applied(m, puzzle, elapsed)[puzzle] == m[puzzle],
        forall|k: PuzzleKey|
            k != puzzle ==> (#[trigger] exit_applied(m, puzzle, elapsed).contains_key(k) <==> m.contains_key(k)) && (
            m.contains_key(k) ==> exit_applied(m, puzzle, elapsed)[k] == m[k]),
        exit_applied(exit_applied(m, puzzle, first), puzzle, elapsed) =~= exit_applied(m, puzzle, elapsed),
{
}

} // verus!
