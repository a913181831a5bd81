use vstd::prelude::*;

use crate::game_save::LevelIndex;
use crate::is_room_junction::push_unique;
use crate::seeded::sound::{Melody, MelodyView};
use crate::shape::shape_loader::lemma_push_to_set;

verus! {

/// A melody found in a level, with the rooms whose notes played it.
#[derive(Debug, Clone)]
pub struct DiscoveredMelody {
    pub melody: Melody,
    pub room_ids: Vec<u64>,
}

/// A found melody as its melody and rooms.
pub struct DiscoveredMelodyView {
    pub melody: MelodyView,
    pub room_ids: Seq<u64>,
}

impl View for DiscoveredMelody {
    type V = DiscoveredMelodyView;

    open spec fn view(&self) -> DiscoveredMelodyView {
        DiscoveredMelodyView { melody: self.melody@, room_ids: self.room_ids@ }
    }
}

/// A set of level indices.
#[verifier::external_body]
pub struct LevelIndexSet {
    indices: hashbrown::HashSet<LevelIndex>,
}

/// The indices held by the set.
pub uninterp spec fn level_index_set_contents(set: LevelIndexSet) -> Set<LevelIndex>;

impl LevelIndexSet {
    /// Calls `hashbrown::HashSet::new`. Trusted: the new set is empty.
    #[verifier::external_body]
    pub fn new() -> (set: LevelIndexSet)
        ensures
            level_index_set_contents(set).is_empty(),
    {
        LevelIndexSet { indices: hashbrown::HashSet::new() }
    }

    /// Calls `hashbrown::HashSet::contains`. Trusted: the result says whether
    /// the set holds `index`.
    #[verifier::external_body]
    pub fn contains(&self, index: LevelIndex) -> (r: bool)
        ensures
            r == level_index_set_contents(*self).contains(index),
    {
        self.indices.contains(&index)
    }

    /// Calls `hashbrown::HashSet::insert`. Trusted: afterwards the set also
    /// holds `index`.
    #[verifier::external_body]
    pub fn insert(&mut self, index: LevelIndex)
        ensures
            level_index_set_contents(*final(self)) == level_index_set_contents(*old(self)).insert(index),
    {
        self.indices.insert(index);
    }

    /// Calls `hashbrown::HashSet::clone`. Trusted: the copy holds the same
    /// indices.
    #[verifier::external_body]
    pub fn clone_set(&self) -> (r: LevelIndexSet)
        ensures
            level_index_set_contents(r) == level_index_set_contents(*self),
    {
        LevelIndexSet { indices: self.indices.clone() }
    }
}

impl LevelIndexSet {
    /// The set of the given indices, as a save file lists them.
    pub fn from_indices(indices: &Vec<LevelIndex>) -> (r: LevelIndexSet)
        ensures
            level_index_set_contents(r) == indices@.to_set(),
    {
        let mut set = LevelIndexSet::new();
        let mut i: usize = 0;
        proof {
            assert(level_index_set_contents(set) =~= indices@.subrange(0, 0).to_set());
        }
        while i < indices.len()
            invariant
                i <= indices@.len(),
                level_index_set_contents(set) == indices@.subrange(0, i as int).to_set(),
            decreases indices@.len() - i,
        {
            let index = indices[i];
            set.insert(index);
            proof {
                assert(indices@.subrange(0, i as int + 1) =~= indices@.subrange(0, i as int).push(index));
                lemma_push_to_set(indices@.subrange(0, i as int), index);
            }
            i = i + 1;
        }
        assert(indices@.subrange(0, indices@.len() as int) =~= indices@);
        set
    }
}

/// The melodies found in the levels, keyed by level index.
#[verifier::external_body]
pub struct LevelMelodyMap {
    melodies: hashbrown::HashMap<LevelIndex, DiscoveredMelody>,
}

/// The melodies held by the map, keyed by level index.
pub uninterp spec fn level_melody_contents(map: LevelMelodyMap) -> Map<LevelIndex, DiscoveredMelodyView>;

impl LevelMelodyMap {
    /// Calls `hashbrown::HashMap::new`. Trusted: the new map is empty.
    #[verifier::external_body]
    pub fn new() -> (map: LevelMelodyMap)
        ensures
            level_melody_contents(map).dom().is_empty(),
    {
        LevelMelodyMap { melodies: hashbrown::HashMap::new() }
    }

    /// Calls `hashbrown::HashMap::get`. Trusted: the result is the melody held
    /// for the level, or `None`.
    #[verifier::external_body]
    pub fn get(&self, level: LevelIndex) -> (r: Option<&DiscoveredMelody>)
        ensures
            r is Some <==> level_melody_contents(*self).contains_key(level),
            r matches Some(m) ==> m@ == level_melody_contents(*self)[level],
    {
        self.melodies.get(&level)
    }

    /// Calls `hashbrown::HashMap::insert`. Trusted: afterwards the map holds
    /// `melody` for the level and is otherwise unchanged.
    #[verifier::external_body]
    pub fn insert(&mut self, level: LevelIndex, melody: DiscoveredMelody)
        ensures
            level_melody_contents(*final(self)) == level_melody_contents(*old(self)).insert(level, melody@),
    {
        self.melodies.insert(level, melody);
    }

    /// Calls `hashbrown::HashMap::clone`. Trusted: the copy holds the same
    /// melodies.
    #[verifier::external_body]
    pub fn clone_map(&self) -> (r: LevelMelodyMap)
        ensures
            level_melody_contents(r) == level_melody_contents(*self),
    {
        LevelMelodyMap { melodies: self.melodies.clone() }
    }
}

/// The melodies after the entries are inserted in order: a level listed
/// twice keeps its last melody.
pub open spec fn melodies_after(entries: Seq<(LevelIndex, DiscoveredMelodyView)>) -> Map<LevelIndex, DiscoveredMelodyView>
    decreases entries.len(),
{
    if entries.len() == 0 {
        Map::empty()
    } else {
        melodies_after(entries.drop_last()).insert(entries.last().0, entries.last().1)
    }
}

/// The views of the entries.
pub open spec fn entry_views(entries: Seq<(LevelIndex, DiscoveredMelody)>) -> Seq<(LevelIndex, DiscoveredMelodyView)> {
    entries.map_values(|e: (LevelIndex, DiscoveredMelody)| (e.0, e.1@))
}

impl LevelMelodyMap {
    /// The map holding the given melodies, as a save file lists them.
    pub fn from_entries(entries: Vec<(LevelIndex, DiscoveredMelody)>) -> (r: LevelMelodyMap)
        ensures
            level_melody_contents(r) == melodies_after(entry_views(entries@)),
    {
        let ghost initial = entries@;
        let mut entries = entries;
        let total = entries.len();
        assert(initial.len() == total);
        let mut map = LevelMelodyMap::new();
        let mut k: usize = 0;
        proof {
            assert(entry_views(initial.subrange(0, 0)) =~= Seq::empty());
            assert(level_melody_contents(map) =~= melodies_after(entry_views(initial.subrange(0, 0))));
        }
        while entries.len() > 0
            invariant
                k + entries@.len() == initial.len(),
                initial.len() <= usize::MAX,
                entries@ == initial.subrange(k as int, initial.len() as int),
                level_melody_contents(map) == melodies_after(entry_views(initial.subrange(0, k as int))),
            decreases entries@.len(),
        {
            let (level, melody) = entries.remove(0);
            assert(initial[k as int] == (level, melody));
            map.insert(level, melody);
            proof {
                let before = initial.subrange(0, k as int);
                let after = initial.subrange(0, k as int + 1);
                assert(after =~= before.push((level, melody)));
                assert(entry_views(after).drop_last() =~= entry_views(before));
                assert(entry_views(after).last() == (level, melody@));
            }
            k = k + 1;
            assert(entries@ =~= initial.subrange(k as int, initial.len() as int));
        }
        assert(initial.subrange(0, initial.len() as int) =~= initial);
        map
    }
}

/// The level that is open or was last open.
#[derive(Debug, Clone, Copy)]
pub struct CurrentLevelIndex(pub LevelIndex);

/// The highest level that may be played.
#[derive(Debug, Clone, Copy)]
pub struct WorkingLevelIndex(pub LevelIndex);

/// The levels solved with a perfect score.
pub struct PerfectScoreLevelIndices(pub LevelIndexSet);

/// The melodies found, by level.
pub struct DiscoveredMelodies(pub LevelMelodyMap);

impl DiscoveredMelodies {
    /// The rooms of the melody found in the level, each once; empty when none
    /// has been found.
    pub fn get_room_ids_for_level(&self, level_index: LevelIndex) -> (r: Vec<u64>)
        ensures
            level_melody_contents(self.0).contains_key(level_index) ==> r@.to_set()
                == level_melody_contents(self.0)[level_index].room_ids.to_set(),
            !level_melody_contents(self.0).contains_key(level_index) ==> r@.len() == 0,
            r@.no_duplicates(),
    {
        let mut r: Vec<u64> = Vec::new();
        match self.0.get(level_index) {
            Some(melody) => {
                push_unique(&mut r, &melody.room_ids);
                assert(Seq::<u64>::empty().to_set().union(melody.room_ids@.to_set()) =~= melody.room_ids@.to_set());
                r
            },
            None => r,
        }
    }
}

/// What is kept between sessions in the seeded edition.
pub struct GameSave {
    pub current_index: LevelIndex,
    pub completed_index: LevelIndex,
    pub perfect_score_level_indices: LevelIndexSet,
    pub discovered_melodies: LevelMelodyMap,
}

impl Default for GameSave {
    /// The save used when none can be read: level 3 is current and levels up
    /// to 19 may be played.
    fn default() -> (r: GameSave)
        ensures
            r.current_index == 3,
            r.completed_index == 19,
            level_index_set_contents(r.perfect_score_level_indices).is_empty(),
            level_melody_contents(r.discovered_melodies).dom().is_empty(),
    {
        GameSave {
            current_index: 3,
            completed_index: 19,
            perfect_score_level_indices: LevelIndexSet::new(),
            discovered_melodies: LevelMelodyMap::new(),
        }
    }
}

/// The state a session starts from: the save that was read, or the default
/// save when none could be read.
pub fn setup_save_data(loaded: Option<GameSave>) -> (r: (CurrentLevelIndex, WorkingLevelIndex, PerfectScoreLevelIndices, DiscoveredMelodies))
    ensures
        loaded matches Some(save) ==> {
            &&& (r.0).0 == save.current_index
            &&& (r.1).0 == save.completed_index
            &&& level_index_set_contents((r.2).0) == level_index_set_contents(save.perfect_score_level_indices)
            &&& level_melody_contents((r.3).0) == level_melody_contents(save.discovered_melodies)
        },
        loaded is None ==> {
            &&& (r.0).0 == 3
            &&& (r.1).0 == 19
            &&& level_index_set_contents((r.2).0).is_empty()
            &&& level_melody_contents((r.3).0).dom().is_empty()
        },
{
    let save = match loaded {
        Some(save) => save,
        None => GameSave::default(),
    };
    (
        CurrentLevelIndex(save.current_index),
        WorkingLevelIndex(save.completed_index),
        PerfectScoreLevelIndices(save.perfect_score_level_indices),
        DiscoveredMelodies(save.discovered_melodies),
    )
}

/// The save to write when any part of the saved state has changed; `None`
/// when nothing changed.
pub fn update_save_data(
    current: &CurrentLevelIndex,
    working: &WorkingLevelIndex,
    perfect: &PerfectScoreLevelIndices,
    melodies: &DiscoveredMelodies,
    changed: bool,
) -> (r: Option<GameSave>)
    ensures
        r is Some <==> changed,
        r matches Some(save) ==> {
            &&& save.current_index == current.0
            &&& save.completed_index == working.0
            &&& level_index_set_contents(save.perfect_score_level_indices) == level_index_set_contents(perfect.0)
            &&& level_melody_contents(save.discovered_melodies) == level_melody_contents(melodies.0)
        },
{
    if changed {
        Some(
            GameSave {
                current_index: current.0,
                completed_index: working.0,
                perfect_score_level_indices: perfect.0.clone_set(),
                discovered_melodies: melodies.0.clone_map(),
            },
        )
    } else {
        None
    }
}

} // verus!
