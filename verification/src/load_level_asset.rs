use vstd::prelude::*;

use crate::decimal::{append_decimal, decimal_chars};
use crate::game_save::{LevelIndex, PuzzleIdentifier, PuzzleKey};
use crate::game_state::GameState;
use crate::sound::{note_mapping_contents, Note, NoteMapping};

verus! {

/// The tag of the easy daily levels in the level repository.
pub const EASY_DAILY_LEVEL_TAG: &'static str = "easy";

/// The tag of the hard daily levels in the level repository.
pub const HARD_DAILY_LEVEL_TAG: &'static str = "hard";

/// Where the daily levels are published.
pub const DAILY_LEVELS_URL: &'static str = "https://raw.githubusercontent.com/oscardarwin/mazonic_levels/main";

/// The tag under which a daily puzzle is published; `None` for a built-in level.
pub fn remote_level_tag(puzzle: &PuzzleIdentifier) -> (r: Option<&'static str>)
    ensures
        puzzle@ is EasyDaily ==> r == Some(EASY_DAILY_LEVEL_TAG),
        puzzle@ is HardDaily ==> r == Some(HARD_DAILY_LEVEL_TAG),
        puzzle@ is Level ==> r is None,
{
    match puzzle {
        PuzzleIdentifier::EasyDaily(_) => Some(EASY_DAILY_LEVEL_TAG),
        PuzzleIdentifier::HardDaily(_) => Some(HARD_DAILY_LEVEL_TAG),
        PuzzleIdentifier::Level(_) => None,
    }
}

/// The address of a daily level: `{DAILY_LEVELS_URL}/{tag}/{id}.json`.
pub fn daily_level_url(daily_level_id: &String, tag: &str) -> (r: String)
    ensures
        r@ == DAILY_LEVELS_URL@ + "/"@ + tag@ + "/"@ + daily_level_id@ + ".json"@,
{
    let mut url = String::from_str(DAILY_LEVELS_URL);
    url.append("/");
    url.append(tag);
    url.append("/");
    url.append(daily_level_id.as_str());
    url.append(".json");
    url
}

/// The asset path of a built-in level: `levels/{index}.json`.
pub fn local_level_path(level_index: LevelIndex) -> (r: String)
    ensures
        r@ == "levels/"@ + decimal_chars(level_index as nat) + ".json"@,
{
    let mut path = String::from_str("levels/");
    append_decimal(&mut path, level_index as u64);
    path.append(".json");
    path
}

/// Why a daily level could not be loaded.
#[derive(Debug, Clone, Copy, PartialEq, Eq, Structural)]
pub enum LoadFailure {
    /// The response body could not be read as text.
    StringParse,
    /// The body is not a level in JSON form.
    JsonParse,
    /// The level could not be fetched.
    Http,
}

/// The message shown to the player when a daily level cannot be loaded.
pub fn load_failure_message(failure: LoadFailure) -> (r: &'static str)
    ensures
        failure == LoadFailure::JsonParse ==> r@ == "failed to parse json"@,
        failure == LoadFailure::Http ==> r@ == "could not fetch level from web"@,
        failure == LoadFailure::StringParse ==> r@ == "failed to parse level data"@,
{
    match failure {
        LoadFailure::JsonParse => "failed to parse json",
        LoadFailure::Http => "could not fetch level from web",
        LoadFailure::StringParse => "failed to parse level data",
    }
}

/// The state of the download of a daily level.
#[derive(Debug, Clone, Copy, PartialEq, Eq, Structural)]
pub enum RemoteLevelPoll {
    /// The download has not finished.
    Pending,
    /// The level arrived and was read.
    Loaded,
    /// The download or reading failed.
    Failed(LoadFailure),
}

/// What to do while waiting for a daily level.
#[derive(Debug, Clone, Copy, PartialEq, Eq, Structural)]
pub struct LoadStep {
    /// The screen to move to, if any.
    pub next_state: Option<GameState>,
    /// Keep the downloaded level among the loaded ones.
    pub store_level: bool,
    /// Forget the finished download.
    pub forget_download: bool,
    /// The failure to report to the player, if any.
    pub failure: Option<LoadFailure>,
}

/// Decides the next step while waiting for a daily level: a level already
/// loaded opens at once; a finished download opens the level or, on failure,
/// returns to the selector with a message; otherwise keep waiting.
pub fn wait_until_loaded(already_loaded: bool, poll: RemoteLevelPoll) -> (r: LoadStep)
    ensures
        already_loaded ==> r == (LoadStep { next_state: Some(GameState::Puzzle), store_level: false, forget_download: false, failure: None }),
        !already_loaded && poll == RemoteLevelPoll::Pending ==> r == (LoadStep { next_state: None, store_level: false, forget_download: false, failure: None }),
        !already_loaded && poll == RemoteLevelPoll::Loaded ==> r == (LoadStep { next_state: Some(GameState::Puzzle), store_level: true, forget_download: true, failure: None }),
        !already_loaded ==> (poll matches RemoteLevelPoll::Failed(f) ==> r == (LoadStep { next_state: Some(GameState::Selector), store_level: false, forget_download: true, failure: Some(f) })),
{
    if already_loaded {
        return LoadStep { next_state: Some(GameState::Puzzle), store_level: false, forget_download: false, failure: None };
    }
    match poll {
        RemoteLevelPoll::Pending => LoadStep { next_state: None, store_level: false, forget_download: false, failure: None },
        RemoteLevelPoll::Loaded => LoadStep { next_state: Some(GameState::Puzzle), store_level: true, forget_download: true, failure: None },
        RemoteLevelPoll::Failed(f) => LoadStep { next_state: Some(GameState::Selector), store_level: false, forget_download: true, failure: Some(f) },
    }
}

/// The note mapping after the pairs are inserted in order.
pub open spec fn mapping_after(pairs: Seq<(u64, Note)>) -> Map<u64, Note>
    decreases pairs.len(),
{
    if pairs.len() == 0 {
        Map::empty()
    } else {
        mapping_after(pairs.drop_last()).insert(pairs.last().0, pairs.last().1)
    }
}

/// Builds the note mapping of a level from its room ids and notes; a room
/// listed twice keeps its last note.
pub fn note_mapping_from_pairs(pairs: &Vec<(u64, Note)>) -> (r: NoteMapping)
    ensures
        note_mapping_contents(r) == mapping_after(pairs@),
{
    let mut mapping = NoteMapping::new();
    let mut i: usize = 0;
    proof {
        assert(note_mapping_contents(mapping) =~= mapping_after(pairs@.subrange(0, 0)));
    }
    while i < pairs.len()
        invariant
            i <= pairs@.len(),
            note_mapping_contents(mapping) == mapping_after(pairs@.subrange(0, i as int)),
        decreases pairs@.len() - i,
    {
        let (room_id, note) = pairs[i];
        mapping.insert(room_id, note);
        assert(pairs@.subrange(0, i as int + 1).drop_last() =~= pairs@.subrange(0, i as int));
        i = i + 1;
    }
    assert(pairs@.subrange(0, pairs@.len() as int) =~= pairs@);
    mapping
}

} // verus!
