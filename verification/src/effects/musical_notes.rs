use vstd::prelude::*;

verus! {

/// The number of musical note effects, each with its own phase.
pub const NUM_NOTE_EFFECTS: usize = 8;

/// The effects used for the crotchet and the quaver that float above an
/// entity: the quaver is half a cycle behind the crotchet.
pub fn note_effect_indices(entity_index: usize, num_effects: usize) -> (r: (usize, usize))
    requires
        num_effects > 0,
        (entity_index as int) + (num_effects as int) / 2 <= usize::MAX as int,
    ensures
        r.0 == entity_index % num_effects,
        r.1 == (entity_index + num_effects / 2) % (num_effects as int),
        r.0 < num_effects,
        r.1 < num_effects,
{
    let crotchet = entity_index % num_effects;
    let quaver = (entity_index + num_effects / 2) % num_effects;
    (crotchet, quaver)
}

} // verus!
