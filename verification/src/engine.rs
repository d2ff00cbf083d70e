//! The ducking decision: which stream of a snapshot is the primary, and the
//! volume it should have.
//!
//! The decision is a function of the snapshot alone. Nothing is remembered
//! from one call to the next.

use vstd::prelude::*;

use crate::stream::{StreamModel, StreamRecord};

verus! {

/// Volume, in percent, of the primary while other audio can be heard.
pub const DUCKED_VOLUME: u8 = 35;

/// Volume, in percent, of the primary while nothing else can be heard.
pub const FULL_VOLUME: u8 = 100;

/// Position `k` holds a primary candidate and no later position does.
pub open spec fn is_last_candidate(snapshot: Seq<StreamModel>, k: int) -> bool {
    &&& 0 <= k < snapshot.len()
    &&& snapshot[k].is_primary_candidate()
    &&& forall|j: int| k < j < snapshot.len() ==> !(#[trigger] snapshot[j]).is_primary_candidate()
}

/// Some record of the snapshot is a primary candidate.
pub open spec fn has_candidate(snapshot: Seq<StreamModel>) -> bool {
    exists|k: int| 0 <= k < snapshot.len() && (#[trigger] snapshot[k]).is_primary_candidate()
}

/// Position of the primary: the last primary candidate in the snapshot's
/// order, if there is any.
pub open spec fn primary_position(snapshot: Seq<StreamModel>) -> Option<int>
    decreases snapshot.len(),
{
    if snapshot.len() == 0 {
        None
    } else if snapshot.last().is_primary_candidate() {
        Some(snapshot.len() - 1)
    } else {
        primary_position(snapshot.drop_last())
    }
}

/// Index of the primary, if the snapshot has one.
pub open spec fn primary_index(snapshot: Seq<StreamModel>) -> Option<u32> {
    match primary_position(snapshot) {
        Some(k) => Some(snapshot[k].index),
        None => None,
    }
}

/// Some record of the snapshot competes with the primary whose index is
/// `primary`.
pub open spec fn competing_audio(snapshot: Seq<StreamModel>, primary: u32) -> bool {
    exists|j: int| 0 <= j < snapshot.len() && (#[trigger] snapshot[j]).competes_with(primary)
}

/// The volume the primary gets, given whether competing audio is present.
pub open spec fn volume_for(competing: bool) -> u8 {
    if competing {
        DUCKED_VOLUME
    } else {
        FULL_VOLUME
    }
}

/// The decision for a snapshot: the primary's index and its volume in
/// percent, or nothing where the snapshot has no primary.
pub open spec fn decision(snapshot: Seq<StreamModel>) -> Option<(u32, u8)> {
    match primary_index(snapshot) {
        Some(primary) => Some((primary, volume_for(competing_audio(snapshot, primary)))),
        None => None,
    }
}

/// `primary_position` is the position of the last candidate, and is `None`
/// exactly when no record is a candidate.
pub proof fn primary_position_is_last_candidate(snapshot: Seq<StreamModel>)
    ensures
        primary_position(snapshot) is None <==> !has_candidate(snapshot),
        primary_position(snapshot) matches Some(k) ==> is_last_candidate(snapshot, k),
        forall|k: int| is_last_candidate(snapshot, k) ==> primary_position(snapshot) == Some(k),
    decreases snapshot.len(),
{
    if snapshot.len() > 0 {
        // By induction on the records in front of the last one, which are
        // the snapshot's own.
        let front = snapshot.drop_last();
        primary_position_is_last_candidate(front);
        assert(forall|j: int| 0 <= j < front.len() ==> front[j] == snapshot[j]);
    }
}

/// The volume for the primary: ducked while competing audio is present, full
/// otherwise.
pub fn target_volume(competing: bool) -> (percent: u8)
    ensures
        percent == volume_for(competing),
        percent == DUCKED_VOLUME || percent == FULL_VOLUME,
{
    if competing {
        DUCKED_VOLUME
    } else {
        FULL_VOLUME
    }
}

/// Resolves the primary: the index of the last primary candidate in the
/// snapshot's order. Where several streams qualify, the later one wins.
pub fn find_primary(snapshot: &[StreamRecord]) -> (primary: Option<u32>)
    ensures
        primary == primary_index(snapshot.deep_view()),
        primary is None <==> !has_candidate(snapshot.deep_view()),
        primary matches Some(index) ==> exists|k: int|
            is_last_candidate(snapshot.deep_view(), k) && #[trigger] snapshot.deep_view()[k].index
                == index,
{
    let ghost model = snapshot.deep_view();
    let mut primary: Option<u32> = None;
    let mut i: usize = 0;
    while i < snapshot.len()
        invariant
            i <= snapshot@.len(),
            model == snapshot.deep_view(),
            primary == primary_index(model.take(i as int)),
        decreases snapshot@.len() - i,
    {
        let record = &snapshot[i];
        proof {
            let seen = model.take(i as int + 1);
            assert(seen.drop_last() =~= model.take(i as int));
            primary_position_is_last_candidate(model.take(i as int));
        }
        if record.is_primary_candidate() {
            primary = Some(record.index);
        }
        i += 1;
    }
    proof {
        assert(model.take(i as int) =~= model);
        primary_position_is_last_candidate(model);
    }
    primary
}

/// Whether any stream of the snapshot competes with the primary whose index
/// is `primary`.
pub fn has_competing_audio(snapshot: &[StreamRecord], primary: u32) -> (competing: bool)
    ensures
        competing == competing_audio(snapshot.deep_view(), primary),
{
    let ghost model = snapshot.deep_view();
    let mut competing = false;
    let mut i: usize = 0;
    while i < snapshot.len()
        invariant
            i <= snapshot@.len(),
            model == snapshot.deep_view(),
            competing <==> exists|j: int|
                0 <= j < i && (#[trigger] model[j]).competes_with(primary),
        decreases snapshot@.len() - i,
    {
        if snapshot[i].competes_with(primary) {
            assert(model[i as int].competes_with(primary));
            competing = true;
        }
        i += 1;
    }
    competing
}

/// Decides what to do about the primary for one snapshot.
///
/// Returns the primary's index and the volume, in percent, it should be set
/// to: `DUCKED_VOLUME` while any stream under another index is audible,
/// `FULL_VOLUME` otherwise. Returns `None` exactly when the snapshot holds no
/// primary candidate.
pub fn decide(snapshot: &[StreamRecord]) -> (decided: Option<(u32, u8)>)
    ensures
        decided == decision(snapshot.deep_view()),
        decided is None <==> !has_candidate(snapshot.deep_view()),
        decided matches Some((primary, percent)) ==> {
            &&& exists|k: int|
                is_last_candidate(snapshot.deep_view(), k) && #[trigger] snapshot.deep_view()[k].index
                    == primary
            &&& percent == if competing_audio(snapshot.deep_view(), primary) {
                DUCKED_VOLUME
            } else {
                FULL_VOLUME
            }
        },
{
    match find_primary(snapshot) {
        Some(primary) => {
            let competing = has_competing_audio(snapshot, primary);
            Some((primary, target_volume(competing)))
        },
        None => None,
    }
}

} // verus!
