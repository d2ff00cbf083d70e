//! What holds of the decision for every snapshot.
//!
//! Each statement is over `decision`, the function that `decide` is proved
//! to compute.

use vstd::prelude::*;

use crate::engine::{
    competing_audio, decision, has_candidate, is_last_candidate, primary_index, primary_position,
    primary_position_is_last_candidate, DUCKED_VOLUME, FULL_VOLUME,
};
use crate::stream::{distinct_indices, StreamModel};

verus! {

/// Position `k` holds the only primary candidate of the snapshot.
pub open spec fn is_only_candidate(snapshot: Seq<StreamModel>, k: int) -> bool {
    &&& 0 <= k < snapshot.len()
    &&& snapshot[k].is_primary_candidate()
    &&& forall|i: int|
        0 <= i < snapshot.len() && i != k ==> !(#[trigger] snapshot[i]).is_primary_candidate()
}

/// A snapshot in which no record is a primary candidate yields no decision,
/// whatever its records hold otherwise.
pub proof fn no_candidate_no_decision(snapshot: Seq<StreamModel>)
    requires
        forall|i: int|
            0 <= i < snapshot.len() ==> !(#[trigger] snapshot[i]).is_primary_candidate(),
    ensures
        decision(snapshot) is None,
{
    primary_position_is_last_candidate(snapshot);
}

/// A decision is made exactly when some record is a primary candidate.
pub proof fn decision_exists_iff_candidate(snapshot: Seq<StreamModel>)
    ensures
        decision(snapshot) is Some <==> has_candidate(snapshot),
{
    primary_position_is_last_candidate(snapshot);
}

/// With exactly one primary candidate and no audible record at any other
/// position, the decision is the candidate's index at full volume.
pub proof fn lone_primary_plays_at_full_volume(snapshot: Seq<StreamModel>, k: int)
    requires
        is_only_candidate(snapshot, k),
        forall|i: int| 0 <= i < snapshot.len() && i != k ==> !(#[trigger] snapshot[i]).is_audible(),
    ensures
        decision(snapshot) == Some((snapshot[k].index, FULL_VOLUME)),
{
    primary_position_is_last_candidate(snapshot);
    assert forall|j: int| 0 <= j < snapshot.len() implies !(#[trigger] snapshot[j])
        .competes_with(snapshot[k].index) by {
        // Position `k` holds the primary's own index; no other is audible.
        assert(j != k ==> !snapshot[j].is_audible());
    }
}

/// With exactly one primary candidate and an audible record under another
/// index, the decision is the candidate's index at ducked volume.
pub proof fn primary_is_ducked_under_competing_audio(
    snapshot: Seq<StreamModel>,
    k: int,
    j: int,
)
    requires
        is_only_candidate(snapshot, k),
        0 <= j < snapshot.len(),
        snapshot[j].is_audible(),
        snapshot[j].index != snapshot[k].index,
    ensures
        decision(snapshot) == Some((snapshot[k].index, DUCKED_VOLUME)),
{
    primary_position_is_last_candidate(snapshot);
}

/// In a snapshot of distinct indices, with exactly one primary candidate and
/// an audible record at some other position, the decision is the candidate's
/// index at ducked volume.
pub proof fn primary_is_ducked_under_other_audio(snapshot: Seq<StreamModel>, k: int)
    requires
        distinct_indices(snapshot),
        is_only_candidate(snapshot, k),
        exists|j: int| 0 <= j < snapshot.len() && j != k && (#[trigger] snapshot[j]).is_audible(),
    ensures
        decision(snapshot) == Some((snapshot[k].index, DUCKED_VOLUME)),
{
    let j = choose|j: int|
        0 <= j < snapshot.len() && j != k && (#[trigger] snapshot[j]).is_audible();
    primary_is_ducked_under_competing_audio(snapshot, k, j);
}

/// A record that is corked, muted, or both competes with no primary,
/// whatever its index and whichever application owns it.
pub proof fn silent_record_never_competes(record: StreamModel, primary: u32)
    requires
        record.corked || record.muted,
    ensures
        !record.competes_with(primary),
{
}

/// A record under the primary's own index does not compete with the primary.
pub proof fn primary_does_not_compete_with_itself(record: StreamModel)
    ensures
        !record.competes_with(record.index),
{
}

/// Putting a corked or muted record anywhere into a snapshot does not change
/// whether competing audio is present, for any primary.
pub proof fn silent_record_leaves_competition_unchanged(
    snapshot: Seq<StreamModel>,
    at: int,
    record: StreamModel,
    primary: u32,
)
    requires
        0 <= at <= snapshot.len(),
        record.corked || record.muted,
    ensures
        competing_audio(snapshot.insert(at, record), primary) == competing_audio(
            snapshot,
            primary,
        ),
{
    let grown = snapshot.insert(at, record);
    if competing_audio(snapshot, primary) {
        // A competing record keeps competing at the position it is moved to.
        let j = choose|j: int|
            0 <= j < snapshot.len() && (#[trigger] snapshot[j]).competes_with(primary);
        let moved = if j < at {
            j
        } else {
            j + 1
        };
        assert(grown[moved].competes_with(primary));
    }
    if competing_audio(grown, primary) {
        // A competing record is not the one put in, so the snapshot had it.
        let j = choose|j: int| 0 <= j < grown.len() && (#[trigger] grown[j]).competes_with(primary);
        let origin = if j < at {
            j
        } else {
            j - 1
        };
        assert(snapshot[origin].competes_with(primary));
    }
}

/// Putting a corked or muted record that is no primary candidate anywhere
/// into a snapshot does not change the decision.
pub proof fn silent_record_leaves_decision_unchanged(
    snapshot: Seq<StreamModel>,
    at: int,
    record: StreamModel,
)
    requires
        0 <= at <= snapshot.len(),
        record.corked || record.muted,
        !record.is_primary_candidate(),
    ensures
        decision(snapshot.insert(at, record)) == decision(snapshot),
{
    let grown = snapshot.insert(at, record);
    primary_position_is_last_candidate(snapshot);
    primary_position_is_last_candidate(grown);
    match primary_position(snapshot) {
        Some(k) => {
            // The last candidate stays the last one at the position it is
            // moved to.
            let moved = if k < at {
                k
            } else {
                k + 1
            };
            assert(is_last_candidate(grown, moved)) by {
                assert(forall|j: int| at < j < grown.len() ==> grown[j] == snapshot[j - 1]);
            }
            silent_record_leaves_competition_unchanged(snapshot, at, record, snapshot[k].index);
        },
        None => {
            // A candidate is not the one put in, so the snapshot had it.
            if has_candidate(grown) {
                let j = choose|j: int|
                    0 <= j < grown.len() && (#[trigger] grown[j]).is_primary_candidate();
                let origin = if j < at {
                    j
                } else {
                    j - 1
                };
                assert(snapshot[origin].is_primary_candidate());
            }
        },
    }
}

/// Of two primary candidates the earlier one is never the primary: the
/// primary stands at the later one's position or behind it.
pub proof fn later_candidate_wins(snapshot: Seq<StreamModel>, earlier: int, later: int)
    requires
        0 <= earlier < later < snapshot.len(),
        snapshot[earlier].is_primary_candidate(),
        snapshot[later].is_primary_candidate(),
    ensures
        primary_position(snapshot) matches Some(k) && later <= k,
        is_last_candidate(snapshot, later) ==> primary_index(snapshot) == Some(
            snapshot[later].index,
        ),
{
    primary_position_is_last_candidate(snapshot);
}

/// Where exactly two records are primary candidates, the decision names the
/// one that appears later in the snapshot.
pub proof fn of_two_candidates_the_later_is_primary(
    snapshot: Seq<StreamModel>,
    earlier: int,
    later: int,
)
    requires
        0 <= earlier < later < snapshot.len(),
        snapshot[earlier].is_primary_candidate(),
        snapshot[later].is_primary_candidate(),
        forall|i: int|
            0 <= i < snapshot.len() && (#[trigger] snapshot[i]).is_primary_candidate() ==> i
                == earlier || i == later,
    ensures
        decision(snapshot) matches Some((primary, _)) && primary == snapshot[later].index,
{
    primary_position_is_last_candidate(snapshot);
}

/// The decision is determined by the snapshot: any two results that `decide`
/// may return for the same snapshot are equal.
pub proof fn decision_is_repeatable(
    snapshot: Seq<StreamModel>,
    first: Option<(u32, u8)>,
    second: Option<(u32, u8)>,
)
    requires
        first == decision(snapshot),
        second == decision(snapshot),
    ensures
        first == second,
{
}

/// The decided volume is one of the two levels, and never above 100 percent.
pub proof fn volume_is_ducked_or_full(snapshot: Seq<StreamModel>)
    ensures
        decision(snapshot) matches Some((_, percent)) ==> (percent == DUCKED_VOLUME || percent
            == FULL_VOLUME) && percent <= 100,
{
}

} // verus!
