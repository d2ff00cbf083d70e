//! What holds of every step of the polling cycle.
//!
//! Each statement is over `transition`, the function that `step` is proved
//! to compute.

use vstd::prelude::*;

use crate::cycle::{
    after_decision, answers, pause, transition, Action, Diagnostic, EventModel, FailurePolicy, Step,
};
use crate::engine::{
    decision, has_candidate, primary_position_is_last_candidate, DUCKED_VOLUME, FULL_VOLUME,
};
use crate::stream::StreamModel;

verus! {

/// An event gets a step exactly when it is an outcome of the action under
/// way.
pub proof fn step_exists_iff_event_answers(
    policy: FailurePolicy,
    pending: Action,
    event: EventModel,
)
    ensures
        transition(policy, pending, event) is Some <==> answers(pending, event),
{
}

/// A cycle keeps its order. An acquisition is followed by setting the
/// volume, by the wait, or by the stop; setting the volume is followed by
/// the wait; the wait is followed by the next acquisition.
pub proof fn cycle_keeps_its_order(policy: FailurePolicy, pending: Action, event: EventModel)
    requires
        transition(policy, pending, event) is Some,
    ensures
        pending is AcquireSnapshot ==> {
            let next = transition(policy, pending, event)->0.action;
            next is SetVolume || next == pause() || next is Stop
        },
        pending is SetVolume ==> transition(policy, pending, event)->0.action == pause(),
        pending is Sleep ==> transition(policy, pending, event)->0.action
            == Action::AcquireSnapshot,
        !(pending is Stop),
{
}

/// The volume is set only as decided: on a snapshot that has a primary,
/// for that primary, to the decided volume, which is one of the two levels.
pub proof fn volume_is_set_only_as_decided(
    policy: FailurePolicy,
    pending: Action,
    event: EventModel,
    index: u32,
    percent: u8,
)
    requires
        transition(policy, pending, event) matches Some(step) && step.action == (Action::SetVolume {
            index,
            percent,
        }),
    ensures
        pending is AcquireSnapshot,
        event matches EventModel::SnapshotReady(snapshot) && decision(snapshot) == Some(
            (index, percent),
        ),
        percent == DUCKED_VOLUME || percent == FULL_VOLUME,
{
}

/// What follows a snapshot is determined by the snapshot alone: by its
/// decision, whatever the policy and whatever happened in earlier cycles.
pub proof fn snapshot_alone_determines_the_step(
    policy: FailurePolicy,
    snapshot: Seq<StreamModel>,
)
    ensures
        transition(policy, Action::AcquireSnapshot, EventModel::SnapshotReady(snapshot)) == Some(
            Step { action: after_decision(decision(snapshot)), diagnostic: None },
        ),
        decision(snapshot) matches Some((index, percent)) ==> after_decision(decision(snapshot))
            == (Action::SetVolume { index, percent }),
        decision(snapshot) is None ==> after_decision(decision(snapshot)) == pause(),
{
}

/// A snapshot without a primary candidate leads to no change of volume:
/// the cycle goes straight to its wait, and nothing is reported.
pub proof fn no_primary_no_actuation(policy: FailurePolicy, snapshot: Seq<StreamModel>)
    requires
        !has_candidate(snapshot),
    ensures
        transition(policy, Action::AcquireSnapshot, EventModel::SnapshotReady(snapshot)) == Some(
            Step { action: pause(), diagnostic: None },
        ),
{
    primary_position_is_last_candidate(snapshot);
}

/// A volume that could not be set is reported, and the loop goes on with
/// its wait, under either policy.
pub proof fn failed_actuation_is_reported_and_survived(
    policy: FailurePolicy,
    index: u32,
    percent: u8,
)
    ensures
        transition(policy, Action::SetVolume { index, percent }, EventModel::ActuationFailed)
            == Some(
            Step { action: pause(), diagnostic: Some(Diagnostic::ActuationFailed { index }) },
        ),
{
}

/// Something is reported exactly when the event is a failure.
pub proof fn report_iff_failure(policy: FailurePolicy, pending: Action, event: EventModel)
    requires
        transition(policy, pending, event) is Some,
    ensures
        transition(policy, pending, event)->0.diagnostic is Some <==> (event is AcquisitionFailed
            || event is MalformedPayload || event is ActuationFailed),
{
}

/// The loop stops only under `Terminate`, and only when no snapshot could
/// be had.
pub proof fn stops_only_on_failed_acquisition(
    policy: FailurePolicy,
    pending: Action,
    event: EventModel,
)
    requires
        transition(policy, pending, event) matches Some(step) && step.action is Stop,
    ensures
        policy is Terminate,
        pending is AcquireSnapshot,
        event is AcquisitionFailed || event is MalformedPayload,
{
}

/// Under `Retry` the loop never stops.
pub proof fn retry_never_stops(pending: Action, event: EventModel)
    ensures
        transition(FailurePolicy::Retry, pending, event) matches Some(step) ==> !(step.action
            is Stop),
{
}

/// Two acquisitions are always a wait apart: a snapshot is asked for only
/// when a wait has ended, and every wait the controller asks for lasts the
/// poll interval.
pub proof fn acquisitions_are_a_wait_apart(
    policy: FailurePolicy,
    pending: Action,
    event: EventModel,
)
    requires
        transition(policy, pending, event) is Some,
    ensures
        transition(policy, pending, event)->0.action is AcquireSnapshot ==> pending is Sleep,
        transition(policy, pending, event)->0.action is Sleep ==> transition(
            policy,
            pending,
            event,
        )->0.action == pause(),
{
}

} // verus!
