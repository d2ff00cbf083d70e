//! The polling cycle: what the controller asks of the outside world, and
//! what it asks next once an answer has come back.
//!
//! One cycle acquires a snapshot, decides, sets the primary's volume where
//! there is a primary, and sleeps. The controller itself performs none of
//! this: it hands out an `Action`, the caller carries it out and reports an
//! `Event`, and `step` answers with the action that follows. Between two
//! steps the controller keeps nothing but the action that is under way.

use vstd::prelude::*;

use crate::engine::{decide, decision};
use crate::stream::{Snapshot, StreamModel};

verus! {

/// Time between the end of one cycle and the start of the next, in
/// milliseconds.
pub const POLL_INTERVAL_MS: u64 = 200;

/// What to do when no snapshot could be had in a cycle.
#[derive(Clone, Copy, Debug, PartialEq, Eq)]
pub enum FailurePolicy {
    /// Report the failure and try again after the usual delay.
    Retry,
    /// Report the failure and stop for good.
    Terminate,
}

/// What the controller asks its caller to do.
#[derive(Clone, Copy, Debug, PartialEq, Eq)]
pub enum Action {
    /// Query the audio server for a snapshot of its streams.
    AcquireSnapshot,
    /// Set the volume of the stream `index` to `percent` percent.
    SetVolume { index: u32, percent: u8 },
    /// Wait for `millis` milliseconds.
    Sleep { millis: u64 },
    /// Leave the loop. No event answers this.
    Stop,
}

/// What came of an action.
#[derive(Debug, PartialEq, Eq)]
pub enum Event {
    /// The audio server answered with these streams.
    SnapshotReady(Snapshot),
    /// The audio server could not be reached, or its query failed.
    AcquisitionFailed,
    /// The audio server answered with something that is no list of streams.
    MalformedPayload,
    /// The volume was set.
    VolumeApplied,
    /// The volume could not be set.
    ActuationFailed,
    /// The wait is over.
    SleepElapsed,
}

/// What an `Event` holds, with the snapshot as a sequence of stream models.
pub enum EventModel {
    SnapshotReady(Seq<StreamModel>),
    AcquisitionFailed,
    MalformedPayload,
    VolumeApplied,
    ActuationFailed,
    SleepElapsed,
}

impl View for Event {
    type V = EventModel;

    open spec fn view(&self) -> EventModel {
        match self {
            Event::SnapshotReady(records) => EventModel::SnapshotReady(records.deep_view()),
            Event::AcquisitionFailed => EventModel::AcquisitionFailed,
            Event::MalformedPayload => EventModel::MalformedPayload,
            Event::VolumeApplied => EventModel::VolumeApplied,
            Event::ActuationFailed => EventModel::ActuationFailed,
            Event::SleepElapsed => EventModel::SleepElapsed,
        }
    }
}

/// A failure the caller should make known. None of them is an error of the
/// controller: each stems from the outside.
#[derive(Clone, Copy, Debug, PartialEq, Eq)]
pub enum Diagnostic {
    AcquisitionFailed,
    MalformedPayload,
    /// The volume of the stream `index` could not be set.
    ActuationFailed { index: u32 },
}

/// The controller's answer to an event.
#[derive(Clone, Copy, Debug, PartialEq, Eq)]
pub struct Step {
    /// What to do next.
    pub action: Action,
    /// What to report before doing it, if anything.
    pub diagnostic: Option<Diagnostic>,
}

/// The wait that ends every cycle.
pub open spec fn pause() -> Action {
    Action::Sleep { millis: POLL_INTERVAL_MS }
}

/// What follows a decision: the primary's volume is set where there is a
/// primary, and the cycle goes straight to its wait where there is none.
pub open spec fn after_decision(decided: Option<(u32, u8)>) -> Action {
    match decided {
        Some((index, percent)) => Action::SetVolume { index, percent },
        None => pause(),
    }
}

/// What follows a cycle without a snapshot.
pub open spec fn after_failure(policy: FailurePolicy) -> Action {
    match policy {
        FailurePolicy::Retry => pause(),
        FailurePolicy::Terminate => Action::Stop,
    }
}

/// The event is a possible outcome of the action.
pub open spec fn answers(pending: Action, event: EventModel) -> bool {
    match pending {
        Action::AcquireSnapshot => event is SnapshotReady || event is AcquisitionFailed
            || event is MalformedPayload,
        Action::SetVolume { .. } => event is VolumeApplied || event is ActuationFailed,
        Action::Sleep { .. } => event is SleepElapsed,
        Action::Stop => false,
    }
}

/// The step that follows when `event` comes back while `pending` is under
/// way, or `None` where the event is no outcome of that action.
pub open spec fn transition(policy: FailurePolicy, pending: Action, event: EventModel) -> Option<
    Step,
> {
    match (pending, event) {
        (Action::AcquireSnapshot, EventModel::SnapshotReady(snapshot)) => Some(
            Step { action: after_decision(decision(snapshot)), diagnostic: None },
        ),
        (Action::AcquireSnapshot, EventModel::AcquisitionFailed) => Some(
            Step {
                action: after_failure(policy),
                diagnostic: Some(Diagnostic::AcquisitionFailed),
            },
        ),
        (Action::AcquireSnapshot, EventModel::MalformedPayload) => Some(
            Step { action: after_failure(policy), diagnostic: Some(Diagnostic::MalformedPayload) },
        ),
        (Action::SetVolume { .. }, EventModel::VolumeApplied) => Some(
            Step { action: pause(), diagnostic: None },
        ),
        (Action::SetVolume { index, .. }, EventModel::ActuationFailed) => Some(
            Step { action: pause(), diagnostic: Some(Diagnostic::ActuationFailed { index }) },
        ),
        (Action::Sleep { .. }, EventModel::SleepElapsed) => Some(
            Step { action: Action::AcquireSnapshot, diagnostic: None },
        ),
        _ => None,
    }
}

/// The action that opens the first cycle.
pub fn first_action() -> (action: Action)
    ensures
        action == Action::AcquireSnapshot,
{
    Action::AcquireSnapshot
}

/// The action that follows a decision.
fn plan(decided: Option<(u32, u8)>) -> (action: Action)
    ensures
        action == after_decision(decided),
{
    match decided {
        Some((index, percent)) => Action::SetVolume { index, percent },
        None => Action::Sleep { millis: POLL_INTERVAL_MS },
    }
}

/// The action that follows a cycle without a snapshot.
fn recover(policy: FailurePolicy) -> (action: Action)
    ensures
        action == after_failure(policy),
{
    match policy {
        FailurePolicy::Retry => Action::Sleep { millis: POLL_INTERVAL_MS },
        FailurePolicy::Terminate => Action::Stop,
    }
}

/// Answers the event that came back while `pending` was under way.
///
/// Returns the next action, with the failure to report if the event was
/// one. Returns `None` exactly when the event is no outcome of `pending`;
/// after `Action::Stop` that is every event.
pub fn step(policy: FailurePolicy, pending: Action, event: &Event) -> (next: Option<Step>)
    ensures
        next == transition(policy, pending, event@),
        next is Some <==> answers(pending, event@),
{
    match pending {
        Action::AcquireSnapshot => match event {
            Event::SnapshotReady(records) => {
                let snapshot = records.as_slice();
                assert(snapshot.deep_view() == records.deep_view());
                Some(Step { action: plan(decide(snapshot)), diagnostic: None })
            },
            Event::AcquisitionFailed => Some(
                Step { action: recover(policy), diagnostic: Some(Diagnostic::AcquisitionFailed) },
            ),
            Event::MalformedPayload => Some(
                Step { action: recover(policy), diagnostic: Some(Diagnostic::MalformedPayload) },
            ),
            _ => None,
        },
        Action::SetVolume { index, .. } => match event {
            Event::VolumeApplied => Some(
                Step { action: Action::Sleep { millis: POLL_INTERVAL_MS }, diagnostic: None },
            ),
            Event::ActuationFailed => Some(
                Step {
                    action: Action::Sleep { millis: POLL_INTERVAL_MS },
                    diagnostic: Some(Diagnostic::ActuationFailed { index }),
                },
            ),
            _ => None,
        },
        Action::Sleep { .. } => match event {
            Event::SleepElapsed => Some(Step { action: Action::AcquireSnapshot, diagnostic: None }),
            _ => None,
        },
        Action::Stop => None,
    }
}

} // verus!
