//! The single-slot spatial-index rebuild pipeline.
//!
//! One background worker turns geometry snapshots into rebuilt acceleration
//! structures. The session keeps at most one request outstanding at any time;
//! the slot state makes that a structural property rather than a flag.

use vstd::prelude::*;

verus! {

/// State of the one logical rebuild slot.
///
/// - `Idle`: no job outstanding; a frame boundary may submit one.
/// - `Submitted`: exactly one job outstanding; a frame boundary polls for it.
/// - `Dead`: the worker is unreachable; no further submissions or pushes are
///   ever attempted. Terminal.
#[derive(Clone, Copy, PartialEq, Eq, Structural, Debug)]
pub enum RebuildSlot {
    Idle,
    Submitted,
    Dead,
}

/// What the driver observed on the result channel before a frame boundary.
///
/// `NotPolled` is passed when the slot did not ask for a poll (no job was
/// outstanding, or no frame boundary was crossed).
#[derive(Clone, Copy, PartialEq, Eq, Structural, Debug)]
pub enum PollOutcome {
    NotPolled,
    Ready,
    Empty,
    Disconnected,
}

/// The externally-performed work that a frame boundary decided on.
///
/// - `DoNothing`: no snapshot is sent and no index set is pushed.
/// - `SubmitSnapshot`: capture a geometry snapshot and send it to the worker.
/// - `ApplyAndResubmit`: push the completed index set to the solver, then
///   capture a fresh snapshot and send it in the same boundary.
#[derive(Clone, Copy, PartialEq, Eq, Structural, Debug)]
pub enum RebuildAction {
    DoNothing,
    SubmitSnapshot,
    ApplyAndResubmit,
}

/// How many jobs a slot in this state holds. By construction never above one.
pub open spec fn outstanding_jobs(slot: RebuildSlot) -> nat {
    match slot {
        RebuildSlot::Submitted => 1,
        _ => 0,
    }
}

/// The slot transition taken at a frame boundary, given what the poll of the
/// result channel observed.
pub open spec fn slot_transition(slot: RebuildSlot, poll: PollOutcome) -> (RebuildSlot, RebuildAction) {
    match slot {
        RebuildSlot::Idle => (RebuildSlot::Submitted, RebuildAction::SubmitSnapshot),
        RebuildSlot::Submitted => match poll {
            PollOutcome::Ready => (RebuildSlot::Submitted, RebuildAction::ApplyAndResubmit),
            PollOutcome::Disconnected => (RebuildSlot::Dead, RebuildAction::DoNothing),
            _ => (RebuildSlot::Submitted, RebuildAction::DoNothing),
        },
        RebuildSlot::Dead => (RebuildSlot::Dead, RebuildAction::DoNothing),
    }
}

/// The slot never holds more than one outstanding job, in any state and
/// across any transition.
pub proof fn lemma_slot_single_job(slot: RebuildSlot, poll: PollOutcome)
    ensures
        outstanding_jobs(slot) <= 1,
        outstanding_jobs(slot_transition(slot, poll).0) <= 1,
{
}

/// Staleness tolerance: while the worker has not answered, a frame boundary
/// leaves the one job pending and asks for no work — stepping proceeds with
/// the previously applied (possibly stale) spatial index, however long the
/// worker takes.
pub proof fn lemma_pending_poll_keeps_waiting()
    ensures
        slot_transition(RebuildSlot::Submitted, PollOutcome::Empty) == (
            RebuildSlot::Submitted,
            RebuildAction::DoNothing,
        ),
        slot_transition(RebuildSlot::Submitted, PollOutcome::NotPolled) == (
            RebuildSlot::Submitted,
            RebuildAction::DoNothing,
        ),
{
}

/// A dead slot stays dead and never asks for further work: once the worker
/// is unreachable, spatial-index updates are skipped for good.
pub proof fn lemma_dead_slot_is_terminal(poll: PollOutcome)
    ensures
        slot_transition(RebuildSlot::Dead, poll).0 == RebuildSlot::Dead,
        slot_transition(RebuildSlot::Dead, poll).1 == RebuildAction::DoNothing,
{
}

} // verus!
