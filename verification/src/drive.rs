//! Deciding, round by round, how a chunk request that is being driven to
//! completion goes on.
use vstd::prelude::*;

verus! {

/// How long a chunk may take to load, in seconds, before the request fails.
pub const CHUNK_LOAD_TIMEOUT_SECS: u64 = 30;

/// How long one round waits for the chunk to be complete, in milliseconds,
/// before the scheduling is driven again.
pub const CHUNK_WAIT_SLICE_MILLIS: u64 = 1;

/// What was observed at the start of, or during, one round of driving a
/// chunk request.
#[derive(Clone, Copy, Debug, PartialEq, Eq, Structural)]
pub enum DriveEvent {
    /// The deadline had passed before the round began.
    DeadlinePassed,
    /// Scheduling ran, but the chunk has no holder yet.
    HolderMissing,
    /// The chunk reached its complete status.
    ReachedFull,
    /// The request was disallowed or cancelled before the chunk was complete.
    Cancelled,
    /// The chunk was not complete within the wait slice.
    WaitTimedOut,
}

/// Why driving a chunk request failed.
#[derive(Clone, Copy, Debug, PartialEq, Eq, Structural)]
pub enum DriveFailure {
    /// The request was disallowed or cancelled.
    Cancelled,
    /// The chunk was not complete before the deadline.
    DeadlineExceeded,
}

/// What to do after an event.
#[derive(Clone, Copy, Debug, PartialEq, Eq, Structural)]
pub enum DriveDecision {
    /// The chunk is loaded: hand back its request.
    Done,
    /// Drive the scheduling for another round.
    KeepDriving,
    /// Stop: the chunk cannot be loaded.
    Fail(DriveFailure),
}

/// The decision after `event`: done once the chunk is complete, a failure
/// when the request was cancelled or the deadline passed, and another round
/// otherwise.
pub fn decide(event: DriveEvent) -> (d: DriveDecision)
    ensures
        d == DriveDecision::Done <==> event == DriveEvent::ReachedFull,
        d == DriveDecision::Fail(DriveFailure::Cancelled) <==> event == DriveEvent::Cancelled,
        d == DriveDecision::Fail(DriveFailure::DeadlineExceeded) <==> event == DriveEvent::DeadlinePassed,
        d == DriveDecision::KeepDriving <==> (event == DriveEvent::HolderMissing || event == DriveEvent::WaitTimedOut),
{
    match event {
        DriveEvent::DeadlinePassed => DriveDecision::Fail(DriveFailure::DeadlineExceeded),
        DriveEvent::HolderMissing => DriveDecision::KeepDriving,
        DriveEvent::ReachedFull => DriveDecision::Done,
        DriveEvent::Cancelled => DriveDecision::Fail(DriveFailure::Cancelled),
        DriveEvent::WaitTimedOut => DriveDecision::KeepDriving,
    }
}

} // verus!
