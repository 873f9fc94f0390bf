//! The lifecycle state of a request, and the edges it may move along.

use vstd::prelude::*;

use crate::entity::{Proof, ProofV, clone_proof};

verus! {

/// Lifecycle state of a request.
#[derive(Debug)]
pub enum Status {
    Registered,
    WorkInProgress,
    Success { proof: Proof },
    Cancelled,
    Failed { error: String },
}

/// Mathematical form of a lifecycle state.
pub enum StatusV {
    Registered,
    WorkInProgress,
    Success { proof: ProofV },
    Cancelled,
    Failed { error: Seq<char> },
}

impl View for Status {
    type V = StatusV;

    open spec fn view(&self) -> StatusV {
        match self {
            Status::Registered => StatusV::Registered,
            Status::WorkInProgress => StatusV::WorkInProgress,
            Status::Success { proof } => StatusV::Success { proof: proof@ },
            Status::Cancelled => StatusV::Cancelled,
            Status::Failed { error } => StatusV::Failed { error: error@ },
        }
    }
}

impl StatusV {
    /// A terminal state is never left except by re-registration, which
    /// opens a new epoch.
    pub open spec fn is_terminal(self) -> bool {
        match self {
            StatusV::Success { .. } => true,
            StatusV::Cancelled => true,
            StatusV::Failed { .. } => true,
            _ => false,
        }
    }
}

/// The edges of the lifecycle state machine, within one epoch: work moves
/// from `Registered` through `WorkInProgress` to `Success` or `Failed`, and
/// cancellation may leave `Registered` or `WorkInProgress` for `Cancelled`.
pub open spec fn step_allowed(from: StatusV, to: StatusV) -> bool {
    match (from, to) {
        (StatusV::Registered, StatusV::WorkInProgress) => true,
        (StatusV::Registered, StatusV::Cancelled) => true,
        (StatusV::WorkInProgress, StatusV::Success { .. }) => true,
        (StatusV::WorkInProgress, StatusV::Failed { .. }) => true,
        (StatusV::WorkInProgress, StatusV::Cancelled) => true,
        _ => false,
    }
}

/// A lifecycle state together with the time it was entered.
#[derive(Debug)]
pub struct StatusWithContext {
    pub status: Status,
    pub timestamp: i64,
}

/// Mathematical form of a timed lifecycle state.
pub struct StatusCtxV {
    pub status: StatusV,
    pub timestamp: i64,
}

impl View for StatusWithContext {
    type V = StatusCtxV;

    open spec fn view(&self) -> StatusCtxV {
        StatusCtxV { status: self.status@, timestamp: self.timestamp }
    }
}

impl StatusWithContext {
    /// A fresh `Registered` state entered at `now`.
    pub fn new_registered(now: i64) -> (r: StatusWithContext)
        ensures
            r@ == (StatusCtxV { status: StatusV::Registered, timestamp: now }),
    {
        StatusWithContext { status: Status::Registered, timestamp: now }
    }

    /// A fresh `WorkInProgress` state entered at `now`.
    pub fn new_work_in_progress(now: i64) -> (r: StatusWithContext)
        ensures
            r@ == (StatusCtxV { status: StatusV::WorkInProgress, timestamp: now }),
    {
        StatusWithContext { status: Status::WorkInProgress, timestamp: now }
    }

    /// A fresh `Cancelled` state entered at `now`.
    pub fn new_cancelled(now: i64) -> (r: StatusWithContext)
        ensures
            r@ == (StatusCtxV { status: StatusV::Cancelled, timestamp: now }),
    {
        StatusWithContext { status: Status::Cancelled, timestamp: now }
    }
}

/// Duplicate a lifecycle state; the copy denotes the same state.
pub fn clone_status(s: &Status) -> (r: Status)
    ensures
        r@ == s@,
{
    match s {
        Status::Registered => Status::Registered,
        Status::WorkInProgress => Status::WorkInProgress,
        Status::Success { proof } => Status::Success { proof: clone_proof(proof) },
        Status::Cancelled => Status::Cancelled,
        Status::Failed { error } => Status::Failed { error: error.clone() },
    }
}

/// Duplicate a timed lifecycle state; the copy denotes the same state.
pub fn clone_status_ctx(s: &StatusWithContext) -> (r: StatusWithContext)
    ensures
        r@ == s@,
{
    StatusWithContext { status: clone_status(&s.status), timestamp: s.timestamp }
}

} // verus!
