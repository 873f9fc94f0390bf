//! The pure decisions of the actor's event loop: what a `Prove` or `Cancel`
//! command does given what the store returned, and what an internal recheck
//! does. The loop that owns the channels performs the effects these
//! functions prescribe; transient store failures are decided here, on the
//! store's returned value, so the decisions hold for a fallible store too.

use vstd::prelude::*;

use vstd::string::StrSliceExecFns;

use crate::entity::RequestEntity;
use crate::request::RequestKey;
use crate::status::{StatusV, StatusWithContext};

verus! {

/// An external command: request a proof, or cancel one.
#[derive(Debug)]
pub enum Action {
    Prove { request_key: RequestKey, request_entity: RequestEntity },
    Cancel { request_key: RequestKey },
}

impl Action {
    /// The key the action concerns.
    pub fn request_key(&self) -> (r: &RequestKey)
        ensures
            r@ == self.spec_request_key(),
    {
        match self {
            Action::Prove { request_key, .. } => request_key,
            Action::Cancel { request_key } => request_key,
        }
    }

    /// Specification of `request_key`.
    pub open spec fn spec_request_key(&self) -> crate::request::KeyV {
        match self {
            Action::Prove { request_key, .. } => request_key@,
            Action::Cancel { request_key } => request_key@,
        }
    }
}

/// What a `Prove` command does, given what the store's status lookup
/// returned.
#[derive(Clone, Copy, PartialEq, Eq, Structural, Debug)]
pub enum ProveStep {
    /// Absent or terminated by cancellation/failure: (re)register a fresh
    /// `Registered` epoch and return it.
    Register,
    /// Already registered, working, or succeeded: return the stored status
    /// unchanged.
    ReturnExisting,
    /// The lookup itself failed: surface the store's error to the caller.
    PropagateError,
}

/// Decide a `Prove` command from the store's answer.
pub fn prove_decision(lookup: &Result<Option<StatusWithContext>, String>) -> (r: ProveStep)
    ensures
        match lookup {
            Ok(found) => match found {
                Some(s) => r == (match s@.status {
                    StatusV::Registered => ProveStep::ReturnExisting,
                    StatusV::WorkInProgress => ProveStep::ReturnExisting,
                    StatusV::Success { .. } => ProveStep::ReturnExisting,
                    StatusV::Cancelled => ProveStep::Register,
                    StatusV::Failed { .. } => ProveStep::Register,
                }),
                None => r == ProveStep::Register,
            },
            Err(_) => r == ProveStep::PropagateError,
        },
{
    match lookup {
        Ok(Some(s)) => match &s.status {
            crate::status::Status::Registered => ProveStep::ReturnExisting,
            crate::status::Status::WorkInProgress => ProveStep::ReturnExisting,
            crate::status::Status::Success { .. } => ProveStep::ReturnExisting,
            crate::status::Status::Cancelled => ProveStep::Register,
            crate::status::Status::Failed { .. } => ProveStep::Register,
        },
        Ok(None) => ProveStep::Register,
        Err(_) => ProveStep::PropagateError,
    }
}

/// What a `Cancel` command does, given the key and what the store's status
/// lookup returned.
#[derive(Clone, Copy, PartialEq, Eq, Structural, Debug)]
pub enum CancelStep {
    /// The key is not in the pool: an error, and no entry is created.
    NotInPool,
    /// Already terminal: return the stored status unchanged.
    ReturnExisting,
    /// Registered, or in progress for a kind without an engine-level abort:
    /// write `Cancelled` without touching the proof engine.
    MarkCancelled,
    /// A single proof is in progress: ask the engine to abort it, then
    /// write `Cancelled` if the abort is accepted.
    AbortEngineThenCancel,
    /// The lookup itself failed: surface the store's error to the caller.
    PropagateError,
}

/// Decide a `Cancel` command from the key and the store's answer.
pub fn cancel_decision(
    key: &RequestKey,
    lookup: &Result<Option<StatusWithContext>, String>,
) -> (r: CancelStep)
    ensures
        match lookup {
            Ok(found) => match found {
                Some(s) => r == (match s@.status {
                    StatusV::Registered => CancelStep::MarkCancelled,
                    StatusV::WorkInProgress => if key is SingleProof {
                        CancelStep::AbortEngineThenCancel
                    } else {
                        CancelStep::MarkCancelled
                    },
                    StatusV::Success { .. } => CancelStep::ReturnExisting,
                    StatusV::Cancelled => CancelStep::ReturnExisting,
                    StatusV::Failed { .. } => CancelStep::ReturnExisting,
                }),
                None => r == CancelStep::NotInPool,
            },
            Err(_) => r == CancelStep::PropagateError,
        },
{
    match lookup {
        Ok(Some(s)) => match &s.status {
            crate::status::Status::Registered => CancelStep::MarkCancelled,
            crate::status::Status::WorkInProgress => match key {
                RequestKey::SingleProof(_) => CancelStep::AbortEngineThenCancel,
                _ => CancelStep::MarkCancelled,
            },
            crate::status::Status::Success { .. } => CancelStep::ReturnExisting,
            crate::status::Status::Cancelled => CancelStep::ReturnExisting,
            crate::status::Status::Failed { .. } => CancelStep::ReturnExisting,
        },
        Ok(None) => CancelStep::NotInPool,
        Err(_) => CancelStep::PropagateError,
    }
}

/// What an internal recheck does, given what the store's full lookup
/// returned.
#[derive(Clone, Copy, PartialEq, Eq, Structural, Debug)]
pub enum RecheckStep {
    /// Registered: dispatch the payload to the proof engine, then re-arm a
    /// recheck in case the supervisor's own re-arm is lost.
    Dispatch,
    /// Work in progress: poll again after the fixed backoff.
    PollLater,
    /// Terminal: nothing left to do.
    Done,
    /// Absent: the request was removed out of band; drop the token.
    Discard,
    /// The lookup itself failed: treat as transient and retry after the
    /// fixed backoff.
    RetryLater,
}

/// Decide an internal recheck from the store's answer.
pub fn recheck_decision(
    lookup: &Result<Option<(RequestEntity, StatusWithContext)>, String>,
) -> (r: RecheckStep)
    ensures
        match lookup {
            Ok(found) => match found {
                Some(p) => r == (match p.1@.status {
                    StatusV::Registered => RecheckStep::Dispatch,
                    StatusV::WorkInProgress => RecheckStep::PollLater,
                    StatusV::Success { .. } => RecheckStep::Done,
                    StatusV::Cancelled => RecheckStep::Done,
                    StatusV::Failed { .. } => RecheckStep::Done,
                }),
                None => r == RecheckStep::Discard,
            },
            Err(_) => r == RecheckStep::RetryLater,
        },
{
    match lookup {
        Ok(Some((_, s))) => match &s.status {
            crate::status::Status::Registered => RecheckStep::Dispatch,
            crate::status::Status::WorkInProgress => RecheckStep::PollLater,
            crate::status::Status::Success { .. } => RecheckStep::Done,
            crate::status::Status::Cancelled => RecheckStep::Done,
            crate::status::Status::Failed { .. } => RecheckStep::Done,
        },
        Ok(None) => RecheckStep::Discard,
        Err(_) => RecheckStep::RetryLater,
    }
}

/// Whether `needle` occurs contiguously in `hay`.
pub open spec fn seq_contains(hay: Seq<char>, needle: Seq<char>) -> bool {
    exists|i: int|
        0 <= i && i + needle.len() <= hay.len() && #[trigger] hay.subrange(i, i + needle.len())
            == needle
}

/// Whether `needle` occurs in `hay` starting at `i`.
fn matches_at(hay: &str, needle: &str, i: usize) -> (r: bool)
    requires
        i + needle@.len() <= hay@.len(),
        hay@.len() <= usize::MAX,
    ensures
        r == (hay@.subrange(i as int, i + needle@.len()) == needle@),
{
    let n = needle.unicode_len();
    let mut j: usize = 0;
    while j < n
        invariant
            j <= n,
            n == needle@.len(),
            i + n <= hay@.len(),
            hay@.len() <= usize::MAX,
            forall|t: int| 0 <= t < j ==> hay@[i + t] == needle@[t],
        decreases n - j,
    {
        if hay.get_char(i + j) != needle.get_char(j) {
            proof {
                assert(hay@.subrange(i as int, i + needle@.len())[j as int] != needle@[j as int]);
            }
            return false;
        }
        j = j + 1;
    }
    proof {
        assert(hay@.subrange(i as int, i + needle@.len()) =~= needle@);
    }
    true
}

/// Whether `needle` occurs anywhere in `hay`.
pub fn str_contains(hay: &str, needle: &str) -> (r: bool)
    ensures
        r == seq_contains(hay@, needle@),
{
    let h = hay.unicode_len();
    let n = needle.unicode_len();
    if n > h {
        proof {
            assert(!seq_contains(hay@, needle@));
        }
        return false;
    }
    if n == 0 {
        proof {
            assert(hay@.subrange(0, 0 + needle@.len() as int) =~= needle@);
        }
        return true;
    }
    let last = h - n;
    let mut i: usize = 0;
    while i <= last
        invariant
            1 <= n <= h,
            h == hay@.len(),
            n == needle@.len(),
            last == h - n,
            i <= last + 1,
            forall|t: int|
                0 <= t < i ==> #[trigger] hay@.subrange(t, t + needle@.len()) != needle@,
        decreases last + 1 - i,
    {
        if matches_at(hay, needle, i) {
            return true;
        }
        i = i + 1;
    }
    proof {
        assert forall|t: int|
            0 <= t && t + needle@.len() <= hay@.len() implies #[trigger] hay@.subrange(
            t,
            t + needle@.len(),
        ) != needle@ by {
            assert(t < i);
        }
    }
    false
}

/// The engine's way of saying a cancellation found nothing to abort: such a
/// request is already cancelled or never started, which cancellation treats
/// as success.
pub open spec fn no_data_marker() -> Seq<char> {
    "No data for query"@
}

/// Whether an engine abort outcome lets cancellation proceed: an abort is
/// accepted when it succeeded, or when it failed only because the engine
/// held no data for the query.
pub open spec fn abort_accepted(abort: Result<(), Seq<char>>) -> bool {
    match abort {
        Ok(_) => true,
        Err(e) => seq_contains(e, no_data_marker()),
    }
}

/// Decide whether the engine's abort outcome lets cancellation proceed.
pub fn abort_outcome_accepted(abort: &Result<(), String>) -> (r: bool)
    ensures
        r == abort_accepted(match abort {
            Ok(_) => Ok(()),
            Err(e) => Err(e@),
        }),
{
    match abort {
        Ok(_) => true,
        Err(e) => {
            let marker = "No data for query";
            str_contains(e.as_str(), marker)
        },
    }
}

} // verus!
