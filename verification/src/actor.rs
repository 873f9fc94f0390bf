//! The request actor: the sole arbiter of lifecycle transitions.
//!
//! Every state change is given first as a spec-level transition on the
//! pool's map, then performed by an executable method whose contract ties
//! the new state to that transition. The event loop that owns the channels
//! calls the methods; proof functions at the end state the laws the
//! transitions obey.
//!
//! A completion that races a cancellation is resolved conditionally: the
//! supervisor's terminal write is applied only while the request is still
//! `WorkInProgress`, so a `Cancelled` entry is never resurrected by a
//! straggling completion.

use vstd::prelude::*;

use crate::decision::{RecheckStep, abort_accepted};
use crate::entity::{EntityV, Proof, ProofV, RequestEntity};
use crate::gate::AdmissionGate;
use crate::pool::Pool;
use crate::request::{KeyV, RequestKey, clone_key, key_eq};
use crate::status::{Status, StatusCtxV, StatusV, StatusWithContext, clone_status_ctx};

verus! {

/// The mathematical form of the status pool.
pub type StoreV = Map<KeyV, (EntityV, StatusCtxV)>;

/// What the actor can answer with when a command fails.
#[derive(Debug)]
pub enum ActorError {
    /// A cancellation named a key the pool does not hold.
    NotInPool,
    /// The engine refused to abort an in-flight single proof; carries the
    /// engine's message.
    CancelFailed(String),
}

/// Mathematical form of an actor error.
pub enum ActorErrorV {
    NotInPool,
    CancelFailed(Seq<char>),
}

impl View for ActorError {
    type V = ActorErrorV;

    open spec fn view(&self) -> ActorErrorV {
        match self {
            ActorError::NotInPool => ActorErrorV::NotInPool,
            ActorError::CancelFailed(e) => ActorErrorV::CancelFailed(e@),
        }
    }
}

/// Mathematical form of a command reply.
pub open spec fn reply_view(r: Result<StatusWithContext, ActorError>) -> Result<
    StatusCtxV,
    ActorErrorV,
> {
    match r {
        Ok(s) => Ok(s@),
        Err(e) => Err(e@),
    }
}

/// Mathematical form of an engine abort outcome.
pub open spec fn abort_view(a: Result<(), String>) -> Result<(), Seq<char>> {
    match a {
        Ok(_) => Ok(()),
        Err(e) => Err(e@),
    }
}

/// Mathematical form of a proving outcome.
pub open spec fn outcome_view(o: Result<Proof, String>) -> Result<ProofV, Seq<char>> {
    match o {
        Ok(p) => Ok(p@),
        Err(e) => Err(e@),
    }
}

/// The views of a sequence of keys.
pub open spec fn keys_view(s: Seq<RequestKey>) -> Seq<KeyV> {
    Seq::new(s.len(), |i: int| s[i]@)
}

/// No key twice.
pub open spec fn keys_unique(s: Seq<KeyV>) -> bool {
    forall|i: int, j: int| 0 <= i < j < s.len() ==> s[i] != s[j]
}

/// A fresh `Registered` state entered at `now`.
pub open spec fn registered_ctx(now: i64) -> StatusCtxV {
    StatusCtxV { status: StatusV::Registered, timestamp: now }
}

/// A fresh `WorkInProgress` state entered at `now`.
pub open spec fn wip_ctx(now: i64) -> StatusCtxV {
    StatusCtxV { status: StatusV::WorkInProgress, timestamp: now }
}

/// A fresh `Cancelled` state entered at `now`.
pub open spec fn cancelled_ctx(now: i64) -> StatusCtxV {
    StatusCtxV { status: StatusV::Cancelled, timestamp: now }
}

/// The terminal state a proving outcome maps to: success carries the proof,
/// failure carries the engine's message.
pub open spec fn outcome_status(outcome: Result<ProofV, Seq<char>>) -> StatusV {
    match outcome {
        Ok(p) => StatusV::Success { proof: p },
        Err(e) => StatusV::Failed { error: e },
    }
}

/// What a `Prove` command does to the pool and answers: register when the
/// key is absent, re-register (a new epoch) when it ended cancelled or
/// failed, and otherwise return the stored status unchanged.
pub open spec fn prove_transition(m: StoreV, k: KeyV, e: EntityV, now: i64) -> (StoreV, Result<
    StatusCtxV,
    ActorErrorV,
>) {
    if m.dom().contains(k) {
        match m[k].1.status {
            StatusV::Cancelled => (m.insert(k, (e, registered_ctx(now))), Ok(registered_ctx(now))),
            StatusV::Failed { .. } => (
                m.insert(k, (e, registered_ctx(now))),
                Ok(registered_ctx(now)),
            ),
            _ => (m, Ok(m[k].1)),
        }
    } else {
        (m.insert(k, (e, registered_ctx(now))), Ok(registered_ctx(now)))
    }
}

/// Whether a `Cancel` of `k` must ask the engine to abort: only an
/// in-flight single proof has an engine-level abort path.
pub open spec fn cancel_invokes_engine(m: StoreV, k: KeyV) -> bool {
    m.dom().contains(k) && m[k].1.status is WorkInProgress && k is SingleProof
}

/// What a `Cancel` command does to the pool and answers, given the engine's
/// abort outcome (consulted only where `cancel_invokes_engine` holds): an
/// absent key is an error; a registered or in-progress request is marked
/// `Cancelled`, the in-progress single proof only when the abort was
/// accepted; a terminal request is returned unchanged.
pub open spec fn cancel_transition(m: StoreV, k: KeyV, abort: Result<(), Seq<char>>, now: i64) -> (
    StoreV,
    Result<StatusCtxV, ActorErrorV>,
) {
    if !m.dom().contains(k) {
        (m, Err(ActorErrorV::NotInPool))
    } else {
        match m[k].1.status {
            StatusV::Registered => (
                m.insert(k, (m[k].0, cancelled_ctx(now))),
                Ok(cancelled_ctx(now)),
            ),
            StatusV::WorkInProgress => {
                if k is SingleProof {
                    if abort_accepted(abort) {
                        (m.insert(k, (m[k].0, cancelled_ctx(now))), Ok(cancelled_ctx(now)))
                    } else {
                        (m, Err(ActorErrorV::CancelFailed(abort->Err_0)))
                    }
                } else {
                    (m.insert(k, (m[k].0, cancelled_ctx(now))), Ok(cancelled_ctx(now)))
                }
            },
            _ => (m, Ok(m[k].1)),
        }
    }
}

/// What entering work does: the supervisor re-reads the status and claims
/// the work by writing `WorkInProgress`. Only a request still `Registered`
/// can be claimed — another path may have claimed it, cancelled it, or
/// finished it meanwhile — and only if the key's previous task has
/// reconciled (it is no longer active), so no status ever moves along a
/// forbidden edge and no key is computed twice at once.
pub open spec fn begin_transition(m: StoreV, k: KeyV, active: Seq<KeyV>, now: i64) -> (
    StoreV,
    Seq<KeyV>,
    bool,
) {
    if m.dom().contains(k) && m[k].1.status is Registered && !active.contains(k) {
        (m.insert(k, (m[k].0, wip_ctx(now))), active.push(k), true)
    } else {
        (m, active, false)
    }
}

/// What a completed proving task does to the pool: its terminal status is
/// applied only while the request is still `WorkInProgress`, so a
/// concurrent cancellation is never overwritten.
pub open spec fn finish_transition(m: StoreV, k: KeyV, outcome: Result<ProofV, Seq<char>>, now: i64) -> StoreV {
    if m.dom().contains(k) && m[k].1.status is WorkInProgress {
        m.insert(k, (m[k].0, StatusCtxV { status: outcome_status(outcome), timestamp: now }))
    } else {
        m
    }
}

/// What a recheck of `k` prescribes, read off the pool.
pub open spec fn recheck_view(m: StoreV, k: KeyV) -> RecheckStep {
    if m.dom().contains(k) {
        match m[k].1.status {
            StatusV::Registered => RecheckStep::Dispatch,
            StatusV::WorkInProgress => RecheckStep::PollLater,
            _ => RecheckStep::Done,
        }
    } else {
        RecheckStep::Discard
    }
}

/// The request actor: the status pool, the admission gate, the keys whose
/// proving tasks have been spawned and not yet reconciled, and the internal
/// recheck queue.
#[derive(Debug)]
pub struct Actor {
    pub pool: Pool,
    pub gate: AdmissionGate,
    pub active: Vec<RequestKey>,
    pub queue: Vec<RequestKey>,
}

impl Actor {
    /// The actor's data agrees with itself: no duplicate pool keys, the
    /// gate within its limit, no duplicate entries among the keys being
    /// computed, and each such key present in the pool.
    pub open spec fn wf(&self) -> bool {
        &&& self.pool.wf()
        &&& self.gate.wf()
        &&& keys_unique(keys_view(self.active@))
        &&& forall|i: int|
            0 <= i < self.active@.len() ==> self.pool@.dom().contains(
                #[trigger] keys_view(self.active@)[i],
            )
    }

    /// A fresh actor over an empty pool, admitting at most
    /// `max_proving_concurrency` simultaneous proof computations.
    pub fn new(max_proving_concurrency: usize) -> (r: Actor)
        ensures
            r.wf(),
            r.pool@ =~= Map::<KeyV, (EntityV, StatusCtxV)>::empty(),
            r.gate.spec_max() == max_proving_concurrency,
            r.gate.spec_held() == 0,
            keys_view(r.active@) =~= Seq::<KeyV>::empty(),
            keys_view(r.queue@) =~= Seq::<KeyV>::empty(),
    {
        Actor {
            pool: Pool::new(),
            gate: AdmissionGate::new(max_proving_concurrency),
            active: Vec::new(),
            queue: Vec::new(),
        }
    }

    /// Whether `key`'s proving task has been spawned and not yet
    /// reconciled: exactly the callers of `finish_work` and `report_fault`
    /// have such a task to reconcile.
    pub fn is_active(&self, key: &RequestKey) -> (r: bool)
        ensures
            r == keys_view(self.active@).contains(key@),
    {
        let mut i: usize = 0;
        while i < self.active.len()
            invariant
                i <= self.active.len(),
                forall|j: int| 0 <= j < i ==> keys_view(self.active@)[j] != key@,
            decreases self.active.len() - i,
        {
            if key_eq(&self.active[i], key) {
                proof {
                    assert(keys_view(self.active@)[i as int] == key@);
                }
                return true;
            }
            i = i + 1;
        }
        false
    }

    /// Queue an internal recheck token for `key`. The retry signaler
    /// guarantees delivery: a token, once issued, reaches the queue.
    pub fn enqueue_signal(&mut self, key: RequestKey)
        requires
            old(self).wf(),
        ensures
            final(self).wf(),
            final(self).pool@ == old(self).pool@,
            final(self).gate == old(self).gate,
            final(self).active@ == old(self).active@,
            keys_view(final(self).queue@) == keys_view(old(self).queue@).push(key@),
    {
        self.queue.push(key);
        proof {
            assert(keys_view(self.queue@) =~= keys_view(old(self).queue@).push(key@));
        }
    }

    /// Take the oldest queued recheck token, if any.
    pub fn pop_signal(&mut self) -> (r: Option<RequestKey>)
        requires
            old(self).wf(),
        ensures
            final(self).wf(),
            final(self).pool@ == old(self).pool@,
            final(self).gate == old(self).gate,
            final(self).active@ == old(self).active@,
            match r {
                Some(k) => old(self).queue@.len() > 0 && k@ == keys_view(old(self).queue@)[0]
                    && keys_view(final(self).queue@) == keys_view(old(self).queue@).subrange(
                    1,
                    keys_view(old(self).queue@).len() as int,
                ),
                None => old(self).queue@.len() == 0 && final(self).queue@ == old(self).queue@,
            },
    {
        if self.queue.len() == 0 {
            None
        } else {
            let k = self.queue.remove(0);
            proof {
                assert(keys_view(self.queue@) =~= keys_view(old(self).queue@).subrange(
                    1,
                    keys_view(old(self).queue@).len() as int,
                ));
            }
            Some(k)
        }
    }

    /// Handle a `Prove` command, then queue a recheck token for the key
    /// whatever the outcome, so that a lost step cannot stall the request.
    pub fn process_prove(&mut self, key: RequestKey, entity: RequestEntity, now: i64) -> (reply:
        Result<StatusWithContext, ActorError>)
        requires
            old(self).wf(),
        ensures
            final(self).wf(),
            final(self).gate == old(self).gate,
            final(self).active@ == old(self).active@,
            keys_view(final(self).queue@) == keys_view(old(self).queue@).push(key@),
            ({
                let (m2, rep) = prove_transition(old(self).pool@, key@, entity@, now);
                final(self).pool@ == m2 && reply_view(reply) == rep
            }),
    {
        let qkey = clone_key(&key);
        let reply = match self.pool.get_status(&key) {
            None => {
                let st = StatusWithContext::new_registered(now);
                let ret = clone_status_ctx(&st);
                self.pool.add(key, entity, st);
                Ok(ret)
            },
            Some(cur) => match &cur.status {
                Status::Cancelled | Status::Failed { .. } => {
                    let st = StatusWithContext::new_registered(now);
                    let ret = clone_status_ctx(&st);
                    self.pool.add(key, entity, st);
                    Ok(ret)
                },
                _ => Ok(cur),
            },
        };
        self.queue.push(qkey);
        proof {
            assert(keys_view(self.queue@) =~= keys_view(old(self).queue@).push(key@));
        }
        reply
    }

    /// Whether a `Cancel` of `key` must first ask the engine to abort.
    pub fn needs_engine_abort(&self, key: &RequestKey) -> (r: bool)
        requires
            self.wf(),
        ensures
            r == cancel_invokes_engine(self.pool@, key@),
    {
        match self.pool.get_status(key) {
            Some(cur) => match (&cur.status, key) {
                (Status::WorkInProgress, RequestKey::SingleProof(_)) => true,
                _ => false,
            },
            None => false,
        }
    }

    /// Handle a `Cancel` command, then queue a recheck token for the key
    /// whatever the outcome. `abort` is what the engine's cancellation
    /// returned; it is consulted only where `needs_engine_abort` held, so a
    /// caller that was not asked to abort passes `Ok(())`.
    pub fn process_cancel(&mut self, key: RequestKey, abort: Result<(), String>, now: i64) -> (reply:
        Result<StatusWithContext, ActorError>)
        requires
            old(self).wf(),
        ensures
            final(self).wf(),
            final(self).gate == old(self).gate,
            final(self).active@ == old(self).active@,
            keys_view(final(self).queue@) == keys_view(old(self).queue@).push(key@),
            ({
                let (m2, rep) = cancel_transition(old(self).pool@, key@, abort_view(abort), now);
                final(self).pool@ == m2 && reply_view(reply) == rep
            }),
    {
        let qkey = clone_key(&key);
        let reply = match self.pool.get_status(&key) {
            None => Err(ActorError::NotInPool),
            Some(cur) => match &cur.status {
                Status::Registered => {
                    let st = StatusWithContext::new_cancelled(now);
                    let ret = clone_status_ctx(&st);
                    let ok = self.pool.update_status(&key, st);
                    proof {
                        assert(ok);
                    }
                    Ok(ret)
                },
                Status::WorkInProgress => {
                    let proceed = match &key {
                        RequestKey::SingleProof(_) => crate::decision::abort_outcome_accepted(
                            &abort,
                        ),
                        _ => true,
                    };
                    if proceed {
                        let st = StatusWithContext::new_cancelled(now);
                        let ret = clone_status_ctx(&st);
                        let ok = self.pool.update_status(&key, st);
                        proof {
                            assert(ok);
                        }
                        Ok(ret)
                    } else {
                        match abort {
                            Err(e) => Err(ActorError::CancelFailed(e)),
                            // A successful abort is always accepted, so a
                            // refused cancellation carries an error.
                            Ok(_) => vstd::pervasive::unreached(),
                        }
                    }
                },
                _ => Ok(cur),
            },
        };
        self.queue.push(qkey);
        proof {
            assert(keys_view(self.queue@) =~= keys_view(old(self).queue@).push(key@));
        }
        reply
    }

    /// What an internal recheck of `key` prescribes, read off the pool.
    pub fn recheck_status(&self, key: &RequestKey) -> (r: RecheckStep)
        requires
            self.wf(),
        ensures
            r == recheck_view(self.pool@, key@),
    {
        match self.pool.get_status(key) {
            Some(cur) => match &cur.status {
                Status::Registered => RecheckStep::Dispatch,
                Status::WorkInProgress => RecheckStep::PollLater,
                _ => RecheckStep::Done,
            },
            None => RecheckStep::Discard,
        }
    }

    /// Claim the work for `key`: while the request is still `Registered`
    /// and no earlier task for it is unreconciled, write `WorkInProgress`
    /// and record the spawned task; otherwise start nothing.
    pub fn begin_work(&mut self, key: &RequestKey, now: i64) -> (started: bool)
        requires
            old(self).wf(),
        ensures
            final(self).wf(),
            final(self).gate == old(self).gate,
            final(self).queue@ == old(self).queue@,
            ({
                let (m2, act2, st) = begin_transition(
                    old(self).pool@,
                    key@,
                    keys_view(old(self).active@),
                    now,
                );
                final(self).pool@ == m2 && keys_view(final(self).active@) == act2 && started == st
            }),
    {
        match self.pool.get_status(key) {
            None => false,
            Some(cur) => match &cur.status {
                Status::Registered => {
                    if self.is_active(key) {
                        false
                    } else {
                        let ok = self.pool.update_status(
                            key,
                            StatusWithContext::new_work_in_progress(now),
                        );
                        proof {
                            assert(ok);
                        }
                        self.active.push(clone_key(key));
                        proof {
                            assert(keys_view(self.active@) =~= keys_view(old(self).active@).push(
                                key@,
                            ));
                        }
                        true
                    }
                },
                _ => false,
            },
        }
    }

    /// Reconcile a finished proving task: release its permit, forget the
    /// task, and apply its terminal status unless the request was cancelled
    /// meanwhile.
    pub fn finish_work(&mut self, key: &RequestKey, outcome: Result<Proof, String>, now: i64)
        requires
            old(self).wf(),
            keys_view(old(self).active@).contains(key@),
            old(self).gate.spec_held() >= 1,
        ensures
            final(self).wf(),
            final(self).queue@ == old(self).queue@,
            final(self).gate.spec_max() == old(self).gate.spec_max(),
            final(self).gate.spec_held() == old(self).gate.spec_held() - 1,
            final(self).pool@ == finish_transition(
                old(self).pool@,
                key@,
                outcome_view(outcome),
                now,
            ),
            exists|i: int|
                0 <= i < keys_view(old(self).active@).len() && keys_view(old(self).active@)[i]
                    == key@ && keys_view(final(self).active@) == keys_view(
                    old(self).active@,
                ).remove(i),
    {
        let ghost old_keys = keys_view(self.active@);
        let mut idx: usize = 0;
        let mut found = false;
        let mut i: usize = 0;
        while i < self.active.len()
            invariant
                i <= self.active.len(),
                !found ==> forall|j: int| 0 <= j < i ==> keys_view(self.active@)[j] != key@,
                found ==> idx < self.active@.len() && keys_view(self.active@)[idx as int] == key@,
            decreases self.active.len() - i,
        {
            if !found && key_eq(&self.active[i], key) {
                proof {
                    assert(keys_view(self.active@)[i as int] == key@);
                }
                idx = i;
                found = true;
            }
            i = i + 1;
        }
        proof {
            if !found {
                assert(!keys_view(self.active@).contains(key@));
            }
        }
        self.active.remove(idx);
        proof {
            assert(keys_view(self.active@) =~= old_keys.remove(idx as int));
        }
        self.gate.release();
        match self.pool.get_status(key) {
            Some(cur) => match &cur.status {
                Status::WorkInProgress => {
                    let st = match outcome {
                        Ok(p) => Status::Success { proof: p },
                        Err(e) => Status::Failed { error: e },
                    };
                    let ok = self.pool.update_status(
                        key,
                        StatusWithContext { status: st, timestamp: now },
                    );
                    proof {
                        assert(ok);
                    }
                },
                _ => {},
            },
            None => {},
        }
        proof {
            lemma_remove_keeps_unique(old_keys, idx as int);
            assert forall|t: int| 0 <= t < self.active@.len() implies self.pool@.dom().contains(
                #[trigger] keys_view(self.active@)[t],
            ) by {
                if t < idx {
                    assert(keys_view(self.active@)[t] == old_keys[t]);
                } else {
                    assert(keys_view(self.active@)[t] == old_keys[t + 1]);
                }
                assert(old(self).pool@.dom().contains(keys_view(self.active@)[t]));
            }
        }
    }

    /// Reconcile a proving task that aborted abnormally: the watcher that
    /// saw it die turns the fault into `Failed`, so a crash can never leave
    /// a request stuck in `WorkInProgress`.
    pub fn report_fault(&mut self, key: &RequestKey, error: String, now: i64)
        requires
            old(self).wf(),
            keys_view(old(self).active@).contains(key@),
            old(self).gate.spec_held() >= 1,
        ensures
            final(self).wf(),
            final(self).queue@ == old(self).queue@,
            final(self).gate.spec_max() == old(self).gate.spec_max(),
            final(self).gate.spec_held() == old(self).gate.spec_held() - 1,
            final(self).pool@ == finish_transition(old(self).pool@, key@, Err(error@), now),
            exists|i: int|
                0 <= i < keys_view(old(self).active@).len() && keys_view(old(self).active@)[i]
                    == key@ && keys_view(final(self).active@) == keys_view(
                    old(self).active@,
                ).remove(i),
    {
        self.finish_work(key, Err(error), now)
    }

    /// Take one permit before computing. `false` means the limit is
    /// reached; the caller waits and tries again.
    pub fn admit_work(&mut self) -> (admitted: bool)
        requires
            old(self).wf(),
        ensures
            final(self).wf(),
            final(self).pool@ == old(self).pool@,
            final(self).active@ == old(self).active@,
            final(self).queue@ == old(self).queue@,
            final(self).gate.spec_max() == old(self).gate.spec_max(),
            admitted <==> old(self).gate.spec_held() < old(self).gate.spec_max(),
            admitted ==> final(self).gate.spec_held() == old(self).gate.spec_held() + 1,
            !admitted ==> final(self).gate.spec_held() == old(self).gate.spec_held(),
    {
        self.gate.try_acquire()
    }

    /// Handle the pause signal. The concrete pause policy is deliberately a
    /// successful no-op: the signal must never bring the loop down, and no
    /// draining behaviour is promised.
    pub fn halt(&self) -> (r: Result<(), ActorError>)
        ensures
            r is Ok,
    {
        Ok(())
    }
}

/// Removing one element keeps the remaining keys distinct.
pub proof fn lemma_remove_keeps_unique(s: Seq<KeyV>, i: int)
    requires
        keys_unique(s),
        0 <= i < s.len(),
    ensures
        keys_unique(s.remove(i)),
{
    s.remove_ensures(i);
    assert forall|a: int, b: int| 0 <= a < b < s.remove(i).len() implies s.remove(i)[a] != s.remove(
        i,
    )[b] by {
        if a < i && b < i {
            assert(s.remove(i)[a] == s[a] && s.remove(i)[b] == s[b]);
        } else if a < i {
            assert(s.remove(i)[a] == s[a] && s.remove(i)[b] == s[b + 1]);
        } else {
            assert(s.remove(i)[a] == s[a + 1] && s.remove(i)[b] == s[b + 1]);
        }
    }
}

/// Idempotence: while a request is registered, in progress, or succeeded, a
/// repeated `Prove` returns the stored status both times and writes
/// nothing, so no second entry and no new epoch is created.
pub proof fn lemma_prove_idempotent(m: StoreV, k: KeyV, e: EntityV, now1: i64, now2: i64)
    requires
        m.dom().contains(k),
        m[k].1.status is Registered || m[k].1.status is WorkInProgress || m[k].1.status
            is Success,
    ensures
        ({
            let (m1, r1) = prove_transition(m, k, e, now1);
            let (m2, r2) = prove_transition(m1, k, e, now2);
            m1 == m && m2 == m && r1 == Ok::<StatusCtxV, ActorErrorV>(m[k].1) && r2 == r1
        }),
{
}

/// Resubmission after a terminal outcome: a `Prove` of a cancelled or
/// failed request overwrites the entry with a fresh `Registered` epoch and
/// returns it.
pub proof fn lemma_prove_reregisters(m: StoreV, k: KeyV, e: EntityV, now: i64)
    requires
        m.dom().contains(k),
        m[k].1.status is Cancelled || m[k].1.status is Failed,
    ensures
        prove_transition(m, k, e, now).0 == m.insert(k, (e, registered_ctx(now))),
        prove_transition(m, k, e, now).1 == Ok::<StatusCtxV, ActorErrorV>(registered_ctx(now)),
{
}

/// Exactly one in flight: a well-formed actor never tracks two unreconciled
/// proving tasks for one key, so at most one task is computing a given
/// request at a time.
pub proof fn lemma_exactly_one_in_flight(a: Actor, k: KeyV)
    requires
        a.wf(),
    ensures
        forall|i: int, j: int|
            0 <= i < j < keys_view(a.active@).len() ==> !(keys_view(a.active@)[i] == k && keys_view(
                a.active@,
            )[j] == k),
{
}

/// Cancel of a registered request: it is marked `Cancelled` and returned
/// so, and the proof engine is not consulted.
pub proof fn lemma_cancel_of_registered(m: StoreV, k: KeyV, abort: Result<(), Seq<char>>, now: i64)
    requires
        m.dom().contains(k),
        m[k].1.status is Registered,
    ensures
        cancel_transition(m, k, abort, now).0 == m.insert(k, (m[k].0, cancelled_ctx(now))),
        cancel_transition(m, k, abort, now).1 == Ok::<StatusCtxV, ActorErrorV>(cancelled_ctx(now)),
        !cancel_invokes_engine(m, k),
{
}

/// Cancel of an unknown key: an error, and the pool is untouched, so no
/// entry is created.
pub proof fn lemma_cancel_of_unknown(m: StoreV, k: KeyV, abort: Result<(), Seq<char>>, now: i64)
    requires
        !m.dom().contains(k),
    ensures
        cancel_transition(m, k, abort, now).0 == m,
        cancel_transition(m, k, abort, now).1 == Err::<StatusCtxV, ActorErrorV>(
            ActorErrorV::NotInPool,
        ),
        !cancel_invokes_engine(m, k),
{
}

/// Within one epoch, every status write moves along an edge of the
/// lifecycle state machine: claiming moves `Registered` to
/// `WorkInProgress`, cancellation moves `Registered` or `WorkInProgress`
/// to `Cancelled`, and completion moves `WorkInProgress` to `Success` or
/// `Failed`. (Re-registration by a `Prove` of a cancelled or failed
/// request opens a new epoch and is not an edge of this machine.)
pub proof fn lemma_writes_follow_edges(
    m: StoreV,
    k: KeyV,
    abort: Result<(), Seq<char>>,
    outcome: Result<ProofV, Seq<char>>,
    active: Seq<KeyV>,
    now: i64,
)
    requires
        m.dom().contains(k),
    ensures
        ({
            let (m2, _, started) = begin_transition(m, k, active, now);
            started ==> crate::status::step_allowed(m[k].1.status, m2[k].1.status)
        }),
        ({
            let (m2, _) = cancel_transition(m, k, abort, now);
            m2[k].1.status != m[k].1.status ==> crate::status::step_allowed(
                m[k].1.status,
                m2[k].1.status,
            )
        }),
        ({
            let m2 = finish_transition(m, k, outcome, now);
            m2[k].1.status != m[k].1.status ==> crate::status::step_allowed(
                m[k].1.status,
                m2[k].1.status,
            )
        }),
{
}

/// Crash safety: once the watcher reconciles an abnormal abort, the request
/// is not `WorkInProgress`; if it still was, it is now `Failed` with the
/// fault's message.
pub proof fn lemma_crash_safety(m: StoreV, k: KeyV, error: Seq<char>, now: i64)
    requires
        m.dom().contains(k),
    ensures
        ({
            let m2 = finish_transition(m, k, Err(error), now);
            &&& m2.dom() == m.dom()
            &&& !(m2[k].1.status is WorkInProgress)
            &&& m[k].1.status is WorkInProgress ==> m2[k].1 == (StatusCtxV {
                status: StatusV::Failed { error },
                timestamp: now,
            })
            &&& !(m[k].1.status is WorkInProgress) ==> m2 == m
        }),
{
    let m2 = finish_transition(m, k, Err(error), now);
    if m[k].1.status is WorkInProgress {
        assert(m2.dom() =~= m.dom());
    }
}

} // verus!
