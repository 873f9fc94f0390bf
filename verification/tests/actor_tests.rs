use reqactor::{
    ActorError, AdmissionGate, Hash256, Pool, Proof, ProofType, RequestEntity, RequestKey,
    SingleProofEntity, SingleProofKey, Status, StatusWithContext,
};

fn test_hash(seed: u64) -> Hash256 {
    Hash256 { w0: seed, w1: seed + 1, w2: seed + 2, w3: seed + 3 }
}

fn single_key(block_number: u64) -> RequestKey {
    RequestKey::SingleProof(SingleProofKey {
        chain_id: 167000,
        block_number,
        block_hash: test_hash(block_number),
        proof_type: ProofType::Native,
    })
}

fn single_entity(block_number: u64) -> RequestEntity {
    RequestEntity::SingleProof(SingleProofEntity {
        block_number,
        l1_inclusion_block_number: 0,
        network: String::from("taiko_mainnet"),
        l1_network: String::from("ethereum"),
        graffiti: test_hash(0),
        prover: reqactor::Address { hi: 1, mid: 2, lo: 3 },
        proof_type: ProofType::Native,
        blob_proof_type: reqactor::BlobProofType::KzgVersionedHash,
        prover_args: reqactor::ProverArgs { pairs: Vec::new() },
    })
}

fn status_of(actor: &reqactor::Actor, key: &RequestKey) -> StatusWithContext {
    actor.pool.get_status(key).expect("key should be in pool")
}

#[test]
fn prove_registers_on_empty_pool() {
    let mut actor = reqactor::Actor::new(4);
    let reply = actor.process_prove(single_key(100), single_entity(100), 10);
    let st = reply.expect("registration should succeed");
    assert!(matches!(st.status, Status::Registered));
    assert_eq!(st.timestamp, 10);
    assert_eq!(actor.pool.len(), 1);
}

#[test]
fn prove_is_idempotent_while_registered() {
    let mut actor = reqactor::Actor::new(4);
    let first = actor.process_prove(single_key(100), single_entity(100), 10).unwrap();
    let second = actor.process_prove(single_key(100), single_entity(100), 20).unwrap();
    assert!(matches!(first.status, Status::Registered));
    assert!(matches!(second.status, Status::Registered));
    // The stored status is returned unchanged: same epoch, same timestamp.
    assert_eq!(second.timestamp, 10);
    assert_eq!(actor.pool.len(), 1);
}

#[test]
fn prove_is_idempotent_while_in_progress_and_after_success() {
    let mut actor = reqactor::Actor::new(4);
    let key = single_key(100);
    actor.process_prove(single_key(100), single_entity(100), 10).unwrap();
    assert!(actor.begin_work(&key, 11));
    let wip = actor.process_prove(single_key(100), single_entity(100), 12).unwrap();
    assert!(matches!(wip.status, Status::WorkInProgress));
    assert!(actor.admit_work());
    actor.finish_work(
        &key,
        Ok(Proof { proof: Some(String::from("proof-bytes")), input: None }),
        13,
    );
    let done = actor.process_prove(single_key(100), single_entity(100), 14).unwrap();
    match done.status {
        Status::Success { proof } => assert_eq!(proof.proof.as_deref(), Some("proof-bytes")),
        other => panic!("expected success, got {other:?}"),
    }
    assert_eq!(actor.pool.len(), 1);
}

#[test]
fn prove_reregisters_after_cancelled_and_failed() {
    let mut actor = reqactor::Actor::new(4);
    let key = single_key(100);
    actor.process_prove(single_key(100), single_entity(100), 10).unwrap();
    let cancelled = actor.process_cancel(single_key(100), Ok(()), 11).unwrap();
    assert!(matches!(cancelled.status, Status::Cancelled));
    let again = actor.process_prove(single_key(100), single_entity(100), 12).unwrap();
    assert!(matches!(again.status, Status::Registered));
    assert_eq!(again.timestamp, 12);
    assert_eq!(actor.pool.len(), 1);

    // Drive it to failure and resubmit once more.
    assert!(actor.begin_work(&key, 13));
    assert!(actor.admit_work());
    actor.finish_work(&key, Err(String::from("engine exploded")), 14);
    assert!(matches!(status_of(&actor, &key).status, Status::Failed { .. }));
    let third = actor.process_prove(single_key(100), single_entity(100), 15).unwrap();
    assert!(matches!(third.status, Status::Registered));
    assert_eq!(third.timestamp, 15);
}

#[test]
fn cancel_of_unknown_key_is_an_error_and_creates_nothing() {
    let mut actor = reqactor::Actor::new(4);
    let reply = actor.process_cancel(single_key(100), Ok(()), 10);
    assert!(matches!(reply, Err(ActorError::NotInPool)));
    assert_eq!(actor.pool.len(), 0);
}

#[test]
fn cancel_of_registered_yields_cancelled_without_engine() {
    let mut actor = reqactor::Actor::new(4);
    let key = single_key(100);
    actor.process_prove(single_key(100), single_entity(100), 10).unwrap();
    // Still registered: no engine-level abort is wanted.
    assert!(!actor.needs_engine_abort(&key));
    let reply = actor.process_cancel(single_key(100), Ok(()), 11).unwrap();
    assert!(matches!(reply.status, Status::Cancelled));
    assert_eq!(reply.timestamp, 11);
    assert!(matches!(status_of(&actor, &key).status, Status::Cancelled));
}

#[test]
fn cancel_of_in_progress_single_proof_consults_engine() {
    let mut actor = reqactor::Actor::new(4);
    let key = single_key(100);
    actor.process_prove(single_key(100), single_entity(100), 10).unwrap();
    assert!(actor.begin_work(&key, 11));
    assert!(actor.needs_engine_abort(&key));

    // The engine refuses: cancellation fails and the request keeps working.
    let refused = actor.process_cancel(single_key(100), Err(String::from("still busy")), 12);
    match refused {
        Err(ActorError::CancelFailed(msg)) => assert_eq!(msg, "still busy"),
        other => panic!("expected cancel failure, got {other:?}"),
    }
    assert!(matches!(status_of(&actor, &key).status, Status::WorkInProgress));

    // "No data for query" means nothing was running: treated as cancelled.
    let reply = actor
        .process_cancel(
            single_key(100),
            Err(String::from("task gone: No data for query in table")),
            13,
        )
        .unwrap();
    assert!(matches!(reply.status, Status::Cancelled));
    assert!(matches!(status_of(&actor, &key).status, Status::Cancelled));
}

#[test]
fn scenario_single_proof_runs_to_success() {
    let mut actor = reqactor::Actor::new(4);
    let key = single_key(100);

    // External command: response is Registered.
    let st = actor.process_prove(single_key(100), single_entity(100), 10).unwrap();
    assert!(matches!(st.status, Status::Registered));

    // The command re-armed a recheck token for the key.
    let token = actor.pop_signal().expect("a recheck token should be queued");
    assert!(matches!(token, RequestKey::SingleProof(_)));

    // Internal recheck: registered means dispatch.
    assert_eq!(actor.recheck_status(&key), reqactor::RecheckStep::Dispatch);
    assert!(actor.begin_work(&key, 11));
    assert!(matches!(status_of(&actor, &key).status, Status::WorkInProgress));

    // While working, a recheck polls later.
    assert_eq!(actor.recheck_status(&key), reqactor::RecheckStep::PollLater);

    // The spawned task is admitted, computes, and reconciles its result.
    assert!(actor.admit_work());
    actor.finish_work(
        &key,
        Ok(Proof { proof: Some(String::from("0xproof")), input: None }),
        12,
    );
    match status_of(&actor, &key).status {
        Status::Success { proof } => assert_eq!(proof.proof.as_deref(), Some("0xproof")),
        other => panic!("expected success, got {other:?}"),
    }
    assert_eq!(actor.recheck_status(&key), reqactor::RecheckStep::Done);
}

#[test]
fn scenario_cancel_while_registered_stops_all_work() {
    let mut actor = reqactor::Actor::new(4);
    let key = single_key(100);
    actor.process_prove(single_key(100), single_entity(100), 10).unwrap();
    let reply = actor.process_cancel(single_key(100), Ok(()), 10).unwrap();
    assert!(matches!(reply.status, Status::Cancelled));

    // A later recheck observes the cancellation and performs no work.
    assert_eq!(actor.recheck_status(&key), reqactor::RecheckStep::Done);
    assert!(!actor.begin_work(&key, 11));
    assert!(matches!(status_of(&actor, &key).status, Status::Cancelled));
}

#[test]
fn at_most_one_task_claims_a_key() {
    let mut actor = reqactor::Actor::new(4);
    let key = single_key(100);
    actor.process_prove(single_key(100), single_entity(100), 10).unwrap();
    assert!(actor.begin_work(&key, 11));
    // A second dispatch for the same key finds it claimed.
    assert!(!actor.begin_work(&key, 12));
    assert_eq!(actor.active.len(), 1);

    // Even after a cancel and a resubmission, the unreconciled task blocks
    // a second start for the same key.
    actor
        .process_cancel(single_key(100), Err(String::from("No data for query")), 13)
        .unwrap();
    actor.process_prove(single_key(100), single_entity(100), 14).unwrap();
    assert!(!actor.begin_work(&key, 15));
    assert_eq!(actor.active.len(), 1);
}

#[test]
fn completion_does_not_resurrect_a_cancelled_request() {
    let mut actor = reqactor::Actor::new(4);
    let key = single_key(100);
    actor.process_prove(single_key(100), single_entity(100), 10).unwrap();
    assert!(actor.begin_work(&key, 11));
    assert!(actor.admit_work());
    actor
        .process_cancel(single_key(100), Err(String::from("No data for query")), 12)
        .unwrap();
    assert!(matches!(status_of(&actor, &key).status, Status::Cancelled));

    // The straggling task finishes afterwards; its write is not applied.
    actor.finish_work(
        &key,
        Ok(Proof { proof: Some(String::from("late proof")), input: None }),
        13,
    );
    assert!(matches!(status_of(&actor, &key).status, Status::Cancelled));
    assert_eq!(actor.active.len(), 0);
}

#[test]
fn crashed_task_becomes_failed_not_stuck() {
    let mut actor = reqactor::Actor::new(4);
    let key = single_key(100);
    actor.process_prove(single_key(100), single_entity(100), 10).unwrap();
    assert!(actor.begin_work(&key, 11));
    assert!(actor.admit_work());
    actor.report_fault(&key, String::from("task panicked"), 12);
    match status_of(&actor, &key).status {
        Status::Failed { error } => assert_eq!(error, "task panicked"),
        other => panic!("expected failure, got {other:?}"),
    }
    assert_eq!(actor.active.len(), 0);
}

#[test]
fn admission_gate_never_exceeds_its_bound() {
    let mut gate = AdmissionGate::new(2);
    assert!(gate.try_acquire());
    assert!(gate.try_acquire());
    assert!(!gate.try_acquire());
    assert_eq!(gate.held, 2);
    gate.release();
    assert!(gate.try_acquire());
    assert!(!gate.try_acquire());
    assert_eq!(gate.held, 2);
    assert_eq!(gate.max, 2);
}

#[test]
fn actor_admission_bound_under_burst() {
    let mut actor = reqactor::Actor::new(2);
    for b in 0..5u64 {
        actor.process_prove(single_key(b), single_entity(b), 10).unwrap();
        assert!(actor.begin_work(&single_key(b), 11));
    }
    let mut admitted = 0usize;
    for _ in 0..5 {
        if actor.admit_work() {
            admitted += 1;
        }
    }
    assert_eq!(admitted, 2);
    assert_eq!(actor.gate.held, 2);
    actor.finish_work(
        &single_key(0),
        Ok(Proof { proof: Some(String::from("p")), input: None }),
        12,
    );
    assert_eq!(actor.gate.held, 1);
    assert!(actor.admit_work());
    assert!(!actor.admit_work());
}

#[test]
fn every_command_rearms_a_recheck_token() {
    let mut actor = reqactor::Actor::new(4);
    actor.process_prove(single_key(100), single_entity(100), 10).unwrap();
    let _ = actor.process_cancel(single_key(200), Ok(()), 11);
    let first = actor.pop_signal().unwrap();
    let second = actor.pop_signal().unwrap();
    assert!(actor.pop_signal().is_none());
    match (&first, &second) {
        (RequestKey::SingleProof(a), RequestKey::SingleProof(b)) => {
            assert_eq!(a.block_number, 100);
            assert_eq!(b.block_number, 200);
        },
        other => panic!("unexpected tokens {other:?}"),
    }
}

#[test]
fn halt_is_a_successful_no_op() {
    let actor = reqactor::Actor::new(4);
    assert!(actor.halt().is_ok());
}

#[test]
fn pool_overwrites_and_updates_by_key() {
    let mut pool = Pool::new();
    let key = single_key(100);
    pool.add(
        single_key(100),
        single_entity(100),
        StatusWithContext { status: Status::Registered, timestamp: 1 },
    );
    assert_eq!(pool.len(), 1);
    pool.add(
        single_key(100),
        single_entity(100),
        StatusWithContext { status: Status::WorkInProgress, timestamp: 2 },
    );
    assert_eq!(pool.len(), 1);
    let got = pool.get(&key).unwrap();
    assert!(matches!(got.1.status, Status::WorkInProgress));
    assert!(pool.update_status(
        &key,
        StatusWithContext { status: Status::Cancelled, timestamp: 3 },
    ));
    assert!(matches!(pool.get_status(&key).unwrap().status, Status::Cancelled));
    assert!(!pool.update_status(
        &single_key(999),
        StatusWithContext { status: Status::Cancelled, timestamp: 3 },
    ));
    assert!(pool.get_status(&single_key(999)).is_none());
}
