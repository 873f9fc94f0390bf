use reqactor::{
    Action, CancelStep, ProveStep, RecheckStep, RequestEntity, RequestKey, Status,
    StatusWithContext, abort_outcome_accepted, cancel_decision, channel_size_from,
    prove_decision, recheck_decision, str_contains,
};

fn test_hash(seed: u64) -> reqactor::Hash256 {
    reqactor::Hash256 { w0: seed, w1: seed, w2: seed, w3: seed }
}

fn agg_key() -> RequestKey {
    RequestKey::Aggregation(reqactor::AggregationKey {
        chain_id: 167000,
        proof_type: reqactor::ProofType::Risc0,
        block_numbers: vec![100, 101],
    })
}

fn sp_key() -> RequestKey {
    RequestKey::SingleProof(reqactor::SingleProofKey {
        chain_id: 167000,
        block_number: 100,
        block_hash: test_hash(9),
        proof_type: reqactor::ProofType::Sgx,
    })
}

fn guest_entity() -> RequestEntity {
    RequestEntity::GuestInput(reqactor::GuestInputEntity {
        block_number: 100,
        l1_inclusion_block_number: 0,
        network: String::from("taiko_mainnet"),
        l1_network: String::from("ethereum"),
        graffiti: test_hash(0),
        blob_proof_type: reqactor::BlobProofType::ProofOfEquivalence,
        prover_args: reqactor::ProverArgs { pairs: Vec::new() },
    })
}

fn at(status: Status) -> StatusWithContext {
    StatusWithContext { status, timestamp: 7 }
}

#[test]
fn prove_decision_covers_every_store_answer() {
    assert_eq!(prove_decision(&Ok(Some(at(Status::Registered)))), ProveStep::ReturnExisting);
    assert_eq!(prove_decision(&Ok(Some(at(Status::WorkInProgress)))), ProveStep::ReturnExisting);
    assert_eq!(
        prove_decision(&Ok(Some(at(Status::Success {
            proof: reqactor::Proof { proof: None, input: None },
        })))),
        ProveStep::ReturnExisting
    );
    assert_eq!(prove_decision(&Ok(Some(at(Status::Cancelled)))), ProveStep::Register);
    assert_eq!(
        prove_decision(&Ok(Some(at(Status::Failed { error: String::from("boom") })))),
        ProveStep::Register
    );
    assert_eq!(prove_decision(&Ok(None)), ProveStep::Register);
    assert_eq!(prove_decision(&Err(String::from("store down"))), ProveStep::PropagateError);
}

#[test]
fn cancel_decision_covers_every_store_answer() {
    assert_eq!(cancel_decision(&sp_key(), &Ok(None)), CancelStep::NotInPool);
    assert_eq!(
        cancel_decision(&sp_key(), &Ok(Some(at(Status::Registered)))),
        CancelStep::MarkCancelled
    );
    assert_eq!(
        cancel_decision(&sp_key(), &Ok(Some(at(Status::WorkInProgress)))),
        CancelStep::AbortEngineThenCancel
    );
    assert_eq!(
        cancel_decision(&agg_key(), &Ok(Some(at(Status::WorkInProgress)))),
        CancelStep::MarkCancelled
    );
    assert_eq!(
        cancel_decision(&sp_key(), &Ok(Some(at(Status::Cancelled)))),
        CancelStep::ReturnExisting
    );
    assert_eq!(
        cancel_decision(&sp_key(), &Ok(Some(at(Status::Failed { error: String::new() })))),
        CancelStep::ReturnExisting
    );
    assert_eq!(
        cancel_decision(&sp_key(), &Err(String::from("store down"))),
        CancelStep::PropagateError
    );
}

#[test]
fn recheck_decision_covers_every_store_answer() {
    assert_eq!(
        recheck_decision(&Ok(Some((guest_entity(), at(Status::Registered))))),
        RecheckStep::Dispatch
    );
    assert_eq!(
        recheck_decision(&Ok(Some((guest_entity(), at(Status::WorkInProgress))))),
        RecheckStep::PollLater
    );
    assert_eq!(
        recheck_decision(&Ok(Some((guest_entity(), at(Status::Cancelled))))),
        RecheckStep::Done
    );
    assert_eq!(recheck_decision(&Ok(None)), RecheckStep::Discard);
    assert_eq!(recheck_decision(&Err(String::from("timeout"))), RecheckStep::RetryLater);
}

#[test]
fn transient_store_failure_retries_then_progresses() {
    // A recheck that cannot read the store is rescheduled after the fixed
    // delay; once the store answers again the request moves on to a
    // terminal state.
    assert_eq!(recheck_decision(&Err(String::from("connection reset"))), RecheckStep::RetryLater);
    assert_eq!(reqactor::RECHECK_DELAY_SECS, 3);
    assert_eq!(
        recheck_decision(&Ok(Some((guest_entity(), at(Status::Registered))))),
        RecheckStep::Dispatch
    );
    assert_eq!(
        recheck_decision(&Ok(Some((
            guest_entity(),
            at(Status::Success { proof: reqactor::Proof { proof: None, input: None } }),
        )))),
        RecheckStep::Done
    );
}

#[test]
fn action_request_key_names_the_subject() {
    let prove = Action::Prove { request_key: sp_key(), request_entity: guest_entity() };
    match prove.request_key() {
        RequestKey::SingleProof(k) => assert_eq!(k.block_number, 100),
        other => panic!("unexpected key {other:?}"),
    }
    let cancel = Action::Cancel { request_key: agg_key() };
    assert!(matches!(cancel.request_key(), RequestKey::Aggregation(_)));
}

#[test]
fn substring_search_finds_exact_occurrences() {
    assert!(str_contains("No data for query", "No data for query"));
    assert!(str_contains("error: No data for query (key 7)", "No data for query"));
    assert!(!str_contains("No data for quer", "No data for query"));
    assert!(!str_contains("", "x"));
    assert!(str_contains("anything", ""));
    assert!(!str_contains("abcabc", "cb"));
    assert!(str_contains("abcabd", "abd"));
}

#[test]
fn abort_outcomes_that_let_cancellation_proceed() {
    assert!(abort_outcome_accepted(&Ok(())));
    assert!(abort_outcome_accepted(&Err(String::from("No data for query"))));
    assert!(abort_outcome_accepted(&Err(String::from("lookup: No data for query; skipped"))));
    assert!(!abort_outcome_accepted(&Err(String::from("engine busy"))));
    assert!(!abort_outcome_accepted(&Err(String::new())));
}

#[test]
fn channel_size_falls_back_to_default() {
    assert_eq!(channel_size_from(None), 1024);
    assert_eq!(channel_size_from(Some("")), 1024);
    assert_eq!(channel_size_from(Some("abc")), 1024);
    assert_eq!(channel_size_from(Some("12x")), 1024);
    assert_eq!(channel_size_from(Some("-5")), 1024);
    assert_eq!(channel_size_from(Some("99999999999999999999999999")), 1024);
}

#[test]
fn channel_size_takes_a_well_formed_number() {
    assert_eq!(channel_size_from(Some("17")), 17);
    assert_eq!(channel_size_from(Some("1024")), 1024);
    assert_eq!(channel_size_from(Some("0")), 0);
    assert_eq!(channel_size_from(Some("2048")), 2048);
}
