use reqactor::{
    Address, AggregationEntity, BatchGuestInputEntity, BatchProofEntity, BlobProofType,
    ChainSpec, GuestInputData, GuestInputEntity, Hash256, Proof, ProofType, ProverArgs,
    RequestBuildError, SingleInputPlan, SingleProofEntity, SupportedChainSpecs,
    batch_entity_with_defaults, batch_proof_request, guest_input_request,
    provider_target_blocks, reconcile_prover_data, single_input_plan, single_proof_request,
};

fn chain_table() -> SupportedChainSpecs {
    SupportedChainSpecs {
        specs: vec![
            ChainSpec {
                chain_id: 1,
                network: String::from("ethereum"),
                rpc: String::from("https://l1.example"),
            },
            ChainSpec {
                chain_id: 167000,
                network: String::from("taiko_mainnet"),
                rpc: String::from("https://l2.example"),
            },
        ],
    }
}

fn graffiti() -> Hash256 {
    Hash256 { w0: 11, w1: 22, w2: 33, w3: 44 }
}

fn guest_entity(network: &str, l1: &str) -> GuestInputEntity {
    GuestInputEntity {
        block_number: 100,
        l1_inclusion_block_number: 90,
        network: String::from(network),
        l1_network: String::from(l1),
        graffiti: graffiti(),
        blob_proof_type: BlobProofType::KzgVersionedHash,
        prover_args: ProverArgs {
            pairs: vec![(String::from("recursion"), String::from("plonk"))],
        },
    }
}

#[test]
fn chain_lookup_finds_the_named_network() {
    let table = chain_table();
    let found = table.get_chain_spec(&String::from("taiko_mainnet")).unwrap();
    assert_eq!(found.chain_id, 167000);
    assert_eq!(found.rpc, "https://l2.example");
    assert!(table.get_chain_spec(&String::from("devnet")).is_none());
}

#[test]
fn guest_input_request_leaves_prover_identity_default() {
    let req = guest_input_request(&chain_table(), &guest_entity("taiko_mainnet", "ethereum"))
        .expect("both networks are known");
    assert_eq!(req.block_number, 100);
    assert_eq!(req.batch_id, 0);
    assert_eq!(req.l1_inclusion_block_number, 90);
    assert_eq!(req.network, "taiko_mainnet");
    assert_eq!(req.l1_network, "ethereum");
    assert_eq!(req.prover, Address { hi: 0, mid: 0, lo: 0 });
    assert!(matches!(req.proof_type, ProofType::Native));
    assert!(req.l2_block_numbers.is_empty());
    assert_eq!(req.prover_args.pairs.len(), 1);
    assert_eq!(req.prover_args.pairs[0].0, "recursion");
}

#[test]
fn unknown_networks_are_rejected_by_name() {
    let err = guest_input_request(&chain_table(), &guest_entity("taiko_mainnet", "l1-devnet"))
        .unwrap_err();
    match err {
        RequestBuildError::UnsupportedL1Network(n) => assert_eq!(n, "l1-devnet"),
        other => panic!("unexpected error {other:?}"),
    }
    let err =
        guest_input_request(&chain_table(), &guest_entity("l2-devnet", "ethereum")).unwrap_err();
    match err {
        RequestBuildError::UnsupportedNetwork(n) => assert_eq!(n, "l2-devnet"),
        other => panic!("unexpected error {other:?}"),
    }
}

#[test]
fn single_proof_request_carries_the_payload_identity() {
    let entity = SingleProofEntity {
        block_number: 100,
        l1_inclusion_block_number: 90,
        network: String::from("taiko_mainnet"),
        l1_network: String::from("ethereum"),
        graffiti: graffiti(),
        prover: Address { hi: 5, mid: 6, lo: 7 },
        proof_type: ProofType::Risc0,
        blob_proof_type: BlobProofType::ProofOfEquivalence,
        prover_args: ProverArgs { pairs: Vec::new() },
    };
    let req = single_proof_request(&chain_table(), &entity).expect("networks are known");
    assert_eq!(req.prover, Address { hi: 5, mid: 6, lo: 7 });
    assert!(matches!(req.proof_type, ProofType::Risc0));
    assert_eq!(req.block_number, 100);
    assert_eq!(req.batch_id, 0);
}

#[test]
fn batch_request_spans_the_proposed_blocks() {
    let guest = BatchGuestInputEntity {
        batch_id: 9,
        l1_inclusion_block_number: 80,
        network: String::from("taiko_mainnet"),
        l1_network: String::from("ethereum"),
        graffiti: graffiti(),
        blob_proof_type: BlobProofType::KzgVersionedHash,
    };
    let entity = BatchProofEntity {
        guest_input_entity: guest,
        prover: Address { hi: 1, mid: 1, lo: 1 },
        proof_type: ProofType::Sp1,
        prover_args: ProverArgs { pairs: Vec::new() },
    };
    let blocks = vec![200, 201, 202];
    let req = batch_proof_request(&chain_table(), &entity, &blocks).expect("networks known");
    assert_eq!(req.block_number, 0);
    assert_eq!(req.batch_id, 9);
    assert_eq!(req.l1_inclusion_block_number, 80);
    assert_eq!(req.l2_block_numbers, blocks);
    assert!(matches!(req.proof_type, ProofType::Sp1));
}

#[test]
fn batch_entity_defaults_mirror_the_guest_input() {
    let guest = BatchGuestInputEntity {
        batch_id: 9,
        l1_inclusion_block_number: 80,
        network: String::from("taiko_mainnet"),
        l1_network: String::from("ethereum"),
        graffiti: graffiti(),
        blob_proof_type: BlobProofType::KzgVersionedHash,
    };
    let entity = batch_entity_with_defaults(&guest);
    assert_eq!(entity.guest_input_entity.batch_id, 9);
    assert_eq!(entity.guest_input_entity.network, "taiko_mainnet");
    assert_eq!(entity.prover, Address { hi: 0, mid: 0, lo: 0 });
    assert!(matches!(entity.proof_type, ProofType::Native));
    assert!(entity.prover_args.pairs.is_empty());
}

#[test]
fn provider_blocks_start_one_before_the_first() {
    let blocks = provider_target_blocks(&vec![100, 101, 102]);
    assert_eq!(blocks, vec![99, 100, 101, 102]);
    let single = provider_target_blocks(&vec![5]);
    assert_eq!(single, vec![4, 5]);
}

#[test]
fn cached_guest_input_is_reconciled_to_the_request() {
    let mut input = GuestInputData {
        graffiti: Hash256 { w0: 0, w1: 0, w2: 0, w3: 0 },
        prover: Address { hi: 0, mid: 0, lo: 0 },
        payload: vec![9, 9, 9],
    };
    reconcile_prover_data(&mut input, graffiti(), Address { hi: 5, mid: 6, lo: 7 });
    assert_eq!(input.graffiti, graffiti());
    assert_eq!(input.prover, Address { hi: 5, mid: 6, lo: 7 });
    assert_eq!(input.payload, vec![9, 9, 9]);

    match single_input_plan(Some(input), graffiti(), Address { hi: 5, mid: 6, lo: 7 }) {
        SingleInputPlan::UseCached(out) => {
            assert_eq!(out.graffiti, graffiti());
            assert_eq!(out.payload, vec![9, 9, 9]);
        },
        SingleInputPlan::Generate => panic!("a cached input must be reused"),
    }
    assert!(matches!(
        single_input_plan(None, graffiti(), Address { hi: 0, mid: 0, lo: 0 }),
        SingleInputPlan::Generate
    ));
}

#[test]
fn aggregation_proofs_are_taken_from_the_payload() {
    let entity = AggregationEntity {
        aggregation_ids: vec![100, 101],
        proofs: vec![
            Proof { proof: Some(String::from("p1")), input: None },
            Proof { proof: Some(String::from("p2")), input: Some(graffiti()) },
        ],
        proof_type: ProofType::Risc0,
        prover_args: ProverArgs { pairs: Vec::new() },
    };
    let proofs = reqactor::aggregation_proofs(&entity);
    assert_eq!(proofs.len(), 2);
    assert_eq!(proofs[0].proof.as_deref(), Some("p1"));
    assert_eq!(proofs[1].proof.as_deref(), Some("p2"));
    assert_eq!(proofs[1].input, Some(graffiti()));
}

#[test]
fn prover_args_take_the_first_binding() {
    let args = ProverArgs {
        pairs: vec![
            (String::from("k"), String::from("first")),
            (String::from("k"), String::from("second")),
        ],
    };
    assert_eq!(args.get(&String::from("k")).map(String::as_str), Some("first"));
    assert!(args.get(&String::from("missing")).is_none());
}
