//! Request payloads: the kind-specific data needed to perform the work,
//! paired one to one with the request key kinds.

use vstd::prelude::*;

use crate::request::{Address, BlobProofType, Hash256, ProofType};

verus! {

/// Mathematical form of an `Option<String>`.
pub open spec fn opt_str_view(o: Option<String>) -> Option<Seq<char>> {
    match o {
        Some(s) => Some(s@),
        None => None,
    }
}

/// Duplicate an optional string.
pub fn clone_opt_string(o: &Option<String>) -> (r: Option<String>)
    ensures
        opt_str_view(r) == opt_str_view(*o),
{
    match o {
        Some(s) => Some(s.clone()),
        None => None,
    }
}

/// A computed proof artifact: an opaque payload and, for some engines, the
/// input commitment it was computed over.
#[derive(Debug)]
pub struct Proof {
    pub proof: Option<String>,
    pub input: Option<Hash256>,
}

/// Mathematical form of a proof artifact.
pub struct ProofV {
    pub proof: Option<Seq<char>>,
    pub input: Option<Hash256>,
}

impl View for Proof {
    type V = ProofV;

    open spec fn view(&self) -> ProofV {
        ProofV { proof: opt_str_view(self.proof), input: self.input }
    }
}

impl Proof {
    /// Wrap a payload string as a proof artifact, all other fields empty.
    pub fn with_payload(payload: String) -> (r: Proof)
        ensures
            r@ == (ProofV { proof: Some(payload@), input: None }),
    {
        Proof { proof: Some(payload), input: None }
    }
}

/// Duplicate a proof artifact; the copy denotes the same artifact.
pub fn clone_proof(p: &Proof) -> (r: Proof)
    ensures
        r@ == p@,
{
    Proof { proof: clone_opt_string(&p.proof), input: p.input }
}

/// Named prover arguments, kept as ordered key/value pairs. The first pair
/// with a given name decides its value.
#[derive(Debug)]
pub struct ProverArgs {
    pub pairs: Vec<(String, String)>,
}

/// What a pair sequence associates with a name: the value of the first pair
/// carrying it.
pub open spec fn args_lookup(pairs: Seq<(Seq<char>, Seq<char>)>, name: Seq<char>) -> Option<
    Seq<char>,
>
    decreases pairs.len(),
{
    if pairs.len() == 0 {
        None
    } else if pairs[0].0 == name {
        Some(pairs[0].1)
    } else {
        args_lookup(pairs.subrange(1, pairs.len() as int), name)
    }
}

impl View for ProverArgs {
    type V = Seq<(Seq<char>, Seq<char>)>;

    open spec fn view(&self) -> Seq<(Seq<char>, Seq<char>)> {
        Seq::new(self.pairs@.len(), |i: int| (self.pairs@[i].0@, self.pairs@[i].1@))
    }
}

impl ProverArgs {
    /// No arguments.
    pub fn empty() -> (r: ProverArgs)
        ensures
            r@ =~= Seq::<(Seq<char>, Seq<char>)>::empty(),
    {
        ProverArgs { pairs: Vec::new() }
    }

    /// The value associated with `name`, if any.
    pub fn get(&self, name: &String) -> (r: Option<&String>)
        ensures
            match r {
                Some(v) => args_lookup(self@, name@) == Some(v@),
                None => args_lookup(self@, name@) is None,
            },
    {
        let mut i: usize = 0;
        proof {
            assert(self@.subrange(0, self@.len() as int) =~= self@);
        }
        while i < self.pairs.len()
            invariant
                i <= self.pairs.len(),
                args_lookup(self@, name@) == args_lookup(
                    self@.subrange(i as int, self@.len() as int),
                    name@,
                ),
            decreases self.pairs.len() - i,
        {
            proof {
                assert(self@.subrange(i as int, self@.len() as int)[0] == self@[i as int]);
                assert(self@.subrange(i as int, self@.len() as int).subrange(
                    1,
                    self@.len() - i,
                ) =~= self@.subrange(i + 1, self@.len() as int));
            }
            if self.pairs[i].0 == *name {
                return Some(&self.pairs[i].1);
            }
            i = i + 1;
        }
        None
    }
}

/// Duplicate prover arguments; the copy denotes the same arguments.
pub fn clone_args(a: &ProverArgs) -> (r: ProverArgs)
    ensures
        r@ == a@,
{
    let mut pairs: Vec<(String, String)> = Vec::new();
    let mut i: usize = 0;
    while i < a.pairs.len()
        invariant
            i <= a.pairs.len(),
            pairs@.len() == i,
            forall|j: int|
                0 <= j < i ==> pairs@[j].0@ == a.pairs@[j].0@ && pairs@[j].1@ == a.pairs@[j].1@,
        decreases a.pairs.len() - i,
    {
        pairs.push((a.pairs[i].0.clone(), a.pairs[i].1.clone()));
        i = i + 1;
    }
    let r = ProverArgs { pairs };
    proof {
        assert(r@ =~= a@);
    }
    r
}

/// Payload of a guest-input precomputation request.
#[derive(Debug)]
pub struct GuestInputEntity {
    pub block_number: u64,
    pub l1_inclusion_block_number: u64,
    pub network: String,
    pub l1_network: String,
    pub graffiti: Hash256,
    pub blob_proof_type: BlobProofType,
    pub prover_args: ProverArgs,
}

/// Mathematical form of a guest-input payload.
pub struct GuestInputEntityV {
    pub block_number: u64,
    pub l1_inclusion_block_number: u64,
    pub network: Seq<char>,
    pub l1_network: Seq<char>,
    pub graffiti: Hash256,
    pub blob_proof_type: BlobProofType,
    pub prover_args: Seq<(Seq<char>, Seq<char>)>,
}

impl View for GuestInputEntity {
    type V = GuestInputEntityV;

    open spec fn view(&self) -> GuestInputEntityV {
        GuestInputEntityV {
            block_number: self.block_number,
            l1_inclusion_block_number: self.l1_inclusion_block_number,
            network: self.network@,
            l1_network: self.l1_network@,
            graffiti: self.graffiti,
            blob_proof_type: self.blob_proof_type,
            prover_args: self.prover_args@,
        }
    }
}

/// Payload of a single-block proof request.
#[derive(Debug)]
pub struct SingleProofEntity {
    pub block_number: u64,
    pub l1_inclusion_block_number: u64,
    pub network: String,
    pub l1_network: String,
    pub graffiti: Hash256,
    pub prover: Address,
    pub proof_type: ProofType,
    pub blob_proof_type: BlobProofType,
    pub prover_args: ProverArgs,
}

/// Mathematical form of a single-proof payload.
pub struct SingleProofEntityV {
    pub block_number: u64,
    pub l1_inclusion_block_number: u64,
    pub network: Seq<char>,
    pub l1_network: Seq<char>,
    pub graffiti: Hash256,
    pub prover: Address,
    pub proof_type: ProofType,
    pub blob_proof_type: BlobProofType,
    pub prover_args: Seq<(Seq<char>, Seq<char>)>,
}

impl View for SingleProofEntity {
    type V = SingleProofEntityV;

    open spec fn view(&self) -> SingleProofEntityV {
        SingleProofEntityV {
            block_number: self.block_number,
            l1_inclusion_block_number: self.l1_inclusion_block_number,
            network: self.network@,
            l1_network: self.l1_network@,
            graffiti: self.graffiti,
            prover: self.prover,
            proof_type: self.proof_type,
            blob_proof_type: self.blob_proof_type,
            prover_args: self.prover_args@,
        }
    }
}

/// Payload of an aggregation request: the child proofs to combine.
#[derive(Debug)]
pub struct AggregationEntity {
    pub aggregation_ids: Vec<u64>,
    pub proofs: Vec<Proof>,
    pub proof_type: ProofType,
    pub prover_args: ProverArgs,
}

/// Mathematical form of an aggregation payload.
pub struct AggregationEntityV {
    pub aggregation_ids: Seq<u64>,
    pub proofs: Seq<ProofV>,
    pub proof_type: ProofType,
    pub prover_args: Seq<(Seq<char>, Seq<char>)>,
}

impl View for AggregationEntity {
    type V = AggregationEntityV;

    open spec fn view(&self) -> AggregationEntityV {
        AggregationEntityV {
            aggregation_ids: self.aggregation_ids@,
            proofs: Seq::new(self.proofs@.len(), |i: int| self.proofs@[i]@),
            proof_type: self.proof_type,
            prover_args: self.prover_args@,
        }
    }
}

/// Payload of a batch guest-input precomputation request.
#[derive(Debug)]
pub struct BatchGuestInputEntity {
    pub batch_id: u64,
    pub l1_inclusion_block_number: u64,
    pub network: String,
    pub l1_network: String,
    pub graffiti: Hash256,
    pub blob_proof_type: BlobProofType,
}

/// Mathematical form of a batch guest-input payload.
pub struct BatchGuestInputEntityV {
    pub batch_id: u64,
    pub l1_inclusion_block_number: u64,
    pub network: Seq<char>,
    pub l1_network: Seq<char>,
    pub graffiti: Hash256,
    pub blob_proof_type: BlobProofType,
}

impl View for BatchGuestInputEntity {
    type V = BatchGuestInputEntityV;

    open spec fn view(&self) -> BatchGuestInputEntityV {
        BatchGuestInputEntityV {
            batch_id: self.batch_id,
            l1_inclusion_block_number: self.l1_inclusion_block_number,
            network: self.network@,
            l1_network: self.l1_network@,
            graffiti: self.graffiti,
            blob_proof_type: self.blob_proof_type,
        }
    }
}

/// Payload of a batch proof request: the batch guest-input payload plus the
/// prover identity and engine arguments.
#[derive(Debug)]
pub struct BatchProofEntity {
    pub guest_input_entity: BatchGuestInputEntity,
    pub prover: Address,
    pub proof_type: ProofType,
    pub prover_args: ProverArgs,
}

/// Mathematical form of a batch-proof payload.
pub struct BatchProofEntityV {
    pub guest_input_entity: BatchGuestInputEntityV,
    pub prover: Address,
    pub proof_type: ProofType,
    pub prover_args: Seq<(Seq<char>, Seq<char>)>,
}

impl View for BatchProofEntity {
    type V = BatchProofEntityV;

    open spec fn view(&self) -> BatchProofEntityV {
        BatchProofEntityV {
            guest_input_entity: self.guest_input_entity@,
            prover: self.prover,
            proof_type: self.proof_type,
            prover_args: self.prover_args@,
        }
    }
}

/// A request payload, one variant per request kind.
#[derive(Debug)]
pub enum RequestEntity {
    GuestInput(GuestInputEntity),
    SingleProof(SingleProofEntity),
    Aggregation(AggregationEntity),
    BatchProof(BatchProofEntity),
    BatchGuestInput(BatchGuestInputEntity),
}

/// Mathematical form of a request payload.
pub enum EntityV {
    GuestInput(GuestInputEntityV),
    SingleProof(SingleProofEntityV),
    Aggregation(AggregationEntityV),
    BatchProof(BatchProofEntityV),
    BatchGuestInput(BatchGuestInputEntityV),
}

impl View for RequestEntity {
    type V = EntityV;

    open spec fn view(&self) -> EntityV {
        match self {
            RequestEntity::GuestInput(e) => EntityV::GuestInput(e@),
            RequestEntity::SingleProof(e) => EntityV::SingleProof(e@),
            RequestEntity::Aggregation(e) => EntityV::Aggregation(e@),
            RequestEntity::BatchProof(e) => EntityV::BatchProof(e@),
            RequestEntity::BatchGuestInput(e) => EntityV::BatchGuestInput(e@),
        }
    }
}

/// Duplicate a guest-input payload.
pub fn clone_guest_input_entity(e: &GuestInputEntity) -> (r: GuestInputEntity)
    ensures
        r@ == e@,
{
    GuestInputEntity {
        block_number: e.block_number,
        l1_inclusion_block_number: e.l1_inclusion_block_number,
        network: e.network.clone(),
        l1_network: e.l1_network.clone(),
        graffiti: e.graffiti,
        blob_proof_type: e.blob_proof_type,
        prover_args: clone_args(&e.prover_args),
    }
}

/// Duplicate a batch guest-input payload.
pub fn clone_batch_guest_input_entity(e: &BatchGuestInputEntity) -> (r: BatchGuestInputEntity)
    ensures
        r@ == e@,
{
    BatchGuestInputEntity {
        batch_id: e.batch_id,
        l1_inclusion_block_number: e.l1_inclusion_block_number,
        network: e.network.clone(),
        l1_network: e.l1_network.clone(),
        graffiti: e.graffiti,
        blob_proof_type: e.blob_proof_type,
    }
}

/// Duplicate a request payload; the copy denotes the same payload.
pub fn clone_entity(e: &RequestEntity) -> (r: RequestEntity)
    ensures
        r@ == e@,
{
    match e {
        RequestEntity::GuestInput(e) => RequestEntity::GuestInput(clone_guest_input_entity(e)),
        RequestEntity::SingleProof(e) => RequestEntity::SingleProof(SingleProofEntity {
            block_number: e.block_number,
            l1_inclusion_block_number: e.l1_inclusion_block_number,
            network: e.network.clone(),
            l1_network: e.l1_network.clone(),
            graffiti: e.graffiti,
            prover: e.prover,
            proof_type: e.proof_type,
            blob_proof_type: e.blob_proof_type,
            prover_args: clone_args(&e.prover_args),
        }),
        RequestEntity::Aggregation(e) => {
            let mut proofs: Vec<Proof> = Vec::new();
            let mut i: usize = 0;
            while i < e.proofs.len()
                invariant
                    i <= e.proofs.len(),
                    proofs@.len() == i,
                    forall|j: int| 0 <= j < i ==> proofs@[j]@ == e.proofs@[j]@,
                decreases e.proofs.len() - i,
            {
                proofs.push(clone_proof(&e.proofs[i]));
                i = i + 1;
            }
            let r = RequestEntity::Aggregation(AggregationEntity {
                aggregation_ids: crate::request::copy_u64s(&e.aggregation_ids),
                proofs,
                proof_type: e.proof_type,
                prover_args: clone_args(&e.prover_args),
            });
            proof {
                assert(r@->Aggregation_0.proofs =~= e@.proofs);
                assert(r@ == EntityV::Aggregation(e@));
            }
            r
        },
        RequestEntity::BatchProof(e) => RequestEntity::BatchProof(BatchProofEntity {
            guest_input_entity: clone_batch_guest_input_entity(&e.guest_input_entity),
            prover: e.prover,
            proof_type: e.proof_type,
            prover_args: clone_args(&e.prover_args),
        }),
        RequestEntity::BatchGuestInput(e) => RequestEntity::BatchGuestInput(
            clone_batch_guest_input_entity(e),
        ),
    }
}

} // verus!
