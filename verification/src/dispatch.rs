//! Per-kind preparation of proof-engine work: resolving chain
//! configuration, building the engine's request from a payload, choosing
//! between a cached guest input and regeneration, and the block range a
//! batch's data provider must cover.

use vstd::prelude::*;

use vstd::string::StrSliceExecFns;

use crate::entity::{
    BatchGuestInputEntity, BatchProofEntity, BatchProofEntityV, GuestInputEntity, Proof,
    ProverArgs, SingleProofEntity, clone_args, clone_batch_guest_input_entity, clone_proof,
};
use crate::request::{Address, BlobProofType, Hash256, ProofType};

verus! {

/// The configuration of one chain: its id, the network name it is looked
/// up by, and the endpoint its block data comes from.
#[derive(Debug)]
pub struct ChainSpec {
    pub chain_id: u64,
    pub network: String,
    pub rpc: String,
}

/// Mathematical form of a chain configuration.
pub struct ChainSpecV {
    pub chain_id: u64,
    pub network: Seq<char>,
    pub rpc: Seq<char>,
}

impl View for ChainSpec {
    type V = ChainSpecV;

    open spec fn view(&self) -> ChainSpecV {
        ChainSpecV { chain_id: self.chain_id, network: self.network@, rpc: self.rpc@ }
    }
}

/// The chain-id to chain-configuration lookup table.
#[derive(Debug)]
pub struct SupportedChainSpecs {
    pub specs: Vec<ChainSpec>,
}

impl View for SupportedChainSpecs {
    type V = Seq<ChainSpecV>;

    open spec fn view(&self) -> Seq<ChainSpecV> {
        Seq::new(self.specs@.len(), |i: int| self.specs@[i]@)
    }
}

/// The first configuration carrying a network name, if any.
pub open spec fn spec_lookup(specs: Seq<ChainSpecV>, network: Seq<char>) -> Option<ChainSpecV>
    decreases specs.len(),
{
    if specs.len() == 0 {
        None
    } else if specs[0].network == network {
        Some(specs[0])
    } else {
        spec_lookup(specs.subrange(1, specs.len() as int), network)
    }
}

impl SupportedChainSpecs {
    /// The configuration of the chain known under `network`, if any.
    pub fn get_chain_spec(&self, network: &String) -> (r: Option<&ChainSpec>)
        ensures
            match r {
                Some(c) => spec_lookup(self@, network@) == Some(c@),
                None => spec_lookup(self@, network@) is None,
            },
    {
        let mut i: usize = 0;
        proof {
            assert(self@.subrange(0, self@.len() as int) =~= self@);
        }
        while i < self.specs.len()
            invariant
                i <= self.specs.len(),
                spec_lookup(self@, network@) == spec_lookup(
                    self@.subrange(i as int, self@.len() as int),
                    network@,
                ),
            decreases self.specs.len() - i,
        {
            proof {
                assert(self@.subrange(i as int, self@.len() as int)[0] == self@[i as int]);
                assert(self@.subrange(i as int, self@.len() as int).subrange(
                    1,
                    self@.len() - i,
                ) =~= self@.subrange(i + 1, self@.len() as int));
            }
            if self.specs[i].network == *network {
                return Some(&self.specs[i]);
            }
            i = i + 1;
        }
        None
    }
}

/// Why an engine request could not be built.
#[derive(Debug)]
pub enum RequestBuildError {
    /// The payload names a settlement network the table does not know.
    UnsupportedL1Network(String),
    /// The payload names a target network the table does not know.
    UnsupportedNetwork(String),
}

/// Mathematical form of a request-build error.
pub enum RequestBuildErrorV {
    UnsupportedL1Network(Seq<char>),
    UnsupportedNetwork(Seq<char>),
}

impl View for RequestBuildError {
    type V = RequestBuildErrorV;

    open spec fn view(&self) -> RequestBuildErrorV {
        match self {
            RequestBuildError::UnsupportedL1Network(n) => RequestBuildErrorV::UnsupportedL1Network(
                n@,
            ),
            RequestBuildError::UnsupportedNetwork(n) => RequestBuildErrorV::UnsupportedNetwork(n@),
        }
    }
}

/// Everything one proof-engine invocation needs.
#[derive(Debug)]
pub struct ProofRequest {
    pub block_number: u64,
    pub batch_id: u64,
    pub l1_inclusion_block_number: u64,
    pub network: String,
    pub l1_network: String,
    pub graffiti: Hash256,
    pub prover: Address,
    pub proof_type: ProofType,
    pub blob_proof_type: BlobProofType,
    pub prover_args: ProverArgs,
    pub l2_block_numbers: Vec<u64>,
}

/// Mathematical form of an engine request.
pub struct ProofRequestV {
    pub block_number: u64,
    pub batch_id: u64,
    pub l1_inclusion_block_number: u64,
    pub network: Seq<char>,
    pub l1_network: Seq<char>,
    pub graffiti: Hash256,
    pub prover: Address,
    pub proof_type: ProofType,
    pub blob_proof_type: BlobProofType,
    pub prover_args: Seq<(Seq<char>, Seq<char>)>,
    pub l2_block_numbers: Seq<u64>,
}

impl View for ProofRequest {
    type V = ProofRequestV;

    open spec fn view(&self) -> ProofRequestV {
        ProofRequestV {
            block_number: self.block_number,
            batch_id: self.batch_id,
            l1_inclusion_block_number: self.l1_inclusion_block_number,
            network: self.network@,
            l1_network: self.l1_network@,
            graffiti: self.graffiti,
            prover: self.prover,
            proof_type: self.proof_type,
            blob_proof_type: self.blob_proof_type,
            prover_args: self.prover_args@,
            l2_block_numbers: self.l2_block_numbers@,
        }
    }
}

/// The engine request a guest-input payload asks for: the prover identity
/// and proof type are left at their defaults, since input generation proves
/// nothing yet. Fails exactly when a named network is unknown.
pub fn guest_input_request(specs: &SupportedChainSpecs, entity: &GuestInputEntity) -> (r: Result<
    ProofRequest,
    RequestBuildError,
>)
    ensures
        r is Ok <==> spec_lookup(specs@, entity@.l1_network) is Some && spec_lookup(
            specs@,
            entity@.network,
        ) is Some,
        r matches Ok(req) ==> req@ == (ProofRequestV {
            block_number: entity@.block_number,
            batch_id: 0,
            l1_inclusion_block_number: entity@.l1_inclusion_block_number,
            network: entity@.network,
            l1_network: entity@.l1_network,
            graffiti: entity@.graffiti,
            prover: Address { hi: 0, mid: 0, lo: 0 },
            proof_type: ProofType::Native,
            blob_proof_type: entity@.blob_proof_type,
            prover_args: entity@.prover_args,
            l2_block_numbers: Seq::<u64>::empty(),
        }),
        r matches Err(e) ==> e@ == (if spec_lookup(specs@, entity@.l1_network) is None {
            RequestBuildErrorV::UnsupportedL1Network(entity@.l1_network)
        } else {
            RequestBuildErrorV::UnsupportedNetwork(entity@.network)
        }),
{
    if specs.get_chain_spec(&entity.l1_network).is_none() {
        return Err(RequestBuildError::UnsupportedL1Network(entity.l1_network.clone()));
    }
    if specs.get_chain_spec(&entity.network).is_none() {
        return Err(RequestBuildError::UnsupportedNetwork(entity.network.clone()));
    }
    let r = ProofRequest {
        block_number: entity.block_number,
        batch_id: 0,
        l1_inclusion_block_number: entity.l1_inclusion_block_number,
        network: entity.network.clone(),
        l1_network: entity.l1_network.clone(),
        graffiti: entity.graffiti,
        prover: Address::zero(),
        proof_type: ProofType::Native,
        blob_proof_type: entity.blob_proof_type,
        prover_args: clone_args(&entity.prover_args),
        l2_block_numbers: Vec::new(),
    };
    proof {
        assert(r@.l2_block_numbers =~= Seq::<u64>::empty());
    }
    Ok(r)
}

/// The engine request a single-proof payload asks for: the prover identity
/// and proof type come from the payload. Fails exactly when a named network
/// is unknown.
pub fn single_proof_request(specs: &SupportedChainSpecs, entity: &SingleProofEntity) -> (r: Result<
    ProofRequest,
    RequestBuildError,
>)
    ensures
        r is Ok <==> spec_lookup(specs@, entity@.l1_network) is Some && spec_lookup(
            specs@,
            entity@.network,
        ) is Some,
        r matches Ok(req) ==> req@ == (ProofRequestV {
            block_number: entity@.block_number,
            batch_id: 0,
            l1_inclusion_block_number: entity@.l1_inclusion_block_number,
            network: entity@.network,
            l1_network: entity@.l1_network,
            graffiti: entity@.graffiti,
            prover: entity@.prover,
            proof_type: entity@.proof_type,
            blob_proof_type: entity@.blob_proof_type,
            prover_args: entity@.prover_args,
            l2_block_numbers: Seq::<u64>::empty(),
        }),
        r matches Err(e) ==> e@ == (if spec_lookup(specs@, entity@.l1_network) is None {
            RequestBuildErrorV::UnsupportedL1Network(entity@.l1_network)
        } else {
            RequestBuildErrorV::UnsupportedNetwork(entity@.network)
        }),
{
    if specs.get_chain_spec(&entity.l1_network).is_none() {
        return Err(RequestBuildError::UnsupportedL1Network(entity.l1_network.clone()));
    }
    if specs.get_chain_spec(&entity.network).is_none() {
        return Err(RequestBuildError::UnsupportedNetwork(entity.network.clone()));
    }
    let r = ProofRequest {
        block_number: entity.block_number,
        batch_id: 0,
        l1_inclusion_block_number: entity.l1_inclusion_block_number,
        network: entity.network.clone(),
        l1_network: entity.l1_network.clone(),
        graffiti: entity.graffiti,
        prover: entity.prover,
        proof_type: entity.proof_type,
        blob_proof_type: entity.blob_proof_type,
        prover_args: clone_args(&entity.prover_args),
        l2_block_numbers: Vec::new(),
    };
    proof {
        assert(r@.l2_block_numbers =~= Seq::<u64>::empty());
    }
    Ok(r)
}

/// Wrap a batch guest-input payload as a batch-proof payload with default
/// prover identity, proof type and arguments, so that batch input
/// generation can reuse the batch-proof preparation path.
pub fn batch_entity_with_defaults(entity: &BatchGuestInputEntity) -> (r: BatchProofEntity)
    ensures
        r@ == (BatchProofEntityV {
            guest_input_entity: entity@,
            prover: Address { hi: 0, mid: 0, lo: 0 },
            proof_type: ProofType::Native,
            prover_args: Seq::<(Seq<char>, Seq<char>)>::empty(),
        }),
{
    let r = BatchProofEntity {
        guest_input_entity: clone_batch_guest_input_entity(entity),
        prover: Address::zero(),
        proof_type: ProofType::Native,
        prover_args: ProverArgs::empty(),
    };
    proof {
        assert(r@.prover_args =~= Seq::<(Seq<char>, Seq<char>)>::empty());
    }
    r
}

/// The engine request a batch-proof payload asks for, given the blocks the
/// batch's on-chain proposal covers: the request targets no single block,
/// carries the batch id, and spans exactly those blocks. Fails exactly when
/// a named network is unknown.
pub fn batch_proof_request(
    specs: &SupportedChainSpecs,
    entity: &BatchProofEntity,
    prove_blocks: &Vec<u64>,
) -> (r: Result<ProofRequest, RequestBuildError>)
    ensures
        r is Ok <==> spec_lookup(specs@, entity@.guest_input_entity.l1_network) is Some
            && spec_lookup(specs@, entity@.guest_input_entity.network) is Some,
        r matches Ok(req) ==> req@ == (ProofRequestV {
            block_number: 0,
            batch_id: entity@.guest_input_entity.batch_id,
            l1_inclusion_block_number: entity@.guest_input_entity.l1_inclusion_block_number,
            network: entity@.guest_input_entity.network,
            l1_network: entity@.guest_input_entity.l1_network,
            graffiti: entity@.guest_input_entity.graffiti,
            prover: entity@.prover,
            proof_type: entity@.proof_type,
            blob_proof_type: entity@.guest_input_entity.blob_proof_type,
            prover_args: entity@.prover_args,
            l2_block_numbers: prove_blocks@,
        }),
        r matches Err(e) ==> e@ == (if spec_lookup(
            specs@,
            entity@.guest_input_entity.l1_network,
        ) is None {
            RequestBuildErrorV::UnsupportedL1Network(entity@.guest_input_entity.l1_network)
        } else {
            RequestBuildErrorV::UnsupportedNetwork(entity@.guest_input_entity.network)
        }),
{
    let guest = &entity.guest_input_entity;
    if specs.get_chain_spec(&guest.l1_network).is_none() {
        return Err(RequestBuildError::UnsupportedL1Network(guest.l1_network.clone()));
    }
    if specs.get_chain_spec(&guest.network).is_none() {
        return Err(RequestBuildError::UnsupportedNetwork(guest.network.clone()));
    }
    Ok(ProofRequest {
        block_number: 0,
        batch_id: guest.batch_id,
        l1_inclusion_block_number: guest.l1_inclusion_block_number,
        network: guest.network.clone(),
        l1_network: guest.l1_network.clone(),
        graffiti: guest.graffiti,
        prover: entity.prover,
        proof_type: entity.proof_type,
        blob_proof_type: guest.blob_proof_type,
        prover_args: clone_args(&entity.prover_args),
        l2_block_numbers: crate::request::copy_u64s(prove_blocks),
    })
}

/// The blocks a batch's data provider must cover: one block before the
/// first proven block, through the last proven block.
pub fn provider_target_blocks(l2_block_numbers: &Vec<u64>) -> (r: Vec<u64>)
    requires
        l2_block_numbers@.len() > 0,
        l2_block_numbers@[0] >= 1,
        l2_block_numbers@[0] <= l2_block_numbers@.last(),
        l2_block_numbers@.last() - l2_block_numbers@[0] + 2 <= usize::MAX,
    ensures
        r@.len() == l2_block_numbers@.last() - (l2_block_numbers@[0] - 1) + 1,
        forall|i: int| 0 <= i < r@.len() ==> r@[i] == l2_block_numbers@[0] - 1 + i,
{
    let first = l2_block_numbers[0];
    let last = l2_block_numbers[l2_block_numbers.len() - 1];
    let start = first - 1;
    let total = (last - start + 1) as usize;
    let mut r: Vec<u64> = Vec::new();
    let mut i: usize = 0;
    while i < total
        invariant
            start == first - 1,
            first >= 1,
            first <= last,
            total == last - start + 1,
            i <= total,
            r@.len() == i,
            forall|j: int| 0 <= j < r@.len() ==> r@[j] == start + j,
        decreases total - i,
    {
        r.push(start + (i as u64));
        i = i + 1;
    }
    r
}

/// A guest input as the proving path reads it: the prover identity fields
/// it may have to reconcile, and the rest of the input, which it carries
/// through untouched.
#[derive(Debug)]
pub struct GuestInputData {
    pub graffiti: Hash256,
    pub prover: Address,
    pub payload: Vec<u8>,
}

/// Mathematical form of a guest input.
pub struct GuestInputDataV {
    pub graffiti: Hash256,
    pub prover: Address,
    pub payload: Seq<u8>,
}

impl View for GuestInputData {
    type V = GuestInputDataV;

    open spec fn view(&self) -> GuestInputDataV {
        GuestInputDataV { graffiti: self.graffiti, prover: self.prover, payload: self.payload@ }
    }
}

/// Make a cached guest input answer for the request at hand: its prover
/// identity fields are brought in line with the payload's, and everything
/// else is kept.
pub fn reconcile_prover_data(input: &mut GuestInputData, graffiti: Hash256, prover: Address)
    ensures
        final(input)@.graffiti == graffiti,
        final(input)@.prover == prover,
        final(input)@.payload == old(input)@.payload,
{
    if !(input.graffiti == graffiti && input.prover == prover) {
        input.graffiti = graffiti;
        input.prover = prover;
    }
}

/// Where a single proof's guest input comes from.
#[derive(Debug)]
pub enum SingleInputPlan {
    /// The payload carried a precomputed guest input: reuse it, reconciled
    /// to the payload's prover identity.
    UseCached(GuestInputData),
    /// No cached input: generate one.
    Generate,
}

/// Choose the guest input for a single proof: a cached input, if the caller
/// parsed one out of the payload's arguments, is reused after reconciling
/// the prover identity; otherwise one must be generated.
pub fn single_input_plan(
    cached: Option<GuestInputData>,
    graffiti: Hash256,
    prover: Address,
) -> (r: SingleInputPlan)
    ensures
        match cached {
            Some(c) => r matches SingleInputPlan::UseCached(out) && out@ == (GuestInputDataV {
                graffiti,
                prover,
                payload: c@.payload,
            }),
            None => r is Generate,
        },
{
    match cached {
        Some(mut c) => {
            reconcile_prover_data(&mut c, graffiti, prover);
            SingleInputPlan::UseCached(c)
        },
        None => SingleInputPlan::Generate,
    }
}

/// The proofs an aggregation combines, and the zero placeholder hash its
/// output is built over.
pub fn aggregation_proofs(entity: &crate::entity::AggregationEntity) -> (r: Vec<Proof>)
    ensures
        Seq::new(r@.len(), |i: int| r@[i]@) == entity@.proofs,
{
    let mut proofs: Vec<Proof> = Vec::new();
    let mut i: usize = 0;
    while i < entity.proofs.len()
        invariant
            i <= entity.proofs.len(),
            proofs@.len() == i,
            forall|j: int| 0 <= j < i ==> proofs@[j]@ == entity.proofs@[j]@,
        decreases entity.proofs.len() - i,
    {
        proofs.push(clone_proof(&entity.proofs[i]));
        i = i + 1;
    }
    proof {
        assert(Seq::new(proofs@.len(), |i: int| proofs@[i]@) =~= entity@.proofs);
    }
    proofs
}

/// The capacity of the internal recheck queue, read from an optional
/// override: a well-formed decimal that fits is taken, anything else falls
/// back to the default of 1024.
pub fn channel_size_from(setting: Option<&str>) -> (r: usize)
    ensures
        match setting {
            Some(s) => if is_digit_seq(s@) && digits_value(s@) <= usize::MAX {
                r == digits_value(s@)
            } else {
                r == 1024
            },
            None => r == 1024,
        },
{
    match setting {
        None => 1024,
        Some(s) => {
            let n = s.unicode_len();
            if n == 0 {
                return 1024;
            }
            let mut acc: usize = 0;
            let mut i: usize = 0;
            while i < n
                invariant
                    setting matches Some(t) && t@ == s@,
                    i <= n,
                    n == s@.len(),
                    0 < n <= usize::MAX,
                    is_digit_prefix(s@, i as int),
                    acc == digits_value(s@.subrange(0, i as int)),
                decreases n - i,
            {
                let c = s.get_char(i);
                let cv = c as u32;
                if cv < 48 || cv > 57 {
                    proof {
                        assert(!(48 <= s@[i as int] as int <= 57));
                        assert(!is_digit_seq(s@));
                    }
                    return 1024;
                }
                let d = (cv - 48) as usize;
                if acc > (usize::MAX - d) / 10 {
                    proof {
                        let q = (usize::MAX - d) as int / 10;
                        assert((usize::MAX - d) as int == 10 * q + (usize::MAX - d) as int % 10);
                        assert(acc * 10 >= (q + 1) * 10) by (nonlinear_arith)
                            requires
                                acc >= q + 1,
                        ;
                        assert(acc * 10 + d > usize::MAX);
                        assert(s@.subrange(0, i + 1).drop_last() =~= s@.subrange(0, i as int));
                        assert(s@.subrange(0, i + 1).last() == s@[i as int]);
                        assert(digits_value(s@.subrange(0, i + 1)) == acc * 10 + d);
                        if is_digit_seq(s@) {
                            lemma_digit_prefix_monotone(s@, i + 1);
                        }
                    }
                    return 1024;
                }
                acc = acc * 10 + d;
                proof {
                    assert(s@.subrange(0, i + 1).drop_last() =~= s@.subrange(0, i as int));
                    assert(s@.subrange(0, i + 1).last() == s@[i as int]);
                }
                i = i + 1;
            }
            proof {
                assert(s@.subrange(0, n as int) =~= s@);
            }
            acc
        },
    }
}

/// Whether the first `n` characters are decimal digits.
pub open spec fn is_digit_prefix(s: Seq<char>, n: int) -> bool {
    forall|i: int| 0 <= i < n ==> 48 <= #[trigger] s[i] as int <= 57
}

/// Whether a text is a non-empty run of decimal digits.
pub open spec fn is_digit_seq(s: Seq<char>) -> bool {
    s.len() > 0 && is_digit_prefix(s, s.len() as int)
}

/// The number a run of decimal digits denotes.
pub open spec fn digits_value(s: Seq<char>) -> int
    decreases s.len(),
{
    if s.len() == 0 {
        0
    } else {
        digits_value(s.drop_last()) * 10 + (s.last() as int - 48)
    }
}

/// A run of digits denotes at least zero, and no less than any prefix of
/// it denotes.
pub proof fn lemma_digit_prefix_monotone(s: Seq<char>, n: int)
    requires
        0 <= n <= s.len(),
        is_digit_prefix(s, s.len() as int),
    ensures
        digits_value(s) >= 0,
        digits_value(s) >= digits_value(s.subrange(0, n)),
    decreases s.len(),
{
    lemma_digits_value_nonneg(s);
    if n < s.len() {
        assert(is_digit_prefix(s.drop_last(), s.len() - 1)) by {
            assert forall|i: int| 0 <= i < s.len() - 1 implies 48 <= #[trigger] s.drop_last()[i]
                as int <= 57 by {
                assert(s.drop_last()[i] == s[i]);
            }
        }
        assert(s.drop_last().subrange(0, n) =~= s.subrange(0, n));
        lemma_digit_prefix_monotone(s.drop_last(), n);
        assert(digits_value(s) >= digits_value(s.drop_last()));
    } else {
        assert(s.subrange(0, n) =~= s);
    }
}

/// A run of digits denotes at least zero.
pub proof fn lemma_digits_value_nonneg(s: Seq<char>)
    requires
        is_digit_prefix(s, s.len() as int),
    ensures
        digits_value(s) >= 0,
    decreases s.len(),
{
    if s.len() > 0 {
        assert(is_digit_prefix(s.drop_last(), s.len() - 1)) by {
            assert forall|i: int| 0 <= i < s.len() - 1 implies 48 <= #[trigger] s.drop_last()[i]
                as int <= 57 by {
                assert(s.drop_last()[i] == s[i]);
            }
        }
        lemma_digits_value_nonneg(s.drop_last());
        assert(s.last() as int >= 48);
    }
}

} // verus!
