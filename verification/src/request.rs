//! Request identifiers and payloads.
//!
//! A request key names one proof request per kind; it is the lookup key of
//! the status pool and the token carried on the internal recheck queue. A
//! request entity is the kind-specific payload needed to perform the work.

use vstd::prelude::*;

verus! {

/// The kind of proof engine a request is destined for.
#[derive(Clone, Copy, PartialEq, Eq, Structural, Debug)]
pub enum ProofType {
    Native,
    Sgx,
    SgxGeth,
    Sp1,
    Risc0,
}

/// How a blob carried by a request is to be proven.
#[derive(Clone, Copy, PartialEq, Eq, Structural, Debug)]
pub enum BlobProofType {
    KzgVersionedHash,
    ProofOfEquivalence,
}

/// A 256-bit hash, held as four 64-bit words, most significant first.
#[derive(Clone, Copy, PartialEq, Eq, Structural, Debug)]
pub struct Hash256 {
    pub w0: u64,
    pub w1: u64,
    pub w2: u64,
    pub w3: u64,
}

impl Hash256 {
    /// The all-zero hash, used as the placeholder output of an aggregation.
    pub fn zero() -> (r: Hash256)
        ensures
            r == (Hash256 { w0: 0, w1: 0, w2: 0, w3: 0 }),
    {
        Hash256 { w0: 0, w1: 0, w2: 0, w3: 0 }
    }
}

/// A 160-bit account address, held as two 64-bit words and one 32-bit word,
/// most significant first.
#[derive(Clone, Copy, PartialEq, Eq, Structural, Debug)]
pub struct Address {
    pub hi: u64,
    pub mid: u64,
    pub lo: u32,
}

impl Address {
    /// The all-zero address, the default prover identity.
    pub fn zero() -> (r: Address)
        ensures
            r == (Address { hi: 0, mid: 0, lo: 0 }),
    {
        Address { hi: 0, mid: 0, lo: 0 }
    }
}

/// Key of a guest-input precomputation request.
#[derive(Clone, Copy, PartialEq, Eq, Structural, Debug)]
pub struct GuestInputKey {
    pub chain_id: u64,
    pub block_number: u64,
    pub block_hash: Hash256,
}

/// Key of a single-block proof request.
#[derive(Clone, Copy, PartialEq, Eq, Structural, Debug)]
pub struct SingleProofKey {
    pub chain_id: u64,
    pub block_number: u64,
    pub block_hash: Hash256,
    pub proof_type: ProofType,
}

/// Key of a multi-proof aggregation request.
#[derive(Debug)]
pub struct AggregationKey {
    pub chain_id: u64,
    pub proof_type: ProofType,
    pub block_numbers: Vec<u64>,
}

/// Key of a multi-block batch proof request.
#[derive(Clone, Copy, PartialEq, Eq, Structural, Debug)]
pub struct BatchProofKey {
    pub chain_id: u64,
    pub batch_id: u64,
    pub l1_inclusion_block_number: u64,
    pub proof_type: ProofType,
}

/// Key of a batch guest-input precomputation request.
#[derive(Clone, Copy, PartialEq, Eq, Structural, Debug)]
pub struct BatchGuestInputKey {
    pub chain_id: u64,
    pub batch_id: u64,
    pub l1_inclusion_block_number: u64,
}

/// A discriminated request identifier, one variant per request kind.
#[derive(Debug)]
pub enum RequestKey {
    GuestInput(GuestInputKey),
    SingleProof(SingleProofKey),
    Aggregation(AggregationKey),
    BatchProof(BatchProofKey),
    BatchGuestInput(BatchGuestInputKey),
}

/// Mathematical form of a request key: the aggregation's block list is a
/// sequence; all other data is plain.
pub enum KeyV {
    GuestInput { chain_id: u64, block_number: u64, block_hash: Hash256 },
    SingleProof { chain_id: u64, block_number: u64, block_hash: Hash256, proof_type: ProofType },
    Aggregation { chain_id: u64, proof_type: ProofType, block_numbers: Seq<u64> },
    BatchProof { chain_id: u64, batch_id: u64, l1_inclusion_block_number: u64, proof_type: ProofType },
    BatchGuestInput { chain_id: u64, batch_id: u64, l1_inclusion_block_number: u64 },
}

impl View for RequestKey {
    type V = KeyV;

    open spec fn view(&self) -> KeyV {
        match self {
            RequestKey::GuestInput(k) => KeyV::GuestInput {
                chain_id: k.chain_id,
                block_number: k.block_number,
                block_hash: k.block_hash,
            },
            RequestKey::SingleProof(k) => KeyV::SingleProof {
                chain_id: k.chain_id,
                block_number: k.block_number,
                block_hash: k.block_hash,
                proof_type: k.proof_type,
            },
            RequestKey::Aggregation(k) => KeyV::Aggregation {
                chain_id: k.chain_id,
                proof_type: k.proof_type,
                block_numbers: k.block_numbers@,
            },
            RequestKey::BatchProof(k) => KeyV::BatchProof {
                chain_id: k.chain_id,
                batch_id: k.batch_id,
                l1_inclusion_block_number: k.l1_inclusion_block_number,
                proof_type: k.proof_type,
            },
            RequestKey::BatchGuestInput(k) => KeyV::BatchGuestInput {
                chain_id: k.chain_id,
                batch_id: k.batch_id,
                l1_inclusion_block_number: k.l1_inclusion_block_number,
            },
        }
    }
}

impl RequestKey {
    /// The proof type a key is destined for, where its kind carries one.
    pub fn proof_type(&self) -> (r: Option<ProofType>)
        ensures
            r == self.spec_proof_type(),
    {
        match self {
            RequestKey::GuestInput(_) => None,
            RequestKey::SingleProof(k) => Some(k.proof_type),
            RequestKey::Aggregation(k) => Some(k.proof_type),
            RequestKey::BatchProof(k) => Some(k.proof_type),
            RequestKey::BatchGuestInput(_) => None,
        }
    }

    /// Specification of `proof_type`.
    pub open spec fn spec_proof_type(&self) -> Option<ProofType> {
        match self {
            RequestKey::GuestInput(_) => None,
            RequestKey::SingleProof(k) => Some(k.proof_type),
            RequestKey::Aggregation(k) => Some(k.proof_type),
            RequestKey::BatchProof(k) => Some(k.proof_type),
            RequestKey::BatchGuestInput(_) => None,
        }
    }
}

/// Copy a vector of block numbers.
pub fn copy_u64s(v: &Vec<u64>) -> (r: Vec<u64>)
    ensures
        r@ == v@,
{
    let mut r: Vec<u64> = Vec::new();
    let mut i: usize = 0;
    while i < v.len()
        invariant
            i <= v.len(),
            r@ == v@.subrange(0, i as int),
        decreases v.len() - i,
    {
        r.push(v[i]);
        proof {
            assert(r@ =~= v@.subrange(0, i + 1 as int));
        }
        i = i + 1;
    }
    proof {
        assert(r@ =~= v@);
    }
    r
}

/// Whether two vectors of block numbers hold the same numbers in the same
/// order.
pub fn eq_u64s(a: &Vec<u64>, b: &Vec<u64>) -> (r: bool)
    ensures
        r == (a@ == b@),
{
    if a.len() != b.len() {
        proof {
            assert(a@ != b@);
        }
        return false;
    }
    let mut i: usize = 0;
    while i < a.len()
        invariant
            i <= a.len(),
            a@.len() == b@.len(),
            forall|j: int| 0 <= j < i ==> a@[j] == b@[j],
        decreases a.len() - i,
    {
        if a[i] != b[i] {
            proof {
                assert(a@[i as int] != b@[i as int]);
            }
            return false;
        }
        i = i + 1;
    }
    proof {
        assert(a@ =~= b@);
    }
    true
}

/// Duplicate a request key; the copy denotes the same request.
pub fn clone_key(k: &RequestKey) -> (r: RequestKey)
    ensures
        r@ == k@,
{
    match k {
        RequestKey::GuestInput(k) => RequestKey::GuestInput(*k),
        RequestKey::SingleProof(k) => RequestKey::SingleProof(*k),
        RequestKey::Aggregation(k) => RequestKey::Aggregation(AggregationKey {
            chain_id: k.chain_id,
            proof_type: k.proof_type,
            block_numbers: copy_u64s(&k.block_numbers),
        }),
        RequestKey::BatchProof(k) => RequestKey::BatchProof(*k),
        RequestKey::BatchGuestInput(k) => RequestKey::BatchGuestInput(*k),
    }
}

/// Whether two keys name the same request.
pub fn key_eq(a: &RequestKey, b: &RequestKey) -> (r: bool)
    ensures
        r == (a@ == b@),
{
    match (a, b) {
        (RequestKey::GuestInput(x), RequestKey::GuestInput(y)) => *x == *y,
        (RequestKey::SingleProof(x), RequestKey::SingleProof(y)) => *x == *y,
        (RequestKey::Aggregation(x), RequestKey::Aggregation(y)) => {
            x.chain_id == y.chain_id && x.proof_type == y.proof_type
                && eq_u64s(&x.block_numbers, &y.block_numbers)
        },
        (RequestKey::BatchProof(x), RequestKey::BatchProof(y)) => *x == *y,
        (RequestKey::BatchGuestInput(x), RequestKey::BatchGuestInput(y)) => *x == *y,
        _ => false,
    }
}

} // verus!
