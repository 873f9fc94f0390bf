//! Orchestration core of a proof-generation service.
//!
//! The library is the verified heart of a request actor: it tracks each
//! proof request through a lifecycle state machine held in a status pool,
//! decides what each external command and each internal recheck does,
//! bounds how many proof computations may run at once, and produces the
//! compressed, base64-encoded wire form of batch guest inputs.
//!
//! Asynchronous plumbing (channels, timers, the real proof engine) lives
//! outside the library; it calls the decision functions here and performs
//! the effects they prescribe.

use vstd::prelude::*;

mod actor;
mod codec;
mod decision;
mod dispatch;
mod entity;
mod gate;
mod pool;
mod request;
mod status;

pub use entity::{
    AggregationEntity, AggregationEntityV, BatchGuestInputEntity, BatchGuestInputEntityV,
    BatchProofEntity, BatchProofEntityV, EntityV, GuestInputEntity, GuestInputEntityV, Proof,
    ProofV, ProverArgs, RequestEntity, SingleProofEntity, SingleProofEntityV, args_lookup,
    clone_args, clone_batch_guest_input_entity, clone_entity, clone_guest_input_entity,
    clone_opt_string, clone_proof, opt_str_view,
};
pub use actor::{
    Actor, ActorError, ActorErrorV, StoreV, abort_view, begin_transition, cancel_invokes_engine,
    cancel_transition, cancelled_ctx, finish_transition, keys_unique, keys_view,
    lemma_cancel_of_registered, lemma_cancel_of_unknown, lemma_crash_safety,
    lemma_exactly_one_in_flight, lemma_prove_idempotent, lemma_prove_reregisters,
    lemma_remove_keeps_unique, lemma_writes_follow_edges, outcome_status, outcome_view,
    prove_transition, recheck_view, registered_ctx, reply_view, wip_ctx,
};
pub use codec::{
    BatchInput, BatchInputPlan, BatchInputV, CodecError, b64_of, b64_parse_of,
    batch_guest_input_proof, batch_payload_of, bincode_bytes_of, bincode_parse_of,
    decode_batch_input, encode_batch_input, plan_batch_input, zlib_deflate_of, zlib_inflate_of,
};
pub use decision::{
    Action, CancelStep, ProveStep, RecheckStep, abort_accepted, abort_outcome_accepted,
    cancel_decision, no_data_marker, prove_decision, recheck_decision, seq_contains, str_contains,
};
pub use dispatch::{
    ChainSpec, ChainSpecV, GuestInputData, GuestInputDataV, ProofRequest, ProofRequestV,
    RequestBuildError, RequestBuildErrorV, SingleInputPlan, SupportedChainSpecs,
    aggregation_proofs, batch_entity_with_defaults, batch_proof_request, channel_size_from,
    digits_value, guest_input_request, is_digit_prefix, is_digit_seq,
    lemma_digit_prefix_monotone, lemma_digits_value_nonneg, provider_target_blocks,
    reconcile_prover_data, single_input_plan, single_proof_request, spec_lookup,
};
pub use gate::AdmissionGate;
pub use pool::{Pool, PoolEntry, entries_unique, pool_map};
pub use status::{
    Status, StatusCtxV, StatusV, StatusWithContext, clone_status, clone_status_ctx, step_allowed,
};
pub use request::{
    Address, AggregationKey, BatchGuestInputKey, BatchProofKey, BlobProofType, GuestInputKey,
    Hash256, KeyV, ProofType, RequestKey, SingleProofKey, clone_key, copy_u64s, eq_u64s, key_eq,
};

verus! {

/// The fixed backoff, in seconds, before a request is rechecked after a
/// transient store failure or while work is still in progress.
pub const RECHECK_DELAY_SECS: u64 = 3;

} // verus!
