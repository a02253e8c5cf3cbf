//! Properties of the claims protocol, stated over its abstract state.
use vstd::prelude::*;

use crate::claim::claim_outcome;
use crate::errors::{TokenClaimError, TransferFailure};
use crate::registry::create_outcome;
use crate::token_claims::{RecordView, NONCE_CAPACITY};

verus! {

/// A nonce is redeemed at most once: when the authority claims an unclaimed
/// nonce and the transfer goes through, the claim succeeds and marks the nonce;
/// a second claim of the same nonce is then refused as a replay and changes
/// nothing, whatever the ledger would answer.
pub proof fn lemma_claim_twice(rec: RecordView, nonce: u64, second: Result<(), TransferFailure>)
    requires
        nonce < NONCE_CAPACITY,
        !rec.claimed.contains(nonce),
    ensures
        ({
            let (after, first) = claim_outcome(rec, rec.authority, nonce, Ok(()));
            &&& first == Ok::<(), TokenClaimError>(())
            &&& after.claimed.contains(nonce)
            &&& claim_outcome(after, rec.authority, nonce, second) == (after, Err::<(), TokenClaimError>(TokenClaimError::NonceAlreadyClaimed))
        }),
{
}

/// A nonce at or beyond the capacity, the largest `u64` among them, is
/// refused as out of range in every record state, and nothing changes.
pub proof fn lemma_claim_out_of_range(rec: RecordView, nonce: u64, transfer: Result<(), TransferFailure>)
    requires
        nonce >= NONCE_CAPACITY,
    ensures
        claim_outcome(rec, rec.authority, nonce, transfer) == (rec, Err::<(), TokenClaimError>(TokenClaimError::NonceOutOfRange)),
{
}

/// A claim of one nonce never changes whether any other nonce is claimed.
pub proof fn lemma_claim_independent(
    rec: RecordView,
    invoker: Seq<u8>,
    nonce: u64,
    transfer: Result<(), TransferFailure>,
    other: u64,
)
    requires
        other != nonce,
    ensures
        claim_outcome(rec, invoker, nonce, transfer).0.claimed.contains(other) == rec.claimed.contains(other),
{
}

/// A claim invoked by anyone but the record's authority is refused as
/// unauthorized and leaves the record, its bitmap included, unchanged.
pub proof fn lemma_claim_unauthorized(
    rec: RecordView,
    invoker: Seq<u8>,
    nonce: u64,
    transfer: Result<(), TransferFailure>,
)
    requires
        invoker != rec.authority,
    ensures
        claim_outcome(rec, invoker, nonce, transfer) == (rec, Err::<(), TokenClaimError>(TokenClaimError::Unauthorized)),
{
}

/// A claim whose transfer fails reports the ledger's refusal and leaves the
/// nonce unclaimed, so that the same claim succeeds once the transfer goes through.
pub proof fn lemma_claim_failed_transfer(rec: RecordView, nonce: u64, failure: TransferFailure)
    requires
        nonce < NONCE_CAPACITY,
        !rec.claimed.contains(nonce),
    ensures
        ({
            let (after, first) = claim_outcome(rec, rec.authority, nonce, Err(failure));
            &&& first == Err::<(), TokenClaimError>(TokenClaimError::TransferFailed(failure))
            &&& after == rec
            &&& !after.claimed.contains(nonce)
            &&& claim_outcome(after, rec.authority, nonce, Ok(())).1 == Ok::<(), TokenClaimError>(())
        }),
{
}

/// A pair gets at most one record: once a creation for it succeeded, a
/// second creation for the same pair is refused as a collision and leaves
/// the registry, the first record included, unchanged.
pub proof fn lemma_create_twice(
    reg: Map<(Seq<u8>, u64), RecordView>,
    authority: Seq<u8>,
    campaign_id: u64,
    program_id: Seq<u8>,
    second_program_id: Seq<u8>,
)
    ensures
        ({
            let (after, first) = create_outcome(reg, authority, campaign_id, program_id);
            first is Ok ==> {
                &&& after.contains_key((authority, campaign_id))
                &&& create_outcome(after, authority, campaign_id, second_program_id)
                    == (after, Err::<Seq<u8>, TokenClaimError>(TokenClaimError::CollisionOnCreate))
            }
        }),
{
}

} // verus!
