use vstd::prelude::*;

use crate::address::Address;
use crate::derive::{seeds_view, signer_seeds, signer_seeds_of};
use crate::errors::{TokenClaimError, TransferFailure};
use crate::token_claims::{RecordView, TokenClaims, NONCE_CAPACITY};

verus! {

/// The checks a claim passes before any transfer: the invoker is the
/// authority, the nonce is in range, and the nonce is not claimed yet, in
/// that order.
pub open spec fn claim_check(rec: RecordView, invoker: Seq<u8>, nonce: u64) -> Result<(), TokenClaimError> {
    if invoker != rec.authority {
        Err(TokenClaimError::Unauthorized)
    } else if nonce >= NONCE_CAPACITY {
        Err(TokenClaimError::NonceOutOfRange)
    } else if rec.claimed.contains(nonce) {
        Err(TokenClaimError::NonceAlreadyClaimed)
    } else {
        Ok(())
    }
}

/// The record after a whole claim, and what the claim reports, given what the
/// ledger answered to the transfer. The nonce becomes claimed only when the
/// checks pass and the transfer went through; otherwise nothing changes.
pub open spec fn claim_outcome(
    rec: RecordView,
    invoker: Seq<u8>,
    nonce: u64,
    transfer: Result<(), TransferFailure>,
) -> (RecordView, Result<(), TokenClaimError>) {
    match claim_check(rec, invoker, nonce) {
        Err(e) => (rec, Err(e)),
        Ok(()) => match transfer {
            Ok(()) => (RecordView { claimed: rec.claimed.insert(nonce), ..rec }, Ok(())),
            Err(f) => (rec, Err(TokenClaimError::TransferFailed(f))),
        },
    }
}

/// The transfer a claim asks the ledger for: `amount` moves out of the escrow
/// whose owner is the record's address, signed with the record's seeds.
#[derive(Debug)]
pub struct TransferOrder {
    /// The record's address: owner of the escrow, and the signer.
    pub escrow_authority: Address,
    /// The record's authority, who invoked the claim.
    pub authority: Address,
    pub campaign_id: u64,
    pub nonce: u64,
    pub amount: u64,
    /// The seeds that reproduce the record's address, bump last.
    pub signer_seeds: Vec<Vec<u8>>,
}

impl TransferOrder {
    /// This is the order of a claim of `nonce` for `amount` on the record `rec`.
    pub open spec fn describes(&self, rec: RecordView, nonce: u64, amount: u64) -> bool {
        &&& self.escrow_authority.bytes@ == rec.address
        &&& self.authority.bytes@ == rec.authority
        &&& self.campaign_id == rec.campaign_id
        &&& self.nonce == nonce
        &&& self.amount == amount
        &&& seeds_view(self.signer_seeds@) == signer_seeds(rec.campaign_id, rec.authority, rec.bump)
    }
}

/// What a status query reports of a nonce.
#[derive(Clone, Copy, Debug, PartialEq, Eq, Structural)]
pub enum ClaimStatusResult {
    Claimed,
    Unclaimed,
}

/// First half of a claim: checks `invoker` and `nonce` against the record and
/// returns the transfer to perform. Nothing is written; the nonce is marked by
/// `settle_claim` once the ledger has answered.
pub fn claim_token(record: &TokenClaims, invoker: &Address, nonce: u64, amount: u64) -> (r: Result<TransferOrder, TokenClaimError>)
    requires
        record.wf(),
    ensures
        match r {
            Ok(order) => claim_check(record@, invoker.bytes@, nonce) == Ok::<(), TokenClaimError>(())
                && order.describes(record@, nonce, amount),
            Err(e) => claim_check(record@, invoker.bytes@, nonce) == Err::<(), TokenClaimError>(e),
        },
{
    if !record.authority.same_as(invoker) {
        return Err(TokenClaimError::Unauthorized);
    }
    match record.is_nonce_claimed(nonce) {
        Err(e) => Err(e),
        Ok(true) => Err(TokenClaimError::NonceAlreadyClaimed),
        Ok(false) => Ok(
            TransferOrder {
                escrow_authority: record.address,
                authority: record.authority,
                campaign_id: record.campaign_id,
                nonce,
                amount,
                signer_seeds: signer_seeds_of(record.campaign_id, &record.authority, record.bump),
            },
        ),
    }
}

/// Second half of a claim: given the ledger's answer to the order's transfer,
/// marks the nonce claimed when the transfer went through and the checks
/// still pass, and leaves the record untouched otherwise.
pub fn settle_claim(
    record: &mut TokenClaims,
    order: &TransferOrder,
    transfer: Result<(), TransferFailure>,
) -> (r: Result<(), TokenClaimError>)
    requires
        old(record).wf(),
    ensures
        final(record).wf(),
        (final(record)@, r) == claim_outcome(old(record)@, order.authority.bytes@, order.nonce, transfer),
{
    if !record.authority.same_as(&order.authority) {
        return Err(TokenClaimError::Unauthorized);
    }
    match record.is_nonce_claimed(order.nonce) {
        Err(e) => Err(e),
        Ok(true) => Err(TokenClaimError::NonceAlreadyClaimed),
        Ok(false) => match transfer {
            Err(f) => Err(TokenClaimError::TransferFailed(f)),
            Ok(()) => record.set_nonce_claimed(order.nonce),
        },
    }
}

/// Whether `nonce` is claimed in the record; a nonce beyond the capacity is refused.
pub fn claim_status(record: &TokenClaims, nonce: u64) -> (r: Result<ClaimStatusResult, TokenClaimError>)
    requires
        record.wf(),
    ensures
        nonce >= NONCE_CAPACITY ==> r == Err::<ClaimStatusResult, TokenClaimError>(TokenClaimError::NonceOutOfRange),
        nonce < NONCE_CAPACITY && record@.claimed.contains(nonce) ==> r == Ok::<ClaimStatusResult, TokenClaimError>(ClaimStatusResult::Claimed),
        nonce < NONCE_CAPACITY && !record@.claimed.contains(nonce) ==> r == Ok::<ClaimStatusResult, TokenClaimError>(ClaimStatusResult::Unclaimed),
{
    match record.is_nonce_claimed(nonce) {
        Err(e) => Err(e),
        Ok(true) => Ok(ClaimStatusResult::Claimed),
        Ok(false) => Ok(ClaimStatusResult::Unclaimed),
    }
}

} // verus!
