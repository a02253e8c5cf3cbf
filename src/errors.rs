use vstd::prelude::*;

verus! {

/// Why the outside token ledger refused a transfer.
#[derive(Clone, Copy, Debug, PartialEq, Eq, Structural)]
pub enum TransferFailure {
    /// The escrow holds less than the amount asked for.
    InsufficientFunds,
    /// The decimal precision presented does not match the mint's.
    DecimalsMismatch,
    /// A balance is not associated with the mint, or not owned as required.
    InvalidOwnership,
    /// Any other refusal of the ledger.
    Other,
}

/// Errors of the claims engine.
#[derive(Clone, Copy, Debug, PartialEq, Eq, Structural)]
pub enum TokenClaimError {
    /// The nonce was claimed before.
    NonceAlreadyClaimed,
    /// The invoking identity is not the record's authority.
    Unauthorized,
    /// The nonce lies outside the bitmap's capacity.
    NonceOutOfRange,
    /// A record for this authority and campaign exists already.
    CollisionOnCreate,
    /// No record exists for this authority and campaign.
    UnknownRecord,
    /// No bump gives the record an address off the curve.
    AddressDerivationFailed,
    /// The ledger refused the transfer; the claim left no trace.
    TransferFailed(TransferFailure),
}

impl TokenClaimError {
    /// A short description of the error.
    pub fn message(&self) -> (r: &'static str) {
        match self {
            TokenClaimError::NonceAlreadyClaimed => "Nonce Claimed: Token already claimed",
            TokenClaimError::Unauthorized => "Unauthorized: User is not the authority",
            TokenClaimError::NonceOutOfRange => "Nonce out of range: beyond the bitmap's capacity",
            TokenClaimError::CollisionOnCreate => "Collision: a record exists for this campaign",
            TokenClaimError::UnknownRecord => "Unknown record: no record for this campaign",
            TokenClaimError::AddressDerivationFailed => "Address derivation failed: no viable bump",
            TokenClaimError::TransferFailed(_) => "Transfer failed: the ledger refused the transfer",
        }
    }
}

} // verus!
