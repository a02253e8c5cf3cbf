//! Claim authorization for pre-funded token campaigns.
//!
//! An authority provisions one claims record per campaign. Each claim names a
//! nonce; the record's bitmap makes sure that no nonce is redeemed twice, and
//! the record's derived address is the signing authority of the escrow that
//! funds the campaign.

pub mod address;
pub mod claim;
pub mod derive;
pub mod errors;
pub mod laws;
pub mod registry;
pub mod token_claims;
