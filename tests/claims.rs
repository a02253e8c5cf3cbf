use anchor_lang::prelude::Pubkey;
use token_claim::address::Address;
use token_claim::claim::{claim_status, claim_token, settle_claim, ClaimStatusResult};
use token_claim::derive::{derive_record_address, le_bytes_of, record_seeds_of, seed_prefix_bytes, signer_seeds_of};
use token_claim::errors::{TokenClaimError, TransferFailure};
use token_claim::registry::Registry;
use token_claim::token_claims::{TokenClaims, BITMAP_BYTES, NONCE_CAPACITY};

fn addr(b: u8) -> Address {
    Address::new([b; 32])
}

fn program() -> Address {
    addr(200)
}

fn registry_with(authority: &Address, campaign_id: u64) -> Registry {
    let mut reg = Registry::new();
    reg.create_token_claims(authority, campaign_id, &program()).unwrap();
    reg
}

fn full_claim(reg: &mut Registry, authority: &Address, campaign_id: u64, invoker: &Address, nonce: u64, amount: u64) -> Result<(), TokenClaimError> {
    let order = reg.claim_token(authority, campaign_id, invoker, nonce, amount)?;
    reg.settle_claim(&order, Ok(()))
}

#[test]
fn campaign_example() {
    let a = addr(1);
    let mut reg = registry_with(&a, 7);
    assert_eq!(full_claim(&mut reg, &a, 7, &a, 42, 1000), Ok(()));
    assert_eq!(reg.claim_status(&a, 7, 42), Ok(ClaimStatusResult::Claimed));
    assert_eq!(full_claim(&mut reg, &a, 7, &a, 42, 500), Err(TokenClaimError::NonceAlreadyClaimed));
    assert_eq!(reg.claim_status(&a, 7, 43), Ok(ClaimStatusResult::Unclaimed));
}

#[test]
fn claiming_twice_is_a_replay() {
    let a = addr(1);
    let mut reg = registry_with(&a, 3);
    for nonce in [0u64, 1, 7, 8, 4095, 8191] {
        assert_eq!(full_claim(&mut reg, &a, 3, &a, nonce, 10), Ok(()));
        assert_eq!(full_claim(&mut reg, &a, 3, &a, nonce, 10), Err(TokenClaimError::NonceAlreadyClaimed));
    }
}

#[test]
fn nonces_beyond_capacity_are_refused() {
    let a = addr(1);
    let mut reg = registry_with(&a, 3);
    assert_eq!(NONCE_CAPACITY, 8 * BITMAP_BYTES as u64);
    for nonce in [NONCE_CAPACITY, NONCE_CAPACITY + 1, u64::MAX] {
        assert_eq!(full_claim(&mut reg, &a, 3, &a, nonce, 10), Err(TokenClaimError::NonceOutOfRange));
        assert_eq!(reg.claim_status(&a, 3, nonce), Err(TokenClaimError::NonceOutOfRange));
    }
    assert_eq!(full_claim(&mut reg, &a, 3, &a, 8191, 10), Ok(()));
    for nonce in [NONCE_CAPACITY, u64::MAX] {
        assert_eq!(full_claim(&mut reg, &a, 3, &a, nonce, 10), Err(TokenClaimError::NonceOutOfRange));
    }
}

#[test]
fn claiming_one_nonce_leaves_others() {
    let a = addr(1);
    let mut reg = registry_with(&a, 3);
    assert_eq!(full_claim(&mut reg, &a, 3, &a, 5, 10), Ok(()));
    for k in 0u64..64 {
        let expected = if k == 5 { ClaimStatusResult::Claimed } else { ClaimStatusResult::Unclaimed };
        assert_eq!(reg.claim_status(&a, 3, k), Ok(expected));
    }
    assert_eq!(reg.claim_status(&a, 3, 8191), Ok(ClaimStatusResult::Unclaimed));
}

#[test]
fn other_invoker_is_unauthorized() {
    let a = addr(1);
    let mallory = addr(2);
    let mut reg = registry_with(&a, 3);
    assert_eq!(full_claim(&mut reg, &a, 3, &mallory, 11, 10), Err(TokenClaimError::Unauthorized));
    assert_eq!(reg.claim_status(&a, 3, 11), Ok(ClaimStatusResult::Unclaimed));
    assert!(reg.records[0].bitmap.iter().all(|b| *b == 0));
    assert_eq!(full_claim(&mut reg, &a, 3, &a, 11, 10), Ok(()));
}

#[test]
fn failed_transfer_leaves_nonce_unclaimed() {
    let a = addr(1);
    let mut reg = registry_with(&a, 3);
    let order = reg.claim_token(&a, 3, &a, 77, 1_000_000).unwrap();
    assert_eq!(
        reg.settle_claim(&order, Err(TransferFailure::InsufficientFunds)),
        Err(TokenClaimError::TransferFailed(TransferFailure::InsufficientFunds))
    );
    assert_eq!(reg.claim_status(&a, 3, 77), Ok(ClaimStatusResult::Unclaimed));
    let retry = reg.claim_token(&a, 3, &a, 77, 1_000_000).unwrap();
    assert_eq!(reg.settle_claim(&retry, Ok(())), Ok(()));
    assert_eq!(reg.claim_status(&a, 3, 77), Ok(ClaimStatusResult::Claimed));
}

#[test]
fn second_creation_collides() {
    let a = addr(1);
    let mut reg = registry_with(&a, 9);
    assert_eq!(full_claim(&mut reg, &a, 9, &a, 1, 10), Ok(()));
    let address = reg.records[0].address;
    assert_eq!(reg.create_token_claims(&a, 9, &program()), Err(TokenClaimError::CollisionOnCreate));
    assert_eq!(reg.records.len(), 1);
    assert_eq!(reg.records[0].address, address);
    assert_eq!(reg.claim_status(&a, 9, 1), Ok(ClaimStatusResult::Claimed));
    assert!(reg.create_token_claims(&a, 10, &program()).is_ok());
    assert!(reg.create_token_claims(&addr(2), 9, &program()).is_ok());
    assert_eq!(reg.records.len(), 3);
}

#[test]
fn campaigns_are_independent() {
    let a = addr(1);
    let mut reg = registry_with(&a, 1);
    reg.create_token_claims(&a, 2, &program()).unwrap();
    assert_eq!(full_claim(&mut reg, &a, 1, &a, 4, 10), Ok(()));
    assert_eq!(reg.claim_status(&a, 2, 4), Ok(ClaimStatusResult::Unclaimed));
    assert_eq!(full_claim(&mut reg, &a, 2, &a, 4, 10), Ok(()));
}

#[test]
fn unknown_record_is_refused() {
    let a = addr(1);
    let mut reg = registry_with(&a, 1);
    assert_eq!(reg.claim_status(&a, 2, 0), Err(TokenClaimError::UnknownRecord));
    assert!(matches!(reg.claim_token(&addr(3), 1, &addr(3), 0, 1), Err(TokenClaimError::UnknownRecord)));
    let mut other = registry_with(&addr(3), 1);
    let order = other.claim_token(&addr(3), 1, &addr(3), 0, 1).unwrap();
    assert_eq!(reg.settle_claim(&order, Ok(())), Err(TokenClaimError::UnknownRecord));
    assert_eq!(other.settle_claim(&order, Ok(())), Ok(()));
}

#[test]
fn bitmap_bit_layout() {
    let mut rec = TokenClaims::new(addr(5), addr(1), 254, 7);
    assert_eq!(rec.bitmap.len(), BITMAP_BYTES);
    assert_eq!(rec.set_nonce_claimed(9), Ok(()));
    assert_eq!(rec.bitmap[1], 2);
    assert_eq!(rec.set_nonce_claimed(9), Ok(()));
    assert_eq!(rec.bitmap[1], 2);
    assert_eq!(rec.set_nonce_claimed(15), Ok(()));
    assert_eq!(rec.bitmap[1], 0x82);
    assert_eq!(rec.set_nonce_claimed(8192), Err(TokenClaimError::NonceOutOfRange));
    assert_eq!(rec.is_nonce_claimed(9), Ok(true));
    assert_eq!(rec.is_nonce_claimed(10), Ok(false));
    assert_eq!(rec.is_nonce_claimed(u64::MAX), Err(TokenClaimError::NonceOutOfRange));
    assert_eq!(claim_status(&rec, 15), Ok(ClaimStatusResult::Claimed));
}

#[test]
fn record_level_claim() {
    let a = addr(1);
    let mut rec = TokenClaims::new(addr(5), a, 251, 7);
    let order = claim_token(&rec, &a, 100, 55).unwrap();
    assert_eq!(order.escrow_authority, addr(5));
    assert_eq!(order.authority, a);
    assert_eq!((order.campaign_id, order.nonce, order.amount), (7, 100, 55));
    assert_eq!(order.signer_seeds, signer_seeds_of(7, &a, 251));
    assert_eq!(settle_claim(&mut rec, &order, Err(TransferFailure::DecimalsMismatch)), Err(TokenClaimError::TransferFailed(TransferFailure::DecimalsMismatch)));
    assert_eq!(rec.is_nonce_claimed(100), Ok(false));
    assert_eq!(settle_claim(&mut rec, &order, Ok(())), Ok(()));
    assert_eq!(rec.is_nonce_claimed(100), Ok(true));
    assert_eq!(settle_claim(&mut rec, &order, Ok(())), Err(TokenClaimError::NonceAlreadyClaimed));
    assert!(matches!(claim_token(&rec, &a, 100, 1), Err(TokenClaimError::NonceAlreadyClaimed)));
    assert!(matches!(claim_token(&rec, &addr(9), 101, 1), Err(TokenClaimError::Unauthorized)));
}

#[test]
fn seeds_match_the_layout() {
    assert_eq!(seed_prefix_bytes(), b"token_claims".to_vec());
    assert_eq!(le_bytes_of(0x0102_0304_0506_0708), vec![8, 7, 6, 5, 4, 3, 2, 1]);
    assert_eq!(le_bytes_of(7), 7u64.to_le_bytes().to_vec());
    let a = addr(1);
    let seeds = signer_seeds_of(7, &a, 253);
    assert_eq!(seeds, vec![b"token_claims".to_vec(), 7u64.to_le_bytes().to_vec(), vec![1u8; 32], vec![253u8]]);
    assert_eq!(record_seeds_of(7, &a), seeds[..3].to_vec());
}

#[test]
fn derived_address_matches_program_address_search() {
    let a = addr(1);
    let pid = program();
    let (address, bump) = derive_record_address(7, &a, &pid).unwrap();
    let expected = Pubkey::find_program_address(
        &[b"token_claims", &7u64.to_le_bytes(), &[1u8; 32]],
        &Pubkey::new_from_array([200u8; 32]),
    );
    assert_eq!(address.bytes, expected.0.to_bytes());
    assert_eq!(bump, expected.1);
    assert!(address != pid);
    assert!(address != a);
    let again = Pubkey::create_program_address(
        &[b"token_claims", &7u64.to_le_bytes(), &[1u8; 32], &[bump]],
        &Pubkey::new_from_array([200u8; 32]),
    )
    .unwrap();
    assert_eq!(again.to_bytes(), address.bytes);
    let mut reg = Registry::new();
    assert_eq!(reg.create_token_claims(&a, 7, &pid), Ok(address));
    assert_eq!(reg.records[0].bump, bump);
    let order = reg.claim_token(&a, 7, &a, 0, 1).unwrap();
    assert_eq!(order.escrow_authority, address);
}

#[test]
fn error_messages() {
    assert_eq!(TokenClaimError::NonceAlreadyClaimed.message(), "Nonce Claimed: Token already claimed");
    assert_eq!(TokenClaimError::Unauthorized.message(), "Unauthorized: User is not the authority");
    assert!(TokenClaimError::TransferFailed(TransferFailure::Other).message().starts_with("Transfer failed"));
}
