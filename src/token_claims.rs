use vstd::prelude::*;

use crate::address::Address;
use crate::errors::TokenClaimError;

verus! {

/// Bytes in a record's nonce bitmap.
pub const BITMAP_BYTES: usize = 1024;

/// Nonces a record can hold: eight per bitmap byte.
pub const NONCE_CAPACITY: u64 = 8192;

/// Whether bit `bit` of `byte` is set.
pub open spec fn bit_set(byte: u8, bit: u8) -> bool {
    byte & (1u8 << bit) != 0
}

/// The abstract state of a claims record.
pub ghost struct RecordView {
    /// The record's derived address, which signs for its escrow.
    pub address: Seq<u8>,
    /// The identity allowed to claim against the record.
    pub authority: Seq<u8>,
    pub campaign_id: u64,
    /// The canonical bump that completes the address derivation.
    pub bump: u8,
    /// The nonces claimed so far.
    pub claimed: Set<u64>,
}

/// The claims record of one (authority, campaign) pair.
#[derive(Debug)]
pub struct TokenClaims {
    pub address: Address,
    pub authority: Address,
    pub bitmap: Vec<u8>,
    pub bump: u8,
    pub campaign_id: u64,
}

impl View for TokenClaims {
    type V = RecordView;

    open spec fn view(&self) -> RecordView {
        RecordView {
            address: self.address.bytes@,
            authority: self.authority.bytes@,
            campaign_id: self.campaign_id,
            bump: self.bump,
            claimed: Set::new(|n: u64| self.holds(n)),
        }
    }
}

impl TokenClaims {
    /// The bitmap has its fixed size.
    pub open spec fn wf(&self) -> bool {
        self.bitmap@.len() == BITMAP_BYTES
    }

    /// Whether the bitmap marks `nonce` as claimed.
    pub open spec fn holds(&self, nonce: u64) -> bool {
        &&& nonce < NONCE_CAPACITY
        &&& bit_set(self.bitmap@[(nonce / 8) as int], (nonce % 8) as u8)
    }

    /// A record with nothing claimed.
    pub fn new(address: Address, authority: Address, bump: u8, campaign_id: u64) -> (r: TokenClaims)
        ensures
            r.wf(),
            r@.address == address.bytes@,
            r@.authority == authority.bytes@,
            r@.campaign_id == campaign_id,
            r@.bump == bump,
            r@.claimed == Set::<u64>::empty(),
    {
        let mut bitmap: Vec<u8> = Vec::new();
        let mut i: usize = 0;
        while i < BITMAP_BYTES
            invariant
                i <= BITMAP_BYTES,
                bitmap@.len() == i,
                forall|j: int| 0 <= j < i ==> bitmap@[j] == 0u8,
            decreases BITMAP_BYTES - i,
        {
            bitmap.push(0u8);
            i = i + 1;
        }
        let r = TokenClaims { address, authority, bitmap, bump, campaign_id };
        assert forall|n: u64| !r.holds(n) by {
            if n < NONCE_CAPACITY {
                let b = (n % 8) as u8;
                assert(r.bitmap@[(n / 8) as int] == 0u8);
                assert(b < 8 ==> 0u8 & (1u8 << b) == 0u8) by (bit_vector);
            }
        }
        assert(r@.claimed =~= Set::<u64>::empty());
        r
    }

    /// Whether `nonce` is claimed; a nonce beyond the capacity is refused.
    pub fn is_nonce_claimed(&self, nonce: u64) -> (r: Result<bool, TokenClaimError>)
        requires
            self.wf(),
        ensures
            nonce >= NONCE_CAPACITY ==> r == Err::<bool, TokenClaimError>(
                TokenClaimError::NonceOutOfRange,
            ),
            nonce < NONCE_CAPACITY ==> r == Ok::<bool, TokenClaimError>(
                self@.claimed.contains(nonce),
            ),
    {
        if nonce >= NONCE_CAPACITY {
            return Err(TokenClaimError::NonceOutOfRange);
        }
        let index = (nonce / 8) as usize;
        let bit = (nonce % 8) as u8;
        let byte = self.bitmap[index];
        Ok(byte & (1u8 << bit) != 0)
    }

    /// Marks `nonce` as claimed; a nonce beyond the capacity is refused and
    /// leaves the record as it was.
    pub fn set_nonce_claimed(&mut self, nonce: u64) -> (r: Result<(), TokenClaimError>)
        requires
            old(self).wf(),
        ensures
            final(self).wf(),
            nonce >= NONCE_CAPACITY ==> r == Err::<(), TokenClaimError>(
                TokenClaimError::NonceOutOfRange,
            ) && final(self)@ == old(self)@,
            nonce < NONCE_CAPACITY ==> r == Ok::<(), TokenClaimError>(())
                && final(self)@ == (RecordView {
                claimed: old(self)@.claimed.insert(nonce),
                ..old(self)@
            }),
    {
        if nonce >= NONCE_CAPACITY {
            return Err(TokenClaimError::NonceOutOfRange);
        }
        let index = (nonce / 8) as usize;
        let bit = (nonce % 8) as u8;
        let byte = self.bitmap[index];
        let ghost before = *self;
        self.bitmap.set(index, byte | (1u8 << bit));
        assert forall|n: u64|
            #[trigger] self@.claimed.contains(n) == before@.claimed.insert(nonce).contains(n) by {
            if n < NONCE_CAPACITY {
                let j = (n % 8) as u8;
                if n / 8 == nonce / 8 {
                    assert(bit < 8 && j < 8 ==> (bit_set(byte | (1u8 << bit), j) == (bit == j
                        || bit_set(byte, j)))) by (bit_vector);
                    assert(n == nonce <==> j == bit);
                } else {
                    assert(self.bitmap@[(n / 8) as int] == before.bitmap@[(n / 8) as int]);
                }
            }
        }
        assert(self@.claimed =~= before@.claimed.insert(nonce));
        Ok(())
    }
}

} // verus!
