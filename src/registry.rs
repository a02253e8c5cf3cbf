use vstd::prelude::*;

use crate::address::Address;
use crate::claim::{claim_outcome, claim_check, claim_status, claim_token, settle_claim, ClaimStatusResult, TransferOrder};
use crate::derive::{derive_record_address, program_address, record_seeds};
use crate::errors::{TokenClaimError, TransferFailure};
use crate::token_claims::{RecordView, TokenClaims, NONCE_CAPACITY};

verus! {

/// The key of a record: its authority and its campaign.
pub open spec fn key_of(rec: RecordView) -> (Seq<u8>, u64) {
    (rec.authority, rec.campaign_id)
}

/// The records of a list, by key; a later record shadows an earlier one.
pub open spec fn records_map(s: Seq<TokenClaims>) -> Map<(Seq<u8>, u64), RecordView>
    decreases s.len(),
{
    if s.len() == 0 {
        Map::empty()
    } else {
        records_map(s.drop_last()).insert(key_of(s.last()@), s.last()@)
    }
}

/// A fresh record: nothing claimed yet.
pub open spec fn fresh_record(address: Seq<u8>, authority: Seq<u8>, campaign_id: u64, bump: u8) -> RecordView {
    RecordView { address, authority, campaign_id, bump, claimed: Set::empty() }
}

/// The registry after a creation for `authority` and `campaign_id` under
/// `program_id`, and the address created. A pair that has a record already is
/// refused, and so is one for which the address search finds no bump.
pub open spec fn create_outcome(
    reg: Map<(Seq<u8>, u64), RecordView>,
    authority: Seq<u8>,
    campaign_id: u64,
    program_id: Seq<u8>,
) -> (Map<(Seq<u8>, u64), RecordView>, Result<Seq<u8>, TokenClaimError>) {
    if reg.contains_key((authority, campaign_id)) {
        (reg, Err(TokenClaimError::CollisionOnCreate))
    } else {
        match program_address(record_seeds(campaign_id, authority), program_id) {
            None => (reg, Err(TokenClaimError::AddressDerivationFailed)),
            Some((address, bump)) => (
                reg.insert((authority, campaign_id), fresh_record(address, authority, campaign_id, bump)),
                Ok(address),
            ),
        }
    }
}

/// The registry after a whole claim on the record of `authority` and
/// `campaign_id`, and what the claim reports.
pub open spec fn registry_claim_outcome(
    reg: Map<(Seq<u8>, u64), RecordView>,
    authority: Seq<u8>,
    campaign_id: u64,
    invoker: Seq<u8>,
    nonce: u64,
    transfer: Result<(), TransferFailure>,
) -> (Map<(Seq<u8>, u64), RecordView>, Result<(), TokenClaimError>) {
    if !reg.contains_key((authority, campaign_id)) {
        (reg, Err(TokenClaimError::UnknownRecord))
    } else {
        let (rec, r) = claim_outcome(reg[(authority, campaign_id)], invoker, nonce, transfer);
        (reg.insert((authority, campaign_id), rec), r)
    }
}

/// All claims records, at most one per (authority, campaign) pair.
#[derive(Debug)]
pub struct Registry {
    pub records: Vec<TokenClaims>,
}

impl View for Registry {
    type V = Map<(Seq<u8>, u64), RecordView>;

    open spec fn view(&self) -> Map<(Seq<u8>, u64), RecordView> {
        records_map(self.records@)
    }
}

/// Every record of the list has its key in the map.
proof fn lemma_records_map_contains(s: Seq<TokenClaims>, i: int)
    requires
        0 <= i < s.len(),
    ensures
        records_map(s).contains_key(key_of(s[i]@)),
    decreases s.len(),
{
    if i < s.len() - 1 {
        lemma_records_map_contains(s.drop_last(), i);
    }
}

/// A key is in the map only where a record of the list has it.
proof fn lemma_records_map_keys(s: Seq<TokenClaims>, k: (Seq<u8>, u64))
    requires
        records_map(s).contains_key(k),
    ensures
        exists|i: int| 0 <= i < s.len() && key_of(#[trigger] s[i]@) == k,
    decreases s.len(),
{
    if key_of(s.last()@) != k {
        lemma_records_map_keys(s.drop_last(), k);
        let i = choose|i: int| 0 <= i < s.drop_last().len() && key_of(#[trigger] s.drop_last()[i]@) == k;
        assert(s[i] == s.drop_last()[i]);
    }
}

/// With unique keys, the map gives each record under its key.
proof fn lemma_records_map_get(s: Seq<TokenClaims>, i: int)
    requires
        0 <= i < s.len(),
        Registry::unique_keys(s),
    ensures
        records_map(s)[key_of(s[i]@)] == s[i]@,
    decreases s.len(),
{
    if i < s.len() - 1 {
        lemma_records_map_get(s.drop_last(), i);
    }
}

/// With unique keys, replacing a record by one with the same key replaces it in the map.
proof fn lemma_records_map_update(s: Seq<TokenClaims>, i: int, t: TokenClaims)
    requires
        0 <= i < s.len(),
        Registry::unique_keys(s),
        key_of(t@) == key_of(s[i]@),
    ensures
        records_map(s.update(i, t)) == records_map(s).insert(key_of(t@), t@),
    decreases s.len(),
{
    let u = s.update(i, t);
    if i == s.len() - 1 {
        assert(u.drop_last() =~= s.drop_last());
        assert(records_map(u) =~= records_map(s).insert(key_of(t@), t@));
    } else {
        assert(u.drop_last() =~= s.drop_last().update(i, t));
        lemma_records_map_update(s.drop_last(), i, t);
        assert(key_of(s.last()@) != key_of(t@));
        assert(records_map(u) =~= records_map(s).insert(key_of(t@), t@));
    }
}

impl Registry {
    /// No two records share a key.
    pub open spec fn unique_keys(s: Seq<TokenClaims>) -> bool {
        forall|i: int, j: int|
            0 <= i < s.len() && 0 <= j < s.len() && i != j ==> key_of(#[trigger] s[i]@) != key_of(#[trigger] s[j]@)
    }

    /// Every record is well formed and no two share a key.
    pub open spec fn wf(&self) -> bool {
        &&& forall|i: int| 0 <= i < self.records@.len() ==> (#[trigger] self.records@[i]).wf()
        &&& Self::unique_keys(self.records@)
    }

    /// A registry with no records.
    pub fn new() -> (r: Registry)
        ensures
            r.wf(),
            r@ == Map::<(Seq<u8>, u64), RecordView>::empty(),
    {
        Registry { records: Vec::new() }
    }

    /// The position of the record of `authority` for `campaign_id`, if any.
    pub fn find(&self, authority: &Address, campaign_id: u64) -> (r: Option<usize>)
        requires
            self.wf(),
        ensures
            match r {
                Some(i) => i < self.records@.len() && key_of(self.records@[i as int]@) == (authority.bytes@, campaign_id)
                    && self@.contains_key((authority.bytes@, campaign_id))
                    && self@[(authority.bytes@, campaign_id)] == self.records@[i as int]@,
                None => !self@.contains_key((authority.bytes@, campaign_id)),
            },
    {
        let mut i: usize = 0;
        while i < self.records.len()
            invariant
                self.wf(),
                i <= self.records@.len(),
                forall|j: int| 0 <= j < i ==> key_of(#[trigger] self.records@[j]@) != (authority.bytes@, campaign_id),
            decreases self.records@.len() - i,
        {
            let rec = &self.records[i];
            if rec.campaign_id == campaign_id && rec.authority.same_as(authority) {
                proof {
                    lemma_records_map_contains(self.records@, i as int);
                    lemma_records_map_get(self.records@, i as int);
                }
                return Some(i);
            }
            i = i + 1;
        }
        proof {
            if self@.contains_key((authority.bytes@, campaign_id)) {
                lemma_records_map_keys(self.records@, (authority.bytes@, campaign_id));
            }
        }
        None
    }

    /// Provisions the record of `authority` for `campaign_id` under
    /// `program_id`, with nothing claimed, and returns its derived address.
    /// A pair that has a record already is refused and left as it was.
    pub fn create_token_claims(&mut self, authority: &Address, campaign_id: u64, program_id: &Address) -> (r: Result<Address, TokenClaimError>)
        requires
            old(self).wf(),
        ensures
            final(self).wf(),
            final(self)@ == create_outcome(old(self)@, authority.bytes@, campaign_id, program_id.bytes@).0,
            match r {
                Ok(a) => create_outcome(old(self)@, authority.bytes@, campaign_id, program_id.bytes@).1 == Ok::<Seq<u8>, TokenClaimError>(a.bytes@),
                Err(e) => create_outcome(old(self)@, authority.bytes@, campaign_id, program_id.bytes@).1 == Err::<Seq<u8>, TokenClaimError>(e),
            },
    {
        if self.find(authority, campaign_id).is_some() {
            return Err(TokenClaimError::CollisionOnCreate);
        }
        match derive_record_address(campaign_id, authority, program_id) {
            None => Err(TokenClaimError::AddressDerivationFailed),
            Some((address, bump)) => {
                let rec = TokenClaims::new(address, *authority, bump, campaign_id);
                let ghost before = self.records@;
                self.records.push(rec);
                proof {
                    assert(self.records@.drop_last() == before);
                    assert forall|i: int| 0 <= i < before.len() implies key_of(#[trigger] before[i]@) != key_of(rec@) by {
                        lemma_records_map_contains(before, i);
                    }
                    assert(rec@ =~= fresh_record(address.bytes@, authority.bytes@, campaign_id, bump));
                }
                Ok(address)
            },
        }
    }

    /// Whether `nonce` is claimed in the record of `authority` for `campaign_id`.
    pub fn claim_status(&self, authority: &Address, campaign_id: u64, nonce: u64) -> (r: Result<ClaimStatusResult, TokenClaimError>)
        requires
            self.wf(),
        ensures
            !self@.contains_key((authority.bytes@, campaign_id)) ==> r == Err::<ClaimStatusResult, TokenClaimError>(TokenClaimError::UnknownRecord),
            self@.contains_key((authority.bytes@, campaign_id)) ==> {
                let rec = self@[(authority.bytes@, campaign_id)];
                &&& nonce >= NONCE_CAPACITY ==> r == Err::<ClaimStatusResult, TokenClaimError>(TokenClaimError::NonceOutOfRange)
                &&& nonce < NONCE_CAPACITY && rec.claimed.contains(nonce) ==> r == Ok::<ClaimStatusResult, TokenClaimError>(ClaimStatusResult::Claimed)
                &&& nonce < NONCE_CAPACITY && !rec.claimed.contains(nonce) ==> r == Ok::<ClaimStatusResult, TokenClaimError>(ClaimStatusResult::Unclaimed)
            },
    {
        match self.find(authority, campaign_id) {
            None => Err(TokenClaimError::UnknownRecord),
            Some(i) => claim_status(&self.records[i], nonce),
        }
    }

    /// First half of a claim by `invoker` on the record of `authority` for
    /// `campaign_id`: the checks, and the transfer to perform. Nothing is written.
    pub fn claim_token(
        &self,
        authority: &Address,
        campaign_id: u64,
        invoker: &Address,
        nonce: u64,
        amount: u64,
    ) -> (r: Result<TransferOrder, TokenClaimError>)
        requires
            self.wf(),
        ensures
            !self@.contains_key((authority.bytes@, campaign_id)) ==> r == Err::<TransferOrder, TokenClaimError>(TokenClaimError::UnknownRecord),
            self@.contains_key((authority.bytes@, campaign_id)) ==> {
                let rec = self@[(authority.bytes@, campaign_id)];
                match r {
                    Ok(order) => claim_check(rec, invoker.bytes@, nonce) == Ok::<(), TokenClaimError>(())
                        && order.describes(rec, nonce, amount),
                    Err(e) => claim_check(rec, invoker.bytes@, nonce) == Err::<(), TokenClaimError>(e),
                }
            },
    {
        match self.find(authority, campaign_id) {
            None => Err(TokenClaimError::UnknownRecord),
            Some(i) => claim_token(&self.records[i], invoker, nonce, amount),
        }
    }

    /// Second half of a claim: records the ledger's answer to `order` on the
    /// record that the order names.
    pub fn settle_claim(&mut self, order: &TransferOrder, transfer: Result<(), TransferFailure>) -> (r: Result<(), TokenClaimError>)
        requires
            old(self).wf(),
        ensures
            final(self).wf(),
            (final(self)@, r) == registry_claim_outcome(
                old(self)@,
                order.authority.bytes@,
                order.campaign_id,
                order.authority.bytes@,
                order.nonce,
                transfer,
            ),
    {
        match self.find(&order.authority, order.campaign_id) {
            None => Err(TokenClaimError::UnknownRecord),
            Some(i) => {
                let ghost before = self.records@;
                let r = settle_claim(&mut self.records[i], order, transfer);
                proof {
                    assert(self.records@ == before.update(i as int, self.records@[i as int]));
                    lemma_records_map_update(before, i as int, self.records@[i as int]);
                    assert forall|j: int, k: int|
                        0 <= j < self.records@.len() && 0 <= k < self.records@.len() && j != k
                        implies key_of(#[trigger] self.records@[j]@) != key_of(#[trigger] self.records@[k]@) by {
                        assert(key_of(self.records@[i as int]@) == key_of(before[i as int]@));
                        assert(key_of(self.records@[j]@) == key_of(before[j]@));
                        assert(key_of(self.records@[k]@) == key_of(before[k]@));
                    }
                }
                r
            },
        }
    }
}

} // verus!
