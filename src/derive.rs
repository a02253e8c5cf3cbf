use vstd::prelude::*;

use anchor_lang::prelude::Pubkey;

use crate::address::Address;

verus! {

/// The most seeds a derivation takes, its bump included.
pub const MAX_SEEDS: usize = 16;

/// The longest seed a derivation takes.
pub const MAX_SEED_LEN: usize = 32;

/// The address and canonical bump that a program address search finds for
/// `seeds` under `program_id`, or none where no bump gives an address off the curve.
pub uninterp spec fn program_address(seeds: Seq<Seq<u8>>, program_id: Seq<u8>) -> Option<(Seq<u8>, u8)>;

/// The fixed prefix of every record's seeds: the bytes of "token_claims".
pub open spec fn seed_prefix() -> Seq<u8> {
    seq![116u8, 111u8, 107u8, 101u8, 110u8, 95u8, 99u8, 108u8, 97u8, 105u8, 109u8, 115u8]
}

/// The little-endian bytes of `n`.
pub open spec fn le_bytes(n: u64) -> Seq<u8> {
    Seq::new(8, |i: int| ((n >> ((8 * i) as u64)) & 0xff) as u8)
}

/// The seeds from which a record's address is derived.
pub open spec fn record_seeds(campaign_id: u64, authority: Seq<u8>) -> Seq<Seq<u8>> {
    seq![seed_prefix(), le_bytes(campaign_id), authority]
}

/// The seeds with which a record signs for its escrow: its own seeds and its bump.
pub open spec fn signer_seeds(campaign_id: u64, authority: Seq<u8>, bump: u8) -> Seq<Seq<u8>> {
    record_seeds(campaign_id, authority).push(seq![bump])
}

/// The views of a list of seeds.
pub open spec fn seeds_view(seeds: Seq<Vec<u8>>) -> Seq<Seq<u8>> {
    seeds.map_values(|s: Vec<u8>| s@)
}

/// The bytes of "token_claims".
pub fn seed_prefix_bytes() -> (r: Vec<u8>)
    ensures
        r@ == seed_prefix(),
{
    let mut r: Vec<u8> = Vec::new();
    r.push(116u8);
    r.push(111u8);
    r.push(107u8);
    r.push(101u8);
    r.push(110u8);
    r.push(95u8);
    r.push(99u8);
    r.push(108u8);
    r.push(97u8);
    r.push(105u8);
    r.push(109u8);
    r.push(115u8);
    assert(r@ =~= seed_prefix());
    r
}

/// The eight little-endian bytes of `n`.
pub fn le_bytes_of(n: u64) -> (r: Vec<u8>)
    ensures
        r@ == le_bytes(n),
{
    let mut r: Vec<u8> = Vec::new();
    let mut i: u64 = 0;
    while i < 8
        invariant
            i <= 8,
            r@.len() == i,
            forall|j: int| 0 <= j < i ==> r@[j] == ((n >> ((8 * j) as u64)) & 0xff) as u8,
        decreases 8 - i,
    {
        r.push(((n >> (8 * i)) & 0xff) as u8);
        i = i + 1;
    }
    assert(r@ =~= le_bytes(n));
    r
}

/// The seeds of the record of `authority` for `campaign_id`.
pub fn record_seeds_of(campaign_id: u64, authority: &Address) -> (r: Vec<Vec<u8>>)
    ensures
        seeds_view(r@) == record_seeds(campaign_id, authority.bytes@),
{
    let mut r: Vec<Vec<u8>> = Vec::new();
    r.push(seed_prefix_bytes());
    r.push(le_bytes_of(campaign_id));
    r.push(authority.to_vec());
    assert(seeds_view(r@) =~= record_seeds(campaign_id, authority.bytes@));
    r
}

/// The seeds with which the record of `authority` for `campaign_id` signs,
/// given its bump.
pub fn signer_seeds_of(campaign_id: u64, authority: &Address, bump: u8) -> (r: Vec<Vec<u8>>)
    ensures
        seeds_view(r@) == signer_seeds(campaign_id, authority.bytes@, bump),
{
    let mut r = record_seeds_of(campaign_id, authority);
    let mut b: Vec<u8> = Vec::new();
    b.push(bump);
    let ghost before = r@;
    r.push(b);
    assert(seeds_view(r@) =~= seeds_view(before).push(seq![bump]));
    r
}

/// Relies on `Pubkey::try_find_program_address` of solana_program, reached
/// through anchor_lang: the search is a function of the seeds and the program
/// id alone. It returns `None` instead of panicking, which it does only when
/// no bump works; with fewer than `MAX_SEEDS` seeds of at most `MAX_SEED_LEN`
/// bytes each that is statistically improbable.
#[verifier::external_body]
fn try_find_program_address(seeds: &Vec<Vec<u8>>, program_id: &Address) -> (r: Option<(Address, u8)>)
    requires
        seeds@.len() < MAX_SEEDS,
        forall|i: int| 0 <= i < seeds@.len() ==> #[trigger] seeds@[i]@.len() <= MAX_SEED_LEN,
    ensures
        match r {
            Some((a, bump)) => program_address(seeds_view(seeds@), program_id.bytes@) == Some((a.bytes@, bump)),
            None => program_address(seeds_view(seeds@), program_id.bytes@) == None::<(Seq<u8>, u8)>,
        },
{
    let refs: Vec<&[u8]> = seeds.iter().map(|s| s.as_slice()).collect();
    let program = Pubkey::new_from_array(program_id.bytes);
    Pubkey::try_find_program_address(&refs, &program).map(|(key, bump)| (Address { bytes: key.to_bytes() }, bump))
}

/// The address and bump of the record of `authority` for `campaign_id` under
/// `program_id`, or none where the search finds no bump.
pub fn derive_record_address(campaign_id: u64, authority: &Address, program_id: &Address) -> (r: Option<(Address, u8)>)
    ensures
        match r {
            Some((a, bump)) => program_address(record_seeds(campaign_id, authority.bytes@), program_id.bytes@) == Some((a.bytes@, bump)),
            None => program_address(record_seeds(campaign_id, authority.bytes@), program_id.bytes@) == None::<(Seq<u8>, u8)>,
        },
{
    let seeds = record_seeds_of(campaign_id, authority);
    assert(seeds@.len() == seeds_view(seeds@).len());
    assert forall|i: int| 0 <= i < seeds@.len() implies #[trigger] seeds@[i]@.len() <= MAX_SEED_LEN by {
        assert(seeds@[i]@ == seeds_view(seeds@)[i]);
    }
    try_find_program_address(&seeds, program_id)
}

} // verus!
