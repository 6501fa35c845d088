use vstd::prelude::*;

use crate::address::{
    address_seed, derive_address, derived_address, opt_view, seeds_view, Address,
};

verus! {

/// The bytes of the all-zero address, the placeholder seed accounts of an obligation.
pub open spec fn zero_bytes() -> Seq<u8> {
    Seq::new(32, |i: int| 0u8)
}

/// `b"user_meta"`
pub open spec fn user_meta_prefix() -> Seq<u8> {
    seq![117u8, 115, 101, 114, 95, 109, 101, 116, 97]
}

/// `b"lma"`
pub open spec fn market_authority_prefix() -> Seq<u8> {
    seq![108u8, 109, 97]
}

/// `b"user"`
pub open spec fn obligation_farm_prefix() -> Seq<u8> {
    seq![117u8, 115, 101, 114]
}

/// The seeds of a user-metadata account.
pub open spec fn user_metadata_seeds(owner: Seq<u8>) -> Seq<Seq<u8>> {
    seq![user_meta_prefix(), owner]
}

/// The seeds of an obligation: tag, id, owner, market and two all-zero
/// seed accounts.
pub open spec fn obligation_seeds(tag: u8, id: u8, owner: Seq<u8>, market: Seq<u8>) -> Seq<Seq<u8>> {
    seq![seq![tag], seq![id], owner, market, zero_bytes(), zero_bytes()]
}

/// The seeds of a market's authority.
pub open spec fn market_authority_seeds(market: Seq<u8>) -> Seq<Seq<u8>> {
    seq![market_authority_prefix(), market]
}

/// The seeds of an obligation's farm account.
pub open spec fn obligation_farm_seeds(farm_state: Seq<u8>, obligation: Seq<u8>) -> Seq<Seq<u8>> {
    seq![obligation_farm_prefix(), farm_state, obligation]
}

/// The address of the user-metadata account of `owner`.
pub open spec fn user_metadata_spec(program: Seq<u8>, owner: Seq<u8>) -> Option<Seq<u8>> {
    derived_address(user_metadata_seeds(owner), program)
}

/// The address of the obligation `(tag, id)` of `owner` in `market`.
pub open spec fn obligation_spec(program: Seq<u8>, tag: u8, id: u8, owner: Seq<u8>, market: Seq<u8>) -> Option<Seq<u8>> {
    derived_address(obligation_seeds(tag, id, owner, market), program)
}

/// The address of the authority of `market`.
pub open spec fn market_authority_spec(program: Seq<u8>, market: Seq<u8>) -> Option<Seq<u8>> {
    derived_address(market_authority_seeds(market), program)
}

/// The address of the farm account of `obligation` in the farm `farm_state`.
pub open spec fn obligation_farm_spec(program: Seq<u8>, farm_state: Seq<u8>, obligation: Seq<u8>) -> Option<Seq<u8>> {
    derived_address(obligation_farm_seeds(farm_state, obligation), program)
}

/// The all-zero address.
pub open spec fn zero_address_spec() -> Address {
    Address { bytes: vstd::array::spec_array_fill_for_copy_type::<u8, 32>(0u8) }
}

/// The all-zero address.
pub fn zero_address() -> (r: Address)
    ensures
        r == zero_address_spec(),
        r@ == zero_bytes(),
{
    let r = Address { bytes: [0u8; 32] };
    assert(r@ =~= zero_bytes());
    r
}

/// Derives the user-metadata address of `owner`.
pub fn user_metadata_address(program: &Address, owner: &Address) -> (r: Option<Address>)
    ensures
        opt_view(r) == user_metadata_spec(program@, owner@),
{
    let mut seeds: Vec<Vec<u8>> = Vec::new();
    let prefix: Vec<u8> = vec![117u8, 115, 101, 114, 95, 109, 101, 116, 97];
    assert(prefix@ =~= user_meta_prefix());
    seeds.push(prefix);
    seeds.push(address_seed(owner));
    assert(seeds_view(seeds@) =~= user_metadata_seeds(owner@));
    derive_address(&seeds, program)
}

/// Derives the address of the obligation `(tag, id)` of `owner` in `market`.
pub fn obligation_address(program: &Address, tag: u8, id: u8, owner: &Address, market: &Address) -> (r: Option<Address>)
    ensures
        opt_view(r) == obligation_spec(program@, tag, id, owner@, market@),
{
    let placeholder = zero_address();
    let mut seeds: Vec<Vec<u8>> = Vec::new();
    let tag_seed: Vec<u8> = vec![tag];
    let id_seed: Vec<u8> = vec![id];
    assert(tag_seed@ =~= seq![tag]);
    assert(id_seed@ =~= seq![id]);
    seeds.push(tag_seed);
    seeds.push(id_seed);
    seeds.push(address_seed(owner));
    seeds.push(address_seed(market));
    seeds.push(address_seed(&placeholder));
    seeds.push(address_seed(&placeholder));
    assert(seeds_view(seeds@) =~= obligation_seeds(tag, id, owner@, market@));
    derive_address(&seeds, program)
}

/// Derives the authority address of `market`.
pub fn market_authority_address(program: &Address, market: &Address) -> (r: Option<Address>)
    ensures
        opt_view(r) == market_authority_spec(program@, market@),
{
    let mut seeds: Vec<Vec<u8>> = Vec::new();
    let prefix: Vec<u8> = vec![108u8, 109, 97];
    assert(prefix@ =~= market_authority_prefix());
    seeds.push(prefix);
    seeds.push(address_seed(market));
    assert(seeds_view(seeds@) =~= market_authority_seeds(market@));
    derive_address(&seeds, program)
}

/// Derives the farm-account address of `obligation` in the farm `farm_state`.
pub fn obligation_farm_address(program: &Address, farm_state: &Address, obligation: &Address) -> (r: Option<Address>)
    ensures
        opt_view(r) == obligation_farm_spec(program@, farm_state@, obligation@),
{
    let mut seeds: Vec<Vec<u8>> = Vec::new();
    let prefix: Vec<u8> = vec![117u8, 115, 101, 114];
    assert(prefix@ =~= obligation_farm_prefix());
    seeds.push(prefix);
    seeds.push(address_seed(farm_state));
    seeds.push(address_seed(obligation));
    assert(seeds_view(seeds@) =~= obligation_farm_seeds(farm_state@, obligation@));
    derive_address(&seeds, program)
}

/// Deriving an obligation address is deterministic: two derivations from the
/// same `(tag, id, owner, market)` under one program give the same address.
pub proof fn lemma_obligation_address_deterministic(
    program: Address,
    tag: u8,
    id: u8,
    owner: Address,
    market: Address,
    first: Option<Address>,
    second: Option<Address>,
)
    requires
        opt_view(first) == obligation_spec(program@, tag, id, owner@, market@),
        opt_view(second) == obligation_spec(program@, tag, id, owner@, market@),
    ensures
        first == second,
{
    if let (Some(a), Some(b)) = (first, second) {
        assert(a.bytes@ == b.bytes@);
        assert forall|i: int| 0 <= i < 32 implies a.bytes[i] == b.bytes[i] by {
            assert(a.bytes@[i] == b.bytes@[i]);
        }
        assert(a.bytes =~= b.bytes);
    }
}

} // verus!
