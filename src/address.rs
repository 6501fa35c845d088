use vstd::prelude::*;

use anchor_lang::prelude::Pubkey;

verus! {

/// A 32-byte account address.
#[derive(Clone, Copy, Debug, PartialEq, Eq)]
pub struct Address {
    pub bytes: [u8; 32],
}

impl View for Address {
    type V = Seq<u8>;

    open spec fn view(&self) -> Seq<u8> {
        self.bytes@
    }
}

/// What the external derivation returns for a list of seeds under a program:
/// the first off-curve address found while the bump seed counts down from 255,
/// with that bump, or nothing.
pub uninterp spec fn program_derived(seeds: Seq<Seq<u8>>, program: Seq<u8>) -> Option<(Seq<u8>, u8)>;

/// The views of a list of seeds.
pub open spec fn seeds_view(seeds: Seq<Vec<u8>>) -> Seq<Seq<u8>> {
    seeds.map_values(|s: Vec<u8>| s@)
}

/// The derived address alone, without its bump seed.
pub open spec fn derived_address(seeds: Seq<Seq<u8>>, program: Seq<u8>) -> Option<Seq<u8>> {
    match program_derived(seeds, program) {
        Some((a, _)) => Some(a),
        None => None,
    }
}

/// The view of an optional address.
pub open spec fn opt_view(a: Option<Address>) -> Option<Seq<u8>> {
    match a {
        Some(x) => Some(x@),
        None => None,
    }
}

/// Relies on `Pubkey::try_find_program_address` of solana-program (re-exported
/// by anchor-lang): a function of the seeds and the program id alone.
#[verifier::external_body]
fn try_find_program_address(seeds: &Vec<Vec<u8>>, program: &Address) -> (r: Option<(Address, u8)>)
    ensures
        match r {
            Some((a, bump)) => program_derived(seeds_view(seeds@), program@) == Some((a@, bump)),
            None => program_derived(seeds_view(seeds@), program@) is None,
        },
{
    let refs: Vec<&[u8]> = seeds.iter().map(|s| s.as_slice()).collect();
    let program_id = Pubkey::new_from_array(program.bytes);
    Pubkey::try_find_program_address(&refs, &program_id).map(
        |(pk, bump)| (Address { bytes: pk.to_bytes() }, bump),
    )
}

/// Derives the program-owned address for `seeds` under `program`, dropping
/// the bump seed.
pub fn derive_address(seeds: &Vec<Vec<u8>>, program: &Address) -> (r: Option<Address>)
    ensures
        opt_view(r) == derived_address(seeds_view(seeds@), program@),
{
    match try_find_program_address(seeds, program) {
        Some((a, _)) => Some(a),
        None => None,
    }
}

/// The bytes of an address, as a seed.
pub fn address_seed(a: &Address) -> (r: Vec<u8>)
    ensures
        r@ == a@,
{
    let mut out: Vec<u8> = Vec::new();
    let mut i: usize = 0;
    while i < 32
        invariant
            i <= 32,
            out@ == a@.subrange(0, i as int),
        decreases 32 - i,
    {
        out.push(a.bytes[i]);
        i = i + 1;
    }
    assert(out@ =~= a@);
    out
}

} // verus!
