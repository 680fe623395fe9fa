use vstd::prelude::*;

use crate::pubkey::Pubkey;

verus! {

/// What the runtime's program-address derivation returns for the given
/// seed slices and owning program: the derived storage address together
/// with its disambiguation byte, or nothing when the search over
/// disambiguation bytes is exhausted.
pub uninterp spec fn derivation_of(seeds: Seq<Seq<u8>>, program_id: Seq<u8>) -> Option<
    (Seq<u8>, u8),
>;

/// The byte sequences held by a list of seed slices.
pub open spec fn seeds_view(seeds: Seq<Vec<u8>>) -> Seq<Seq<u8>> {
    seeds.map_values(|s: Vec<u8>| s@)
}

/// How an executable derivation result corresponds to the named one.
pub open spec fn derivation_matches(r: Option<(Pubkey, u8)>, d: Option<(Seq<u8>, u8)>) -> bool {
    match r {
        None => d is None,
        Some(p) => d == Some((p.0@, p.1)),
    }
}

/// Relies on `solana_program::pubkey::Pubkey::try_find_program_address`:
/// it hashes the seeds, the owning program and a disambiguation byte,
/// searched from high to low, into a storage address that only that
/// program can authorize writes to.  Its result depends on the seed bytes
/// and the program identity alone, and it returns `None` rather than
/// fail when no disambiguation byte works out.
#[verifier::external_body]
pub(crate) fn try_find_program_address(seeds: &Vec<Vec<u8>>, program_id: &Pubkey) -> (r: Option<
    (Pubkey, u8),
>)
    ensures
        derivation_matches(r, derivation_of(seeds_view(seeds@), program_id@)),
{
    let seed_slices: Vec<&[u8]> = seeds.iter().map(|s| s.as_slice()).collect();
    let program = solana_program::pubkey::Pubkey::new_from_array(program_id.0);
    solana_program::pubkey::Pubkey::try_find_program_address(&seed_slices, &program).map(
        |found: (solana_program::pubkey::Pubkey, u8)| (Pubkey(found.0.to_bytes()), found.1),
    )
}

} // verus!
