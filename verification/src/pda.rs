use vstd::prelude::*;

verus! {

/// The program-derived address and bump seed that the runtime's address
/// derivation yields for the given seeds and program id, or `None` when no
/// viable bump seed exists. The derivation is a pure function of its
/// arguments.
pub uninterp spec fn pda_of(seeds: Seq<Seq<u8>>, program_id: Seq<u8>) -> Option<(Seq<u8>, u8)>;

/// The abstract value of a concrete derivation result.
pub open spec fn pda_view(r: Option<([u8; 32], u8)>) -> Option<(Seq<u8>, u8)> {
    match r {
        Some(p) => Some((p.0@, p.1)),
        None => None,
    }
}

/// Relies on Pubkey::try_find_program_address: the derived address and bump
/// seed depend on the seeds and the program id alone; `None` comes back when
/// the seeds exceed the runtime's limits or no bump seed yields a valid
/// address.
#[verifier::external_body]
fn try_find_pda(seeds: &Vec<Vec<u8>>, program_id: &[u8; 32]) -> (r: Option<([u8; 32], u8)>)
    ensures
        pda_view(r) == pda_of(seeds.deep_view(), program_id@),
{
    let refs: Vec<&[u8]> = seeds.iter().map(|s| s.as_slice()).collect();
    let pid = anchor_lang::prelude::Pubkey::new_from_array(*program_id);
    anchor_lang::prelude::Pubkey::try_find_program_address(&refs, &pid).map(
        |(key, bump_seed)| (key.to_bytes(), bump_seed),
    )
}

/// The bump seed of the program-derived address for the given seeds, or
/// `None` when the derivation finds no viable bump seed.
pub fn bump(seeds: &Vec<Vec<u8>>, program_id: &[u8; 32]) -> (r: Option<u8>)
    ensures
        r == match pda_of(seeds.deep_view(), program_id@) {
            Some(p) => Some(p.1),
            None => None::<u8>,
        },
{
    match try_find_pda(seeds, program_id) {
        Some(p) => Some(p.1),
        None => None,
    }
}

/// The derived address itself for the given seeds, or `None` when the
/// derivation finds no viable bump seed.
pub fn derived_address(seeds: &Vec<Vec<u8>>, program_id: &[u8; 32]) -> (r: Option<[u8; 32]>)
    ensures
        match pda_of(seeds.deep_view(), program_id@) {
            Some(p) => r is Some && r->0@ == p.0,
            None => r is None,
        },
{
    match try_find_pda(seeds, program_id) {
        Some(p) => Some(p.0),
        None => None,
    }
}

} // verus!
