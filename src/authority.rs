use crate::address::Address;
use vstd::prelude::*;

verus! {

/// The seed from which the orchestrator's signing authority is derived: the
/// ASCII bytes of "flashloan-seed".
pub open spec fn authority_seed_bytes() -> Seq<u8> {
    seq![102u8, 108u8, 97u8, 115u8, 104u8, 108u8, 111u8, 97u8, 110u8, 45u8, 115u8, 101u8, 101u8, 100u8]
}

pub fn authority_seed() -> (r: Vec<u8>)
    ensures
        r@ == authority_seed_bytes(),
{
    let r: Vec<u8> = vec![102u8, 108u8, 97u8, 115u8, 104u8, 108u8, 111u8, 97u8, 110u8, 45u8, 115u8, 101u8, 101u8, 100u8];
    assert(r@ =~= authority_seed_bytes());
    r
}

/// The (address, bump) pair that the ledger's bump search finds for a single
/// seed under a program, or `None` when no bump yields an off-curve address.
pub uninterp spec fn program_address_search(seed: Seq<u8>, program: Seq<u8>) -> Option<(Seq<u8>, u8)>;

/// A signing authority: an address with no private key, derived from a public
/// seed and a bump under this program's identity. The ledger accepts a call
/// signed "as" this address when the seed and bump re-derive it.
#[derive(Debug)]
pub struct SigningAuthority {
    pub seed: Vec<u8>,
    pub address: Address,
    pub bump: u8,
}

/// `r` is what deriving from `seed` under `program` gives: the authority at
/// the address and bump that the search finds, or nothing where it finds none.
pub open spec fn derived_by(r: Option<SigningAuthority>, seed: Seq<u8>, program: Seq<u8>) -> bool {
    match program_address_search(seed, program) {
        Some((a, b)) => r matches Some(auth) && auth.seed@ == seed && auth.address@ == a && auth.bump
            == b,
        None => r is None,
    }
}

/// Relies on solana_program's `Pubkey::try_find_program_address`: a bump search
/// from 255 downward whose outcome depends on the seed and program alone, and
/// which finds nothing for a seed longer than 32 bytes.
#[verifier::external_body]
fn find_program_address(seed: &[u8], program: &Address) -> (r: Option<(Address, u8)>)
    ensures
        match program_address_search(seed@, program@) {
            Some((a, b)) => r matches Some((ra, rb)) && ra@ == a && rb == b,
            None => r is None,
        },
        seed@.len() > 32 ==> r is None,
{
    let program_id = solana_program::pubkey::Pubkey::new_from_array(program.bytes);
    solana_program::pubkey::Pubkey::try_find_program_address(&[seed], &program_id).map(
        |(key, bump)| (Address { bytes: key.to_bytes() }, bump),
    )
}

/// Derives the signing authority for `seed` under `program`.
pub fn derive_authority(seed: Vec<u8>, program: &Address) -> (r: Option<SigningAuthority>)
    ensures
        derived_by(r, seed@, program@),
{
    match find_program_address(seed.as_slice(), program) {
        Some((address, bump)) => Some(SigningAuthority { seed, address, bump }),
        None => None,
    }
}

/// Derivation is deterministic: two derivations from the same seed under the
/// same program identity yield the same address and bump.
pub proof fn lemma_derivation_deterministic(
    seed: Seq<u8>,
    program: Seq<u8>,
    first: Option<SigningAuthority>,
    second: Option<SigningAuthority>,
)
    requires
        derived_by(first, seed, program),
        derived_by(second, seed, program),
    ensures
        first is Some <==> second is Some,
        first matches Some(a1) ==> (second matches Some(a2) && a1.address@ == a2.address@ && a1.bump
            == a2.bump),
{
}

} // verus!
