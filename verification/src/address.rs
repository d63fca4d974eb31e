use vstd::prelude::*;

use crate::state::Identity;

verus! {

/// The address and discriminator that the host's derivation returns for a
/// seed, an owner identity and a program identity, or `None` where no
/// discriminator yields a usable address. The result is a function of the
/// three inputs alone: the derivation is a pure hash computation.
pub uninterp spec fn spec_derive(seed: Seq<u8>, owner: Seq<u8>, program_id: Seq<u8>) -> Option<
    (Seq<u8>, u8),
>;

/// Relies on solana_program::pubkey::Pubkey::try_find_program_address: a
/// deterministic, hash-based derivation from the seed slices and the program
/// identity, returning the derived address with the largest discriminator
/// that takes it off the standard key-pair curve, and `None` where no
/// discriminator does or a seed is over the host's length cap.
#[verifier::external_body]
fn find_program_address_raw(seed: &[u8], owner: &Identity, program_id: &Identity) -> (r: Option<
    (Identity, u8),
>)
    ensures
        r matches Some(p) ==> spec_derive(seed@, owner@, program_id@) == Some((p.0@, p.1)),
        r is None ==> spec_derive(seed@, owner@, program_id@) is None,
{
    let pid = solana_program::pubkey::Pubkey::new_from_array(*program_id);
    let found = solana_program::pubkey::Pubkey::try_find_program_address(
        &[seed, owner.as_slice()],
        &pid,
    );
    found.map(|p: (solana_program::pubkey::Pubkey, u8)| (p.0.to_bytes(), p.1))
}

/// Derives the vault address and its discriminator for an owner under a
/// seed. Deterministic: the result is pinned by `spec_derive`, a function of
/// the inputs alone.
pub fn derive(seed: &[u8], owner: &Identity, program_id: &Identity) -> (r: Option<(Identity, u8)>)
    ensures
        r matches Some(p) ==> spec_derive(seed@, owner@, program_id@) == Some((p.0@, p.1)),
        r is None ==> spec_derive(seed@, owner@, program_id@) is None,
{
    find_program_address_raw(seed, owner, program_id)
}

/// Law: derivation is deterministic. Any two results obtained for the same
/// seed, owner and program identity coincide.
pub proof fn lemma_derive_deterministic(
    seed: Seq<u8>,
    owner: Seq<u8>,
    program_id: Seq<u8>,
    r1: Option<(Seq<u8>, u8)>,
    r2: Option<(Seq<u8>, u8)>,
)
    requires
        r1 == spec_derive(seed, owner, program_id),
        r2 == spec_derive(seed, owner, program_id),
    ensures
        r1 == r2,
{
}

} // verus!
