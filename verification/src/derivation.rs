//! The address deriver: the deterministic identity of a new multisig,
//! computed from a fixed domain-separation prefix, a fixed "multisig" tag,
//! and the creator-supplied ephemeral create key. The create key must sign
//! the creation call, so nobody else can pre-claim the derived address.

use vstd::prelude::*;
use crate::pubkey::Pubkey;

verus! {

/// The derived address and bump of a multisig, as a function of the create
/// key's bytes and the program id's bytes. `None` only in the statistically
/// improbable case that no bump seed yields a valid (off-curve) address.
pub uninterp spec fn derived_multisig_address(create_key: Seq<u8>, program_id: Seq<u8>) -> Option<
    (Seq<u8>, u8),
>;

/// Relies on solana-pubkey's `Pubkey::try_find_program_address`, called with
/// the seed slices `b"squads"`, `b"multisig"` and the create key's bytes: a
/// deterministic SHA-256-based search over bump seeds (from 255 downward)
/// for the first off-curve address, so the result is a function of the
/// create key and the program id alone, and `None` exactly when that search
/// finds no viable bump.
#[verifier::external_body]
pub(crate) fn derive_multisig_address(create_key: &Pubkey, program_id: &Pubkey) -> (r: Option<
    (Pubkey, u8),
>)
    ensures
        match r {
            Some(p) => derived_multisig_address(create_key@, program_id@) == Some((p.0@, p.1)),
            None => derived_multisig_address(create_key@, program_id@) is None,
        },
{
    let pid = solana_program::pubkey::Pubkey::new_from_array(program_id.bytes);
    let seeds: [&[u8]; 3] = [b"squads", b"multisig", &create_key.bytes];
    solana_program::pubkey::Pubkey::try_find_program_address(&seeds, &pid).map(
        |p: (solana_program::pubkey::Pubkey, u8)| (Pubkey { bytes: p.0.to_bytes() }, p.1),
    )
}

} // verus!
