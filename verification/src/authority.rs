//! The program's derived custody authority.
//!
//! While an escrow is open, the custody account is owned by an address
//! derived deterministically from the program's identity and a fixed seed —
//! an address for which the host grants the program a keyless signing
//! capability, and which no end user can hold a private key for.

use vstd::prelude::*;
use crate::identity::Identity;

verus! {

/// The derived authority (address and bump byte) for a program identity and
/// seed. `Pubkey::try_find_program_address` computes it from its arguments
/// alone, so its result is known here only by this name.
pub uninterp spec fn spec_derived_authority(program_id: Seq<u8>, seed: Seq<u8>) -> Option<
    (Seq<u8>, u8),
>;

/// The fixed seed from which the custody authority is derived: the ASCII
/// bytes of "escrow".
pub open spec fn spec_authority_seed() -> Seq<u8> {
    seq![101u8, 115u8, 99u8, 114u8, 111u8, 119u8]
}

/// Returns the fixed derivation seed.
pub fn authority_seed() -> (v: Vec<u8>)
    ensures
        v@ == spec_authority_seed(),
{
    let mut v: Vec<u8> = Vec::new();
    v.push(101u8);
    v.push(115u8);
    v.push(99u8);
    v.push(114u8);
    v.push(111u8);
    v.push(119u8);
    proof {
        assert(v@ =~= spec_authority_seed());
    }
    v
}

/// Lifts a derivation result to the view level, for contracts.
pub open spec fn spec_derived_view(r: Option<(Identity, u8)>) -> Option<(Seq<u8>, u8)> {
    match r {
        Some(p) => Some((p.0@, p.1)),
        None => None,
    }
}

/// Whether `owner` is the derived authority for `program_id`: the condition
/// under which a custody account is under program control. False in the
/// statistically improbable case that no bump byte yields a derived address.
pub open spec fn spec_under_program_control(program_id: Seq<u8>, owner: Seq<u8>) -> bool {
    match spec_derived_authority(program_id, spec_authority_seed()) {
        Some(q) => owner == q.0,
        None => false,
    }
}

/// Relies on `solana_program::pubkey::Pubkey::try_find_program_address`: the
/// returned address and bump byte are a deterministic function of the seeds
/// and the program identity alone (a SHA-256-based search over bump bytes),
/// so the result is stated through [`spec_derived_authority`]. The `try`
/// variant is used because it returns `None`, rather than panicking, in the
/// statistically improbable event that no bump byte works.
#[verifier::external_body]
fn try_find_authority(program_id: &Identity, seed: &[u8]) -> (r: Option<(Identity, u8)>)
    ensures
        spec_derived_view(r) == spec_derived_authority(program_id@, seed@),
{
    let pk = solana_program::pubkey::Pubkey::new_from_array(program_id.bytes);
    match solana_program::pubkey::Pubkey::try_find_program_address(&[seed], &pk) {
        Some((address, bump)) => Some((Identity { bytes: address.to_bytes() }, bump)),
        None => None,
    }
}

/// The derived custody authority for `program_id` under the fixed seed, with
/// its bump byte, or `None` if no bump byte yields an address.
pub fn derive_authority(program_id: &Identity) -> (r: Option<(Identity, u8)>)
    ensures
        spec_derived_view(r) == spec_derived_authority(program_id@, spec_authority_seed()),
{
    let seed: Vec<u8> = authority_seed();
    try_find_authority(program_id, seed.as_slice())
}

} // verus!
