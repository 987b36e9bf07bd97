//! Deterministic derivation of the addresses a multisig owns.
//!
//! Each account of a multisig lives at a program-derived address computed
//! from a domain tag and a parent key, together with a bump byte that lands
//! the address off the signing curve.  The derivation is a pure function of
//! the seeds and the program id; the host performs it through a one-way
//! digest, and this library compares the outcome byte for byte against any
//! caller-supplied address claiming a role.

use vstd::prelude::*;

use crate::pubkey::Pubkey;

verus! {

/// The derived address and bump seed for seeds `[tag, parent]` under
/// `program_id`, or `None` when the bump search finds no off-curve address.
pub uninterp spec fn derived_pda(tag: Seq<u8>, parent: Seq<u8>, program_id: Seq<u8>) -> Option<
    (Seq<u8>, u8),
>;

/// View of an executable derivation result.
pub open spec fn pda_view(r: Option<(Pubkey, u8)>) -> Option<(Seq<u8>, u8)> {
    match r {
        Some(p) => Some((p.0@, p.1)),
        None => None,
    }
}

/// Domain tag of the multisig record derivation.
pub open spec fn multisig_tag() -> Seq<u8> {
    seq![109u8, 117u8, 108u8, 116u8, 105u8, 115u8, 105u8, 103u8]
}

/// Domain tag of the treasury vault derivation.
pub open spec fn treasury_tag() -> Seq<u8> {
    seq![116u8, 114u8, 101u8, 97u8, 115u8, 117u8, 114u8, 121u8]
}

/// The bytes of `"multisig"`.
fn multisig_tag_bytes() -> (t: [u8; 8])
    ensures
        t@ == multisig_tag(),
{
    let t: [u8; 8] = [109u8, 117u8, 108u8, 116u8, 105u8, 115u8, 105u8, 103u8];
    proof {
        assert(t@ =~= multisig_tag());
    }
    t
}

/// The bytes of `"treasury"`.
fn treasury_tag_bytes() -> (t: [u8; 8])
    ensures
        t@ == treasury_tag(),
{
    let t: [u8; 8] = [116u8, 114u8, 101u8, 97u8, 115u8, 117u8, 114u8, 121u8];
    proof {
        assert(t@ =~= treasury_tag());
    }
    t
}

/// Relies on `solana_address::Address::try_find_program_address`: the
/// derived address and bump seed are a deterministic function of the seed
/// slices and the program id alone (a sha-256 digest chain plus an
/// off-curve test, searching bump bytes from the highest down), and `None`
/// comes back only when the search is exhausted or a seed exceeds the
/// host's limits.
#[verifier::external_body]
fn find_program_address(tag: &[u8], parent: &Pubkey, program_id: &Pubkey) -> (r: Option<
    (Pubkey, u8),
>)
    ensures
        pda_view(r) == derived_pda(tag@, parent@, program_id@),
{
    let id = solana_address::Address::new_from_array(*program_id);
    match solana_address::Address::try_find_program_address(&[tag, parent], &id) {
        Some((address, bump)) => Some((address.to_bytes(), bump)),
        None => None,
    }
}

/// Derive the multisig record address owned by `creator`.
pub fn derive_multisig_address(creator: &Pubkey, program_id: &Pubkey) -> (r: Option<(Pubkey, u8)>)
    ensures
        pda_view(r) == derived_pda(multisig_tag(), creator@, program_id@),
{
    let tag = multisig_tag_bytes();
    find_program_address(tag.as_slice(), creator, program_id)
}

/// Derive the treasury vault address owned by the multisig record at
/// `multisig`.
pub fn derive_treasury_address(multisig: &Pubkey, program_id: &Pubkey) -> (r: Option<(Pubkey, u8)>)
    ensures
        pda_view(r) == derived_pda(treasury_tag(), multisig@, program_id@),
{
    let tag = treasury_tag_bytes();
    find_program_address(tag.as_slice(), multisig, program_id)
}

} // verus!
